use native_bridge::Credential;
use native_bridge::HistoryEntry;
use native_bridge::get_credentials;
use native_bridge::report_history;
use native_bridge::save_credential;
use native_bridge::save_log_line;

#[test]
fn report_history_emits_one_unmodified_notification() {
    let entry = HistoryEntry {
        url: "https://example.com".to_string(),
        title: "Example".to_string(),
        timestamp: 1700000000000,
    };
    let emission = report_history(entry.clone());
    assert_eq!(emission.event, "safari-history");
    assert_eq!(emission.payload, entry);
}

#[test]
fn get_credentials_returns_empty_for_any_domain() {
    assert!(get_credentials("example.com".to_string()).is_empty());
    assert!(get_credentials(String::new()).is_empty());
    assert!(get_credentials("a-very-long.subdomain.example.org".to_string()).is_empty());
}

#[test]
fn save_credential_succeeds() {
    let credential = Credential {
        id: "1".to_string(),
        domain: "example.com".to_string(),
        username: "alice".to_string(),
    };
    assert_eq!(save_credential(credential), Ok(()));
}

#[test]
fn save_log_line_names_the_domain() {
    let credential = Credential {
        id: "1".to_string(),
        domain: "example.com".to_string(),
        username: "alice".to_string(),
    };
    assert_eq!(
        save_log_line(&credential),
        "Saving credential for domain: example.com"
    );
}

#[test]
fn save_persists_nothing_queryable() {
    let credential = Credential {
        id: "1".to_string(),
        domain: "example.com".to_string(),
        username: "alice".to_string(),
    };
    assert_eq!(save_credential(credential), Ok(()));
    assert!(get_credentials("example.com".to_string()).is_empty());
}
