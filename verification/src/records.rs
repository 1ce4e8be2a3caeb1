use vstd::prelude::*;

verus! {

/// A single page navigation reported by the browser-extension side of the
/// host shell. Any strings and any timestamp are accepted; the record is
/// passed through once and never persisted.
#[derive(Debug, Clone, PartialEq)]
pub struct HistoryEntry {
    /// Address of the visited page.
    pub url: String,
    /// Title of the visited page.
    pub title: String,
    /// When the navigation happened, e.g. epoch milliseconds.
    pub timestamp: u64,
}

/// Stored-login metadata handled by the autofill side of the host shell.
/// The record carries no secret field; only metadata crosses the bridge.
#[derive(Debug, Clone, PartialEq)]
pub struct Credential {
    /// Intended unique identifier of the record.
    pub id: String,
    /// Domain the login belongs to.
    pub domain: String,
    /// Account name for that domain.
    pub username: String,
}

} // verus!
