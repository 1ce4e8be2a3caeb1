use vstd::prelude::*;
use vstd::string::StringExecFns;

use crate::records::Credential;
use crate::records::HistoryEntry;

verus! {

/// The one outbound notification that a history report produces: the event
/// name the UI layer listens on, together with the entry as payload. The
/// host shell delivers it to the UI listeners.
pub struct HistoryEmission {
    /// Name of the notification event.
    pub event: String,
    /// The reported entry, carried unmodified.
    pub payload: HistoryEntry,
}

/// The name of the notification event that carries history entries.
pub open spec fn history_event_name() -> Seq<char> {
    "safari-history"@
}

/// What the credential store holds for a domain. No store is implemented,
/// so every lookup yields the empty sequence.
pub open spec fn stored_credentials(domain: Seq<char>) -> Seq<Credential> {
    Seq::empty()
}

/// Handles a page-navigation report: yields exactly one notification, named
/// `safari-history`, carrying an unmodified copy of the entry. The host
/// shell performs the delivery and answers the caller with its outcome.
pub fn report_history(entry: HistoryEntry) -> (emission: HistoryEmission)
    ensures
        emission.event@ == history_event_name(),
        emission.payload == entry,
{
    HistoryEmission { event: "safari-history".to_owned(), payload: entry }
}

/// Handles an autofill lookup: the answer is the empty sequence for every
/// domain, since no credential store is implemented.
pub fn get_credentials(domain: String) -> (r: Vec<Credential>)
    ensures
        r@ == stored_credentials(domain@),
{
    let r: Vec<Credential> = Vec::new();
    r
}

/// Handles a save request: the call always succeeds and persists nothing.
/// Its only observable effect is the diagnostic line that `save_log_line`
/// builds for the same credential.
pub fn save_credential(_credential: Credential) -> (r: Result<(), String>)
    ensures
        r == Ok::<(), String>(()),
{
    Ok(())
}

/// The diagnostic line a save produces: a fixed prefix followed by the
/// credential's domain. The host shell prints it.
pub fn save_log_line(credential: &Credential) -> (line: String)
    ensures
        line@ == "Saving credential for domain: "@ + credential.domain@,
{
    let prefix: String = "Saving credential for domain: ".to_owned();
    prefix.concat(credential.domain.as_str())
}

/// Law: saving a credential produces no persisted or queryable state — after
/// any `save_credential` call, a `get_credentials` lookup for any domain
/// still yields the empty sequence.
pub proof fn lemma_save_persists_nothing(credential: Credential, domain: Seq<char>)
    ensures
        stored_credentials(domain) == Seq::<Credential>::empty(),
{
}

} // verus!
