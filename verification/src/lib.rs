//! Native-bridge shim for a mobile application shell.
//!
//! The library holds the decision side of three remote-invocable commands:
//! reporting a browser-history entry (which yields exactly one UI
//! notification), fetching stored credentials for a domain, and saving a
//! credential. The host shell that dispatches the commands, emits the
//! notification and prints the diagnostic line lives outside the library and
//! receives plain values from it.

mod codec;
mod commands;
mod records;

pub use codec::Value;
pub use codec::decode_credential;
pub use codec::decode_history_entry;
pub use codec::encode_credential;
pub use codec::encode_history_entry;
pub use codec::lemma_credential_round_trip;
pub use codec::lemma_history_entry_round_trip;
pub use commands::HistoryEmission;
pub use commands::get_credentials;
pub use commands::lemma_save_persists_nothing;
pub use commands::report_history;
pub use commands::save_credential;
pub use commands::save_log_line;
pub use records::Credential;
pub use records::HistoryEntry;
