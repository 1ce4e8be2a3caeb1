use vstd::prelude::*;

use crate::records::Credential;
use crate::records::HistoryEntry;

verus! {

/// One field value as it crosses the command boundary. The host shell's
/// dispatch carries each record as a flat sequence of such values, in the
/// record's field order.
#[derive(Debug, Clone, PartialEq)]
pub enum Value {
    /// A string field.
    Str(String),
    /// An unsigned 64-bit integer field.
    Uint(u64),
}

/// The boundary form of a history entry: url, title, timestamp, in order.
pub open spec fn encoded_history_entry(e: HistoryEntry) -> Seq<Value> {
    seq![Value::Str(e.url), Value::Str(e.title), Value::Uint(e.timestamp)]
}

/// What a sequence of boundary values yields as a history entry: exactly
/// three values of the right shapes give the entry, anything else nothing.
pub open spec fn decoded_history_entry(vals: Seq<Value>) -> Option<HistoryEntry> {
    if vals.len() == 3 {
        match (vals[0], vals[1], vals[2]) {
            (Value::Str(url), Value::Str(title), Value::Uint(timestamp)) => Some(
                HistoryEntry { url, title, timestamp },
            ),
            _ => None,
        }
    } else {
        None
    }
}

/// The boundary form of a credential: id, domain, username, in order.
pub open spec fn encoded_credential(c: Credential) -> Seq<Value> {
    seq![Value::Str(c.id), Value::Str(c.domain), Value::Str(c.username)]
}

/// What a sequence of boundary values yields as a credential: exactly three
/// string values give the credential, anything else nothing.
pub open spec fn decoded_credential(vals: Seq<Value>) -> Option<Credential> {
    if vals.len() == 3 {
        match (vals[0], vals[1], vals[2]) {
            (Value::Str(id), Value::Str(domain), Value::Str(username)) => Some(
                Credential { id, domain, username },
            ),
            _ => None,
        }
    } else {
        None
    }
}

/// Puts a history entry into its boundary form.
pub fn encode_history_entry(e: &HistoryEntry) -> (vals: Vec<Value>)
    ensures
        vals@ == encoded_history_entry(*e),
{
    let mut vals: Vec<Value> = Vec::new();
    vals.push(Value::Str(e.url.clone()));
    vals.push(Value::Str(e.title.clone()));
    vals.push(Value::Uint(e.timestamp));
    vals
}

/// Reads a history entry back from its boundary form.
pub fn decode_history_entry(vals: &Vec<Value>) -> (r: Option<HistoryEntry>)
    ensures
        r == decoded_history_entry(vals@),
{
    if vals.len() != 3 {
        return None;
    }
    match (&vals[0], &vals[1], &vals[2]) {
        (Value::Str(url), Value::Str(title), Value::Uint(timestamp)) => Some(
            HistoryEntry { url: url.clone(), title: title.clone(), timestamp: *timestamp },
        ),
        _ => None,
    }
}

/// Puts a credential into its boundary form.
pub fn encode_credential(c: &Credential) -> (vals: Vec<Value>)
    ensures
        vals@ == encoded_credential(*c),
{
    let mut vals: Vec<Value> = Vec::new();
    vals.push(Value::Str(c.id.clone()));
    vals.push(Value::Str(c.domain.clone()));
    vals.push(Value::Str(c.username.clone()));
    vals
}

/// Reads a credential back from its boundary form.
pub fn decode_credential(vals: &Vec<Value>) -> (r: Option<Credential>)
    ensures
        r == decoded_credential(vals@),
{
    if vals.len() != 3 {
        return None;
    }
    match (&vals[0], &vals[1], &vals[2]) {
        (Value::Str(id), Value::Str(domain), Value::Str(username)) => Some(
            Credential { id: id.clone(), domain: domain.clone(), username: username.clone() },
        ),
        _ => None,
    }
}

/// Law: a history entry round-trips through the command boundary — decoding
/// an encoded entry yields the entry, field for field.
pub proof fn lemma_history_entry_round_trip(e: HistoryEntry)
    ensures
        decoded_history_entry(encoded_history_entry(e)) == Some(e),
{
}

/// Law: a credential round-trips through the command boundary — decoding an
/// encoded credential yields the credential, field for field.
pub proof fn lemma_credential_round_trip(c: Credential)
    ensures
        decoded_credential(encoded_credential(c)) == Some(c),
{
}

} // verus!
