//! The bridge's error taxonomy. The host has no exception channel, so errors
//! are carried as values, turned into text, and recorded for polled retrieval.
use vstd::prelude::*;

verus! {

/// One failure of a bridge operation.
#[derive(Debug)]
pub enum BridgeError {
    /// Establishing a session failed (malformed connection string, network or
    /// authentication failure).
    Connection(String),
    /// An operation needing a live session found none.
    NotConnected,
    /// A caller input was malformed (a negative timeout).
    Validation(String),
    /// The engine rejected or aborted the SQL text.
    Query(String),
    /// A connection-level failure while waiting for or draining notifications.
    Protocol(String),
    /// A result value could not be encoded.
    Serialization(String),
}

impl BridgeError {
    /// The descriptive text of this error.
    pub open spec fn text_model(self) -> Seq<char> {
        match self {
            BridgeError::Connection(s) => s@,
            BridgeError::NotConnected => "Not connected"@,
            BridgeError::Validation(s) => s@,
            BridgeError::Query(s) => s@,
            BridgeError::Protocol(s) => s@,
            BridgeError::Serialization(s) => s@,
        }
    }

    /// The descriptive text of this error.
    pub fn message(&self) -> (r: String)
        ensures
            r@ == self.text_model(),
    {
        match self {
            BridgeError::Connection(s) => s.clone(),
            BridgeError::NotConnected => String::from_str("Not connected"),
            BridgeError::Validation(s) => s.clone(),
            BridgeError::Query(s) => s.clone(),
            BridgeError::Protocol(s) => s.clone(),
            BridgeError::Serialization(s) => s.clone(),
        }
    }
}

} // verus!
