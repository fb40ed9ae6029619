//! The bridge's single long-lived state: whether a session has been
//! established, and the outcome of the most recent operation. The network
//! work itself happens outside; this module makes every decision about it —
//! when a connect attempt is due, when an operation may proceed, how an
//! outcome is recorded and reported — as transitions on this state.
use vstd::prelude::*;

use crate::errors::BridgeError;

verus! {

/// The mathematical model of the bridge state.
pub struct SessionModel {
    /// Whether a session has been established since the bridge was created.
    pub has_client: bool,
    /// The captured text of the most recent failure, if the most recent
    /// operation failed.
    pub last_error: Option<Seq<char>>,
}

/// The bridge state: one optional engine session (held by the caller that
/// performs the network work) and the most recent operation's outcome.
pub struct Addin {
    has_client: bool,
    last_error: Option<String>,
}

impl View for Addin {
    type V = SessionModel;

    closed spec fn view(&self) -> SessionModel {
        SessionModel {
            has_client: self.has_client,
            last_error: match self.last_error {
                Some(ref s) => Some(s@),
                None => None,
            },
        }
    }
}

/// What a connect request does to the state: nothing when a session is
/// already held, whatever the connection string; otherwise the session is
/// established exactly when the attempt succeeds.
pub open spec fn connect_step(s: SessionModel, attempt_ok: bool) -> SessionModel {
    if s.has_client {
        s
    } else if attempt_ok {
        SessionModel { has_client: true, ..s }
    } else {
        s
    }
}

/// What recording an operation's outcome does to the state: a success clears
/// the captured error, a failure replaces it with the new failure's text.
pub open spec fn record_outcome(s: SessionModel, err: Option<Seq<char>>) -> SessionModel {
    SessionModel { last_error: err, ..s }
}

/// The text the error sink reports: the captured failure's text, or empty.
pub open spec fn reported_error(s: SessionModel) -> Seq<char> {
    match s.last_error {
        Some(m) => m,
        None => Seq::empty(),
    }
}

/// The model of an optional error text.
pub open spec fn error_text_model(err: Option<String>) -> Option<Seq<char>> {
    match err {
        Some(s) => Some(s@),
        None => None,
    }
}

impl Addin {
    /// A fresh bridge: no session, no captured error.
    pub fn new() -> (r: Addin)
        ensures
            r@ == (SessionModel { has_client: false, last_error: None }),
    {
        Addin { has_client: false, last_error: None }
    }

    /// Whether a connect request must attempt a new session: only when none
    /// is held. A held session is kept even if the connection string differs.
    pub fn connect_needed(&self) -> (r: bool)
        ensures
            r == !self@.has_client,
    {
        !self.has_client
    }

    /// Records that a connect attempt succeeded and the session is now held.
    pub fn record_connect_success(&mut self)
        ensures
            final(self)@ == connect_step(old(self)@, true),
    {
        self.has_client = true;
    }

    /// Admits an operation that needs a live session, or refuses it: succeeds
    /// exactly when a session is held.
    pub fn require_connection(&self) -> (r: Result<(), BridgeError>)
        ensures
            r == if self@.has_client {
                Result::<(), BridgeError>::Ok(())
            } else {
                Result::<(), BridgeError>::Err(BridgeError::NotConnected)
            },
    {
        if self.has_client {
            Ok(())
        } else {
            Err(BridgeError::NotConnected)
        }
    }

    /// The liveness the bridge reports: a session is held and the engine does
    /// not report it closed.
    pub fn is_connected(&self, engine_reports_closed: bool) -> (r: bool)
        ensures
            r == (self@.has_client && !engine_reports_closed),
    {
        self.has_client && !engine_reports_closed
    }

    /// Records the outcome of the operation that just completed: `None` for a
    /// success, the failure's text otherwise.
    pub fn save_error(&mut self, err: Option<String>)
        ensures
            final(self)@ == record_outcome(old(self)@, error_text_model(err)),
    {
        self.last_error = err;
    }

    /// The most recent failure's text, or the empty string if the most recent
    /// operation succeeded or none has run.
    pub fn last_error_text(&self) -> (r: String)
        ensures
            r@ == reported_error(self@),
    {
        match &self.last_error {
            Some(s) => s.clone(),
            None => String::new(),
        }
    }
}

/// How a notification drain proceeds for a given timeout.
pub enum DrainMode {
    /// Consume only what is already buffered; never wait.
    Immediate,
    /// Wait up to the given number of milliseconds for a first notification,
    /// then consume whatever more is already buffered without waiting again.
    WaitFirst(u64),
}

/// Validates a drain request's timeout and decides how the drain proceeds:
/// a negative timeout is refused, zero never waits, a positive timeout waits
/// that long at most for the first notification.
pub fn drain_mode(timeout_millis: i32) -> (r: Result<DrainMode, BridgeError>)
    ensures
        timeout_millis < 0 ==> (r matches Err(e) && e is Validation && e.text_model()
            == "Timeout must be >= 0"@),
        timeout_millis == 0 ==> r == Result::<DrainMode, BridgeError>::Ok(DrainMode::Immediate),
        timeout_millis > 0 ==> r == Result::<DrainMode, BridgeError>::Ok(
            DrainMode::WaitFirst(timeout_millis as u64),
        ),
{
    if timeout_millis < 0 {
        Err(BridgeError::Validation(String::from_str("Timeout must be >= 0")))
    } else if timeout_millis == 0 {
        Ok(DrainMode::Immediate)
    } else {
        Ok(DrainMode::WaitFirst(timeout_millis as u64))
    }
}

/// Connecting is idempotent: after a connect has succeeded, a further connect
/// request — with the same or a different connection string, succeeding or
/// not — leaves the state exactly as it was, and the session stays held.
pub proof fn lemma_connect_idempotent(s: SessionModel, second_attempt_ok: bool)
    ensures
        connect_step(connect_step(s, true), second_attempt_ok) == connect_step(s, true),
        connect_step(s, true).has_client,
{
}

/// The error sink reflects only the most recent outcome: after a failure its
/// text is the failure's (non-empty) text, and after a subsequent success it
/// is empty again, whatever came before.
pub proof fn lemma_error_sink_reflects_latest(s: SessionModel, failure_text: Seq<char>)
    requires
        failure_text.len() > 0,
    ensures
        reported_error(record_outcome(s, Some(failure_text))) == failure_text,
        reported_error(record_outcome(s, Some(failure_text))).len() > 0,
        reported_error(record_outcome(record_outcome(s, Some(failure_text)), None)) == Seq::<
            char,
        >::empty(),
{
}

} // verus!
