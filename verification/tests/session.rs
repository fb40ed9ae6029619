use pg_bridge::errors::BridgeError;
use pg_bridge::serializer::{serialize_simple, ColumnValue, SimpleColumn, SimpleMessage};
use pg_bridge::session::{drain_mode, Addin, DrainMode};

#[test]
fn fresh_bridge_is_disconnected_and_clean() {
    let a = Addin::new();
    assert!(a.connect_needed());
    assert!(!a.is_connected(false));
    assert_eq!(a.last_error_text(), "");
}

#[test]
fn require_connection_before_connect() {
    let a = Addin::new();
    match a.require_connection() {
        Err(BridgeError::NotConnected) => {}
        _ => panic!("expected a not-connected failure"),
    }
    assert_eq!(BridgeError::NotConnected.message(), "Not connected");
}

#[test]
fn connect_is_idempotent() {
    let mut a = Addin::new();
    assert!(a.connect_needed());
    a.record_connect_success();
    assert!(a.is_connected(false));
    // A second connect request, whatever its connection string, finds a held
    // session, attempts nothing, and leaves the bridge connected.
    assert!(!a.connect_needed());
    assert!(a.is_connected(false));
    assert!(a.require_connection().is_ok());
}

#[test]
fn engine_reported_closure_shows_as_disconnected() {
    let mut a = Addin::new();
    a.record_connect_success();
    assert!(a.is_connected(false));
    assert!(!a.is_connected(true));
}

#[test]
fn drain_mode_decisions() {
    match drain_mode(-1) {
        Err(BridgeError::Validation(m)) => assert_eq!(m, "Timeout must be >= 0"),
        _ => panic!("expected a validation failure"),
    }
    match drain_mode(0) {
        Ok(DrainMode::Immediate) => {}
        _ => panic!("a zero timeout must drain without waiting"),
    }
    match drain_mode(250) {
        Ok(DrainMode::WaitFirst(ms)) => assert_eq!(ms, 250),
        _ => panic!("a positive timeout must wait for the first notification"),
    }
}

#[test]
fn error_sink_reflects_latest_outcome() {
    let mut a = Addin::new();
    a.record_connect_success();
    // A failing query: the failure's text is captured.
    let r = serialize_simple(&vec![SimpleMessage::Row(vec![SimpleColumn {
        name: "x".to_string(),
        value: ColumnValue::Number("not a number".to_string()),
    }])]);
    let err = r.err().expect("the malformed token must be refused");
    a.save_error(Some(err.message()));
    assert!(!a.last_error_text().is_empty());
    // A subsequent succeeding operation clears it.
    let ok = serialize_simple(&vec![SimpleMessage::CommandComplete(1)]).unwrap();
    assert_eq!(ok, "[1]");
    a.save_error(None);
    assert_eq!(a.last_error_text(), "");
}
