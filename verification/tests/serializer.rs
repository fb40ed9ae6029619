use pg_bridge::errors::BridgeError;
use pg_bridge::json::check_json_number;
use pg_bridge::serializer::{
    serialize_notifications, serialize_simple, ColumnValue, Notification, SimpleColumn,
    SimpleMessage,
};

fn col(name: &str, value: ColumnValue) -> SimpleColumn {
    SimpleColumn { name: name.to_string(), value }
}

#[test]
fn command_complete_only() {
    let out = serialize_simple(&vec![SimpleMessage::CommandComplete(5)]).unwrap();
    assert_eq!(out, "[5]");
}

#[test]
fn several_counts_in_order() {
    let out = serialize_simple(&vec![
        SimpleMessage::CommandComplete(0),
        SimpleMessage::CommandComplete(12),
        SimpleMessage::CommandComplete(3),
    ])
    .unwrap();
    assert_eq!(out, "[0,12,3]");
}

#[test]
fn empty_stream_is_empty_array() {
    let out = serialize_simple(&vec![]).unwrap();
    assert_eq!(out, "[]");
}

#[test]
fn named_column_row() {
    let out = serialize_simple(&vec![SimpleMessage::Row(vec![col(
        "one",
        ColumnValue::Int(1),
    )])])
    .unwrap();
    assert_eq!(out, "[{\"one\":1}]");
}

#[test]
fn anonymous_column_is_rewritten() {
    let out = serialize_simple(&vec![SimpleMessage::Row(vec![col(
        "?column?",
        ColumnValue::Int(2),
    )])])
    .unwrap();
    assert_eq!(out, "[{\"column_0\":2}]");
}

#[test]
fn duplicate_names_are_rewritten_positionally() {
    let out = serialize_simple(&vec![SimpleMessage::Row(vec![
        col("a", ColumnValue::Int(1)),
        col("a", ColumnValue::Int(2)),
        col("?column?", ColumnValue::Null),
        col("b", ColumnValue::Bool(true)),
    ])])
    .unwrap();
    assert_eq!(out, "[{\"a\":1,\"column_1\":2,\"column_2\":null,\"b\":true}]");
}

#[test]
fn rows_and_counts_keep_server_order() {
    let out = serialize_simple(&vec![
        SimpleMessage::CommandComplete(1),
        SimpleMessage::Row(vec![col("x", ColumnValue::Text("v".to_string()))]),
        SimpleMessage::CommandComplete(7),
    ])
    .unwrap();
    assert_eq!(out, "[1,{\"x\":\"v\"},7]");
}

#[test]
fn scalar_values() {
    let out = serialize_simple(&vec![SimpleMessage::Row(vec![
        col("n", ColumnValue::Null),
        col("t", ColumnValue::Bool(true)),
        col("f", ColumnValue::Bool(false)),
        col("i", ColumnValue::Int(-42)),
        col("r", ColumnValue::Number("3.25e2".to_string())),
        col("s", ColumnValue::Text("hi".to_string())),
    ])])
    .unwrap();
    assert_eq!(
        out,
        "[{\"n\":null,\"t\":true,\"f\":false,\"i\":-42,\"r\":3.25e2,\"s\":\"hi\"}]"
    );
}

#[test]
fn extreme_integers() {
    let out = serialize_simple(&vec![SimpleMessage::Row(vec![
        col("lo", ColumnValue::Int(i64::MIN)),
        col("hi", ColumnValue::Int(i64::MAX)),
    ])])
    .unwrap();
    assert_eq!(
        out,
        "[{\"lo\":-9223372036854775808,\"hi\":9223372036854775807}]"
    );
}

#[test]
fn text_is_escaped() {
    let out = serialize_simple(&vec![SimpleMessage::Row(vec![col(
        "s",
        ColumnValue::Text("a\"b\\c\nd\te\u{1}".to_string()),
    )])])
    .unwrap();
    assert_eq!(out, "[{\"s\":\"a\\\"b\\\\c\\nd\\te\\u0001\"}]");
}

#[test]
fn column_names_are_escaped() {
    let out = serialize_simple(&vec![SimpleMessage::Row(vec![col(
        "we\"ird",
        ColumnValue::Int(0),
    )])])
    .unwrap();
    assert_eq!(out, "[{\"we\\\"ird\":0}]");
}

#[test]
fn malformed_number_token_fails() {
    let r = serialize_simple(&vec![SimpleMessage::Row(vec![col(
        "x",
        ColumnValue::Number("3.".to_string()),
    )])]);
    match r {
        Err(BridgeError::Serialization(_)) => {}
        _ => panic!("expected a serialization failure"),
    }
}

#[test]
fn number_token_grammar() {
    for good in ["0", "-0", "7", "42", "3.25", "-0.5", "1e3", "2E-7", "6.02e+23"] {
        assert!(check_json_number(good), "{good} should be accepted");
    }
    for bad in ["", "-", "01", "1.", ".5", "1e", "1e+", "+1", "0x1", "1 ", "NaN"] {
        assert!(!check_json_number(bad), "{bad} should be refused");
    }
}

#[test]
fn output_parses_as_json() {
    let out = serialize_simple(&vec![
        SimpleMessage::Row(vec![
            col("one", ColumnValue::Int(1)),
            col("?column?", ColumnValue::Text("x\n".to_string())),
        ]),
        SimpleMessage::CommandComplete(9),
    ])
    .unwrap();
    let v: serde_json::Value = serde_json::from_str(&out).unwrap();
    let arr = v.as_array().unwrap();
    assert_eq!(arr.len(), 2);
    let obj = arr[0].as_object().unwrap();
    assert_eq!(obj.get("one").unwrap().as_i64().unwrap(), 1);
    assert_eq!(obj.get("column_1").unwrap().as_str().unwrap(), "x\n");
    assert_eq!(arr[1].as_u64().unwrap(), 9);
}

#[test]
fn empty_row_is_empty_object() {
    let out = serialize_simple(&vec![SimpleMessage::Row(vec![])]).unwrap();
    assert_eq!(out, "[{}]");
}

#[test]
fn non_ascii_text_passes_through_unescaped() {
    let out = serialize_simple(&vec![SimpleMessage::Row(vec![col(
        "s",
        ColumnValue::Text("héllo — мир".to_string()),
    )])])
    .unwrap();
    assert_eq!(out, "[{\"s\":\"héllo — мир\"}]");
}

#[test]
fn no_notifications_is_empty_array() {
    let out = serialize_notifications(&vec![]);
    assert_eq!(out, "[]");
}

#[test]
fn notifications_in_arrival_order() {
    let out = serialize_notifications(&vec![
        Notification {
            channel: "jobs".to_string(),
            payload: "start".to_string(),
        },
        Notification {
            channel: "jobs".to_string(),
            payload: "done \"ok\"".to_string(),
        },
    ]);
    assert_eq!(
        out,
        "[{\"channel\":\"jobs\",\"payload\":\"start\"},{\"channel\":\"jobs\",\"payload\":\"done \\\"ok\\\"\"}]"
    );
    let v: serde_json::Value = serde_json::from_str(&out).unwrap();
    assert_eq!(v.as_array().unwrap().len(), 2);
}
