use drone_bridge::message::{
    classify, get_data, get_type, read_message, read_payload, ClassifyError, MessageError, MessageType,
    Operation,
};
use drone_bridge::text::{same_text, trim_quotes_of};

fn put_parts(r: Result<Operation, MessageError>) -> (String, String) {
    match r {
        Ok(Operation::Put { id, payload }) => (id, payload),
        other => panic!("expected a put, got {:?}", other),
    }
}

fn removed_id(r: Result<Operation, MessageError>) -> String {
    match r {
        Ok(Operation::Remove { id }) => id,
        other => panic!("expected a remove, got {:?}", other),
    }
}

#[test]
fn type_names_are_recognised() {
    assert_eq!(get_type(Some("Create")), Ok(MessageType::Create));
    assert_eq!(get_type(Some("Edit")), Ok(MessageType::Edit));
    assert_eq!(get_type(Some("Delete")), Ok(MessageType::Delete));
    assert_eq!(get_type(Some("create")), Err(ClassifyError::UnknownMessageType));
    assert_eq!(get_type(Some("")), Err(ClassifyError::UnknownMessageType));
    assert_eq!(get_type(None), Err(ClassifyError::UnknownMessageType));
}

#[test]
fn create_carries_feature_id_and_whole_data() {
    let r = read_payload(r#"{"type":"Create","data":{"feature":{"id":"f1"},"x":1}}"#);
    let (id, payload) = put_parts(r);
    assert_eq!(id, "f1");
    assert_eq!(payload, r#"{"feature":{"id":"f1"},"x":1}"#);
}

#[test]
fn edit_is_an_upsert_too() {
    let r = read_payload(r#"{"type":"Edit","data":{"feature":{"id":"f2","name":"b"}}}"#);
    let (id, payload) = put_parts(r);
    assert_eq!(id, "f2");
    assert_eq!(payload, r#"{"feature":{"id":"f2","name":"b"}}"#);
}

#[test]
fn delete_takes_data_as_the_id() {
    let r = read_payload(r#"{"type":"Delete","data":"abc123"}"#);
    assert_eq!(removed_id(r), "abc123");
}

#[test]
fn delete_with_numeric_data_uses_its_text() {
    let r = read_payload(r#"{"type":"Delete","data":42}"#);
    assert_eq!(removed_id(r), "42");
}

#[test]
fn unknown_or_missing_type_is_rejected() {
    let e = Err(MessageError::Classify(ClassifyError::UnknownMessageType));
    assert_eq!(read_payload(r#"{"type":"Move","data":"x"}"#).map(|_| ()), e);
    assert_eq!(read_payload(r#"{"data":"x"}"#).map(|_| ()), e);
    assert_eq!(read_payload(r#"{"type":7,"data":"x"}"#).map(|_| ()), e);
}

#[test]
fn missing_or_null_data_is_rejected() {
    let e = Err(MessageError::Classify(ClassifyError::MissingData));
    assert_eq!(read_payload(r#"{"type":"Create"}"#).map(|_| ()), e);
    assert_eq!(read_payload(r#"{"type":"Delete","data":null}"#).map(|_| ()), e);
}

#[test]
fn create_without_string_id_is_malformed() {
    let e = Err(MessageError::Classify(ClassifyError::MalformedPayload));
    assert_eq!(read_payload(r#"{"type":"Create","data":{"feature":{}}}"#).map(|_| ()), e);
    assert_eq!(read_payload(r#"{"type":"Edit","data":{"feature":{"id":5}}}"#).map(|_| ()), e);
    assert_eq!(read_payload(r#"{"type":"Create","data":"plain"}"#).map(|_| ()), e);
}

#[test]
fn text_that_is_not_json_is_a_parse_error() {
    assert_eq!(read_payload("{not json").map(|_| ()), Err(MessageError::Parse));
    assert_eq!(read_payload("").map(|_| ()), Err(MessageError::Parse));
}

#[test]
fn classify_on_plain_fields() {
    match classify(Some("Create"), Some("{}"), Some("k")) {
        Ok(Operation::Put { id, payload }) => {
            assert_eq!(id, "k");
            assert_eq!(payload, "{}");
        }
        other => panic!("unexpected {:?}", other),
    }
    match classify(Some("Delete"), Some("\"k\""), None) {
        Ok(Operation::Remove { id }) => assert_eq!(id, "k"),
        other => panic!("unexpected {:?}", other),
    }
    assert_eq!(classify(Some("Edit"), None, Some("k")).map(|_| ()), Err(ClassifyError::MissingData));
    assert_eq!(classify(Some("Edit"), Some("{}"), None).map(|_| ()), Err(ClassifyError::MalformedPayload));
    assert_eq!(classify(None, Some("{}"), Some("k")).map(|_| ()), Err(ClassifyError::UnknownMessageType));
}

#[test]
fn data_member_is_read_from_a_document() {
    let v: serde_json::Value = serde_json::from_str(r#"{"type":"Delete","data":"z"}"#).unwrap();
    assert_eq!(get_data(&v).unwrap(), serde_json::Value::String("z".to_string()));
    let n: serde_json::Value = serde_json::from_str(r#"{"data":null}"#).unwrap();
    assert_eq!(get_data(&n), Err(ClassifyError::MissingData));
    match read_message(&v) {
        Ok(Operation::Remove { id }) => assert_eq!(id, "z"),
        other => panic!("unexpected {:?}", other),
    }
}

#[test]
fn quotes_are_trimmed_at_both_ends_only() {
    assert_eq!(trim_quotes_of("\"\"a\"b\"\""), "a\"b");
    assert_eq!(trim_quotes_of("\"\"\""), "");
    assert_eq!(trim_quotes_of("plain"), "plain");
    assert_eq!(trim_quotes_of(""), "");
}

#[test]
fn text_comparison() {
    assert!(same_text("abc", "abc"));
    assert!(!same_text("abc", "abd"));
    assert!(!same_text("abc", "ab"));
    assert!(same_text("", ""));
}
