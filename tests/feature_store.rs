use drone_bridge::features::{add_key, commands_for, delete_key, get_all_features, FeatureStore, StoreCommand};
use drone_bridge::message::{ClassifyError, MessageError, Operation};

fn listing(s: &FeatureStore) -> Vec<(String, String)> {
    s.list().into_iter().map(|f| (f.id, f.payload)).collect()
}

#[test]
fn last_upsert_is_the_one_listed() {
    let mut s = FeatureStore::new();
    s.process(r#"{"type":"Create","data":{"feature":{"id":"X"},"v":1}}"#).unwrap();
    s.process(r#"{"type":"Create","data":{"feature":{"id":"Y"},"v":9}}"#).unwrap();
    s.process(r#"{"type":"Edit","data":{"feature":{"id":"X"},"v":2}}"#).unwrap();
    let l = listing(&s);
    let for_x: Vec<&(String, String)> = l.iter().filter(|r| r.0 == "X").collect();
    assert_eq!(for_x.len(), 1);
    assert_eq!(for_x[0].1, r#"{"feature":{"id":"X"},"v":2}"#);
    assert_eq!(l.len(), 2);
}

#[test]
fn delete_removes_and_repeat_is_a_no_op() {
    let mut s = FeatureStore::new();
    s.put("other", "{\"o\":1}");
    s.process(r#"{"type":"Create","data":{"feature":{"id":"abc123"}}}"#).unwrap();
    let before = listing(&s).len();
    assert_eq!(before, 2);
    assert_eq!(s.process(r#"{"type":"Delete","data":"abc123"}"#), Ok(()));
    let after = listing(&s);
    assert_eq!(after.len(), before - 1);
    assert!(after.iter().all(|r| r.0 != "abc123"));
    assert_eq!(s.process(r#"{"type":"Delete","data":"abc123"}"#), Ok(()));
    assert_eq!(listing(&s), after);
}

#[test]
fn delete_of_unknown_id_is_not_an_error() {
    let mut s = FeatureStore::new();
    assert_eq!(s.process(r#"{"type":"Delete","data":"never"}"#), Ok(()));
    assert!(listing(&s).is_empty());
}

#[test]
fn same_edit_twice_equals_once() {
    let msg = r#"{"type":"Edit","data":{"feature":{"id":"e"},"k":"v"}}"#;
    let mut once = FeatureStore::new();
    once.put("a", "{}");
    once.process(msg).unwrap();
    let mut twice = FeatureStore::new();
    twice.put("a", "{}");
    twice.process(msg).unwrap();
    twice.process(msg).unwrap();
    assert_eq!(listing(&once), listing(&twice));
}

#[test]
fn dropped_messages_leave_the_store_alone() {
    let mut s = FeatureStore::new();
    s.put("a", "{}");
    assert_eq!(s.process("nope"), Err(MessageError::Parse));
    assert_eq!(
        s.process(r#"{"type":"Create","data":{"feature":{}}}"#),
        Err(MessageError::Classify(ClassifyError::MalformedPayload))
    );
    assert_eq!(listing(&s), vec![("a".to_string(), "{}".to_string())]);
}

#[test]
fn index_removal_happens_even_without_a_value() {
    let mut s = FeatureStore::new();
    s.execute(&StoreCommand::AddMember { member: "ghost".to_string() });
    s.execute(&StoreCommand::SetValue { key: "real".to_string(), value: "1".to_string() });
    s.execute(&StoreCommand::AddMember { member: "real".to_string() });
    assert_eq!(listing(&s), vec![("real".to_string(), "1".to_string())]);
    s.remove("ghost");
    s.execute(&StoreCommand::SetValue { key: "ghost".to_string(), value: "2".to_string() });
    assert_eq!(listing(&s), vec![("real".to_string(), "1".to_string())]);
}

#[test]
fn commands_of_each_operation() {
    match &add_key("id", "p")[..] {
        [StoreCommand::SetValue { key, value }, StoreCommand::AddMember { member }] => {
            assert_eq!((key.as_str(), value.as_str(), member.as_str()), ("id", "p", "id"));
        }
        other => panic!("unexpected {:?}", other),
    }
    match &delete_key("id")[..] {
        [StoreCommand::DeleteValue { key }, StoreCommand::RemoveMember { member }] => {
            assert_eq!((key.as_str(), member.as_str()), ("id", "id"));
        }
        other => panic!("unexpected {:?}", other),
    }
    let op = Operation::Remove { id: "q".to_string() };
    assert!(matches!(&commands_for(&op)[0], StoreCommand::DeleteValue { key } if key == "q"));
}

#[test]
fn listing_skips_missing_and_corrupt_records() {
    let fetched = vec![
        Some(r#"{"a":1}"#.to_string()),
        None,
        Some("{broken".to_string()),
        Some(r#"[2]"#.to_string()),
    ];
    let r = get_all_features(&fetched);
    assert_eq!(r.len(), 2);
    assert_eq!(r[0].to_string(), r#"{"a":1}"#);
    assert_eq!(r[1].to_string(), "[2]");
    assert!(get_all_features(&vec![]).is_empty());
}
