use bson::{Bson, Document};
use oplog::entry::{code_from_marker, RawLogEntry};
use oplog::operation::{decode, kind_from_code, DecodeError, Field, OpKind, Operation};

fn user_doc() -> Document {
    let mut d = Document::new();
    d.insert("id", Bson::I32(1));
    d.insert("name", Bson::String("a".to_string()));
    d
}

fn id_doc() -> Document {
    let mut d = Document::new();
    d.insert("id", Bson::I32(1));
    d
}

fn entry(
    kind: Option<&str>,
    namespace: Option<&str>,
    payload: Option<Document>,
    secondary: Option<Document>,
) -> RawLogEntry {
    RawLogEntry {
        kind: kind.map(|k| k.to_string()),
        namespace: namespace.map(|n| n.to_string()),
        payload,
        secondary,
        timestamp: Some(42),
    }
}

#[test]
fn decode_insert_scenario() {
    let r = decode(entry(Some("insert"), Some("db.users"), Some(user_doc()), None));
    assert_eq!(
        r,
        Ok(Operation::Insert {
            namespace: "db.users".to_string(),
            document: user_doc(),
            timestamp: Some(42),
        })
    );
}

#[test]
fn decode_delete_scenario() {
    let r = decode(entry(Some("delete"), Some("db.users"), None, Some(id_doc())));
    assert_eq!(
        r,
        Ok(Operation::Delete {
            namespace: "db.users".to_string(),
            selector: id_doc(),
            timestamp: Some(42),
        })
    );
}

#[test]
fn decode_update_missing_fields_scenario() {
    let r = decode(entry(Some("update"), Some("db.users"), None, None));
    assert!(matches!(r, Err(DecodeError::MissingField(_))));
    assert_eq!(r, Err(DecodeError::MissingField(Field::Payload)));
}

#[test]
fn decode_noop_scenario() {
    let mut msg = Document::new();
    msg.insert("msg", Bson::String("heartbeat".to_string()));
    let r = decode(entry(Some("noop"), None, Some(msg.clone()), None));
    assert_eq!(r, Ok(Operation::Noop { message: msg, timestamp: Some(42) }));
}

#[test]
fn decode_update_with_selector() {
    let r = decode(entry(Some("update"), Some("db.users"), Some(user_doc()), Some(id_doc())));
    assert_eq!(
        r,
        Ok(Operation::Update {
            namespace: "db.users".to_string(),
            update: user_doc(),
            selector: id_doc(),
            timestamp: Some(42),
        })
    );
}

#[test]
fn decode_update_missing_selector() {
    let r = decode(entry(Some("update"), Some("db.users"), Some(user_doc()), None));
    assert_eq!(r, Err(DecodeError::MissingField(Field::Secondary)));
}

#[test]
fn decode_command() {
    let mut cmd = Document::new();
    cmd.insert("create", Bson::String("users".to_string()));
    let r = decode(entry(Some("command"), Some("db.$cmd"), Some(cmd.clone()), None));
    let op = r.unwrap();
    assert_eq!(op.kind(), OpKind::Command);
    assert_eq!(
        op,
        Operation::Command { namespace: "db.$cmd".to_string(), command: cmd, timestamp: Some(42) }
    );
}

#[test]
fn decode_command_missing_payload() {
    let r = decode(entry(Some("command"), Some("db.$cmd"), None, None));
    assert_eq!(r, Err(DecodeError::MissingField(Field::Payload)));
}

#[test]
fn decode_insert_missing_namespace() {
    let r = decode(entry(Some("insert"), None, Some(user_doc()), None));
    assert_eq!(r, Err(DecodeError::MissingField(Field::Namespace)));
}

#[test]
fn decode_insert_missing_payload() {
    let r = decode(entry(Some("insert"), Some("db.users"), None, None));
    assert_eq!(r, Err(DecodeError::MissingField(Field::Payload)));
}

#[test]
fn decode_delete_missing_selector() {
    let r = decode(entry(Some("delete"), Some("db.users"), Some(user_doc()), None));
    assert_eq!(r, Err(DecodeError::MissingField(Field::Secondary)));
}

#[test]
fn decode_noop_missing_payload() {
    let r = decode(entry(Some("noop"), Some("db.users"), None, None));
    assert_eq!(r, Err(DecodeError::MissingField(Field::Payload)));
}

#[test]
fn decode_unknown_kind() {
    let r = decode(entry(Some("upsert"), Some("db.users"), Some(user_doc()), Some(id_doc())));
    assert_eq!(r, Err(DecodeError::UnrecognizedKind));
}

#[test]
fn decode_missing_kind() {
    let r = decode(entry(None, Some("db.users"), Some(user_doc()), Some(id_doc())));
    assert_eq!(r, Err(DecodeError::UnrecognizedKind));
}

#[test]
fn decode_unknown_kind_wins_over_missing_fields() {
    let r = decode(entry(Some("i"), None, None, None));
    assert_eq!(r, Err(DecodeError::UnrecognizedKind));
}

#[test]
fn decode_keeps_timestamp() {
    let mut e = entry(Some("insert"), Some("db.users"), Some(user_doc()), None);
    e.timestamp = Some(7);
    assert_eq!(decode(e).unwrap().timestamp(), Some(7));
    let mut e = entry(Some("noop"), None, Some(user_doc()), None);
    e.timestamp = None;
    assert_eq!(decode(e).unwrap().timestamp(), None);
}

#[test]
fn kind_codes() {
    assert_eq!(kind_from_code(&"insert".to_string()), Some(OpKind::Insert));
    assert_eq!(kind_from_code(&"update".to_string()), Some(OpKind::Update));
    assert_eq!(kind_from_code(&"delete".to_string()), Some(OpKind::Delete));
    assert_eq!(kind_from_code(&"command".to_string()), Some(OpKind::Command));
    assert_eq!(kind_from_code(&"noop".to_string()), Some(OpKind::Noop));
    assert_eq!(kind_from_code(&"Insert".to_string()), None);
    assert_eq!(kind_from_code(&"".to_string()), None);
    assert_eq!(kind_from_code(&"inserts".to_string()), None);
}

#[test]
fn server_markers_map_to_codes() {
    assert_eq!(code_from_marker("i"), "insert");
    assert_eq!(code_from_marker("u"), "update");
    assert_eq!(code_from_marker("d"), "delete");
    assert_eq!(code_from_marker("c"), "command");
    assert_eq!(code_from_marker("n"), "noop");
    assert_eq!(code_from_marker("insert"), "insert");
    assert_eq!(code_from_marker("x"), "x");
    let r = decode(entry(Some(&code_from_marker("d")), Some("db.users"), None, Some(id_doc())));
    assert_eq!(r.unwrap().kind(), OpKind::Delete);
}
