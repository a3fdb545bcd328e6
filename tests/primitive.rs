use tgbot::error::DeserializationError;
use tgbot::primitive::{False, MessageId, True};

#[test]
fn serialize_true() {
    let t = True::from_bool(true).unwrap();
    assert!(t.to_bool());
}

#[test]
fn serialize_false() {
    let f = False::from_bool(false).unwrap();
    assert!(!f.to_bool());
}

#[test]
fn deserialize_true() {
    assert!(True::from_bool(true).is_ok());
}

#[test]
fn deserialize_true_unexpected() {
    assert_eq!(
        True::from_bool(false).unwrap_err(),
        DeserializationError::UnexpectedBool { actual: false, expected: true }
    );
}

#[test]
fn deserialize_false() {
    assert!(False::from_bool(false).is_ok());
}

#[test]
fn deserialize_false_unexpected() {
    assert_eq!(
        False::from_bool(true).unwrap_err(),
        DeserializationError::UnexpectedBool { actual: true, expected: false }
    );
}

#[test]
fn message_id_holds_its_value() {
    let id = MessageId { message_id: -42 };
    let copy = id;
    assert_eq!(copy.message_id, -42);
    assert_eq!(copy, id);
}
