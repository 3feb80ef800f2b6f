use clockwork_orange::bot::callbacks::{Callback, PAYLOAD_LIMIT};
use clockwork_orange::bot::handlers::message_key;
use clockwork_orange::storage::Key;

fn key(text: &str) -> Key {
    Key::from(text.to_string())
}

fn marked(callback: Option<Callback>) -> Option<Key> {
    match callback {
        Some(Callback::MarkAsRead(key)) => Some(key),
        None => None,
    }
}

#[test]
fn payload_is_kind_colon_key() {
    assert_eq!(Callback::mark_as_read(&key("42")).to_payload(), "mark-as-read:42");
    assert_eq!(Callback::mark_as_read(&key("")).to_payload(), "mark-as-read:");
}

#[test]
fn kind_of_mark_as_read() {
    assert_eq!(Callback::mark_as_read(&key("1")).kind_as_str(), "mark-as-read");
}

#[test]
fn payload_round_trips() {
    for text in ["42", "", "a:b", ":", "mark-as-read:7", "ключ", "with space", "-17"] {
        let payload = Callback::mark_as_read(&key(text)).to_payload();
        assert_eq!(marked(Callback::from_payload(&payload)), Some(key(text)));
    }
}

#[test]
fn from_payload_reads_the_key_after_the_first_colon() {
    assert_eq!(marked(Callback::from_payload("mark-as-read:1:2")), Some(key("1:2")));
}

#[test]
fn from_payload_refuses_other_kinds() {
    assert!(Callback::from_payload("delete:42").is_none());
    assert!(Callback::from_payload("Mark-As-Read:42").is_none());
    assert!(Callback::from_payload(":42").is_none());
    assert!(Callback::from_payload("mark-as-read 42:1").is_none());
}

#[test]
fn from_payload_needs_a_colon() {
    assert!(Callback::from_payload("").is_none());
    assert!(Callback::from_payload("mark-as-read").is_none());
    assert!(Callback::from_payload("42").is_none());
}

#[test]
fn clone_keeps_the_key() {
    let callback = Callback::mark_as_read(&key("9"));
    assert_eq!(callback.clone().to_payload(), callback.to_payload());
}

#[test]
fn payload_of_a_message_key_fits_the_limit() {
    assert_eq!(PAYLOAD_LIMIT, 64);
    for id in [0, 1, -1, 123456, i32::MAX, i32::MIN] {
        let payload = Callback::mark_as_read(&message_key(id)).to_payload();
        assert!(payload.len() <= PAYLOAD_LIMIT);
    }
    assert_eq!(
        Callback::mark_as_read(&message_key(i32::MIN)).to_payload(),
        "mark-as-read:-2147483648"
    );
}
