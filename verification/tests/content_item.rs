use clockwork_orange::content_item::ContentItem;
use time::OffsetDateTime;

#[test]
fn new_item_is_unread() {
    let item = ContentItem::new("alice", "https://example.com");
    assert_eq!(item.author(), "alice");
    assert_eq!(item.content(), "https://example.com");
    assert!(!item.is_read());
    assert_eq!(item.read_at(), None);
}

#[test]
fn set_read_keeps_the_time() {
    let at = OffsetDateTime::from_unix_timestamp(1_546_300_800).unwrap();
    let mut item = ContentItem::new("alice", "x");
    item.set_read(at);
    assert!(item.is_read());
    assert_eq!(item.read_at(), Some(at));
    assert_eq!(item.author(), "alice");
    assert_eq!(item.content(), "x");
}

#[test]
fn set_read_twice_keeps_the_later_time() {
    let first = OffsetDateTime::from_unix_timestamp(1).unwrap();
    let second = OffsetDateTime::from_unix_timestamp(2).unwrap();
    let mut item = ContentItem::new("alice", "x");
    item.set_read(first);
    item.set_read(second);
    assert_eq!(item.read_at(), Some(second));
}

#[test]
fn set_unread_clears_the_time() {
    let mut item = ContentItem::new("alice", "x");
    item.set_read(OffsetDateTime::UNIX_EPOCH);
    item.set_unread();
    assert!(!item.is_read());
    assert_eq!(item, ContentItem::new("alice", "x"));
}

#[test]
fn set_content_changes_the_content_only() {
    let mut item = ContentItem::new("alice", "old");
    item.set_read(OffsetDateTime::UNIX_EPOCH);
    item.set_content("new");
    assert_eq!(item.content(), "new");
    assert_eq!(item.author(), "alice");
    assert_eq!(item.read_at(), Some(OffsetDateTime::UNIX_EPOCH));
}

#[test]
fn clone_is_equal() {
    let mut item = ContentItem::new("alice", "x");
    assert_eq!(item.clone(), item);
    item.set_read(OffsetDateTime::UNIX_EPOCH);
    assert_eq!(item.clone(), item);
    assert_ne!(item, ContentItem::new("alice", "x"));
}

#[test]
fn message_text_names_the_author() {
    let item = ContentItem::new("alice", "https://example.com/alice");
    assert_eq!(
        item.to_message_text(),
        "suggested by @alice:\n\nhttps://example\\.com/alice"
    );
}

#[test]
fn message_text_escapes_the_author() {
    let item = ContentItem::new("anna_kha", "watch this!");
    assert_eq!(item.to_message_text(), "suggested by @anna\\_kha:\n\nwatch this\\!");
}
