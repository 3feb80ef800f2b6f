use clockwork_orange::content_item::ContentItem;
use clockwork_orange::storage::items::{ItemMap, Wanted};
use clockwork_orange::storage::memory::MemoryStorage;
use clockwork_orange::storage::{Key, StorageBackend, StorageError};

fn map_of(pairs: Vec<(Key, ContentItem)>) -> ItemMap {
    let mut map = ItemMap::new();
    for (key, item) in pairs {
        map.insert(key, item);
    }
    map
}

fn same(a: &ItemMap, b: &ItemMap) -> bool {
    a.len() == b.len() && (0..a.len()).all(|i| b.get(a.key_at(i)) == Some(a.item_at(i)))
}

/// Test basic set/get functionality
#[test]
fn test_simple() {
    let mut storage = MemoryStorage::new();
    let key = Key::from("test".to_string());
    let item = ContentItem::new("test", "https://example.com");

    storage.set(&key, item.clone()).unwrap();

    assert_eq!(storage.get(&key).unwrap(), Some(item));
}

/// Test that `get_all` returns only unread items
#[test]
fn test_get_all() {
    let mut storage = MemoryStorage::new();
    let key = Key::from("test".to_string());
    let item = ContentItem::new("test", "https://example.com");

    storage.set(&key, item).unwrap();

    assert!(!storage.get_all().unwrap().is_empty());

    storage.mark_as_read(&key).unwrap();

    assert!(storage.get_all().unwrap().is_empty());
}

/// Test that `get_user_items` returns only unread items, created by the specific user
#[test]
fn test_get_user_items() {
    let mut storage = MemoryStorage::new();
    let alice_key = Key::from("alice_data".to_string());
    let alice_item = ContentItem::new("alice", "https://example.com/alice");
    storage.set(&alice_key, alice_item.clone()).unwrap();

    let bob_key = Key::from("bob_data".to_string());
    let bob_item = ContentItem::new("bob", "https://example.com/bob");
    storage.set(&bob_key, bob_item.clone()).unwrap();

    assert!(same(
        &storage.get_user_items("alice").unwrap(),
        &map_of(vec![(alice_key.clone(), alice_item.clone())])
    ));

    assert!(same(
        &storage.get_user_items("bob").unwrap(),
        &map_of(vec![(bob_key.clone(), bob_item.clone())])
    ));
}

fn key(text: &str) -> Key {
    Key::from(text.to_string())
}

/// A store with three unread items, two of alice and one of bob.
fn filled() -> MemoryStorage {
    let mut storage = MemoryStorage::new();
    storage.set(&key("1"), ContentItem::new("alice", "a1")).unwrap();
    storage.set(&key("2"), ContentItem::new("bob", "b1")).unwrap();
    storage.set(&key("3"), ContentItem::new("alice", "a2")).unwrap();
    storage
}

#[test]
fn a_new_store_is_empty() {
    let storage = MemoryStorage::new();
    assert!(storage.items().is_empty());
    assert!(storage.get_all().unwrap().is_empty());
    assert_eq!(storage.get(&key("1")).unwrap(), None);
}

#[test]
fn set_replaces_what_is_under_the_key() {
    let mut storage = filled();
    storage.set(&key("1"), ContentItem::new("carol", "c1")).unwrap();
    assert_eq!(storage.get(&key("1")).unwrap(), Some(ContentItem::new("carol", "c1")));
    assert_eq!(storage.items().len(), 3);
}

#[test]
fn set_leaves_other_keys_alone() {
    let mut storage = filled();
    storage.set(&key("4"), ContentItem::new("carol", "c1")).unwrap();
    assert_eq!(storage.get(&key("2")).unwrap(), Some(ContentItem::new("bob", "b1")));
    assert_eq!(storage.items().len(), 4);
}

#[test]
fn a_read_item_is_hidden_from_listings_but_kept() {
    let mut storage = filled();
    storage.mark_as_read(&key("1")).unwrap();

    assert!(!storage.get_all().unwrap().contains_key(&key("1")));
    assert!(!storage.get_user_items("alice").unwrap().contains_key(&key("1")));
    assert_eq!(storage.get_all().unwrap().len(), 2);

    let kept = storage.get(&key("1")).unwrap().unwrap();
    assert!(kept.is_read());
    assert_eq!(kept.author(), "alice");
    assert_eq!(kept.content(), "a1");
}

#[test]
fn mark_as_read_stamps_the_time_of_the_store() {
    let mut storage = filled();
    let before = storage.get_now().unwrap();
    storage.mark_as_read(&key("2")).unwrap();
    let after = storage.get_now().unwrap();
    let at = storage.get(&key("2")).unwrap().unwrap().read_at().unwrap();
    assert!(before <= at && at <= after);
}

#[test]
fn mark_as_read_of_a_missing_key_fails() {
    let mut storage = filled();
    assert_eq!(storage.mark_as_read(&key("9")), Err(StorageError::NotFound));
    assert_eq!(storage.get_all().unwrap().len(), 3);
    assert_eq!(storage.items().len(), 3);
}

#[test]
fn user_items_are_the_unread_items_of_the_user() {
    let mut storage = filled();
    storage.mark_as_read(&key("3")).unwrap();

    let alice = storage.get_user_items("alice").unwrap();
    assert!(same(&alice, &map_of(vec![(key("1"), ContentItem::new("alice", "a1"))])));
    let bob = storage.get_user_items("bob").unwrap();
    assert!(same(&bob, &map_of(vec![(key("2"), ContentItem::new("bob", "b1"))])));
    assert!(storage.get_user_items("carol").unwrap().is_empty());
    assert!(storage.get_user_items("Alice").unwrap().is_empty());
}

#[test]
fn random_of_an_empty_store_is_none() {
    let storage = MemoryStorage::new();
    assert_eq!(storage.get_random().unwrap(), None);
}

#[test]
fn random_of_read_items_only_is_none() {
    let mut storage = MemoryStorage::new();
    storage.set(&key("1"), ContentItem::new("alice", "a1")).unwrap();
    storage.mark_as_read(&key("1")).unwrap();
    assert_eq!(storage.get_random().unwrap(), None);
}

#[test]
fn random_is_an_unread_item_of_the_store() {
    let mut storage = filled();
    storage.mark_as_read(&key("2")).unwrap();
    for _ in 0..50 {
        let (picked, item) = storage.get_random().unwrap().unwrap();
        assert!(picked == key("1") || picked == key("3"));
        assert!(!item.is_read());
        assert_eq!(storage.get(&picked).unwrap(), Some(item));
    }
}

#[test]
fn random_of_one_item_is_that_item() {
    let mut storage = MemoryStorage::new();
    storage.set(&key("1"), ContentItem::new("alice", "a1")).unwrap();
    assert_eq!(
        storage.get_random().unwrap(),
        Some((key("1"), ContentItem::new("alice", "a1")))
    );
}

#[test]
fn random_reaches_every_unread_item() {
    let storage = filled();
    let mut seen = [false; 3];
    for _ in 0..400 {
        let (picked, _) = storage.get_random().unwrap().unwrap();
        for (i, name) in ["1", "2", "3"].iter().enumerate() {
            if picked == key(name) {
                seen[i] = true;
            }
        }
    }
    assert_eq!(seen, [true, true, true]);
}

#[test]
fn delete_takes_the_item_out() {
    let mut storage = filled();
    storage.delete(&key("2")).unwrap();
    assert_eq!(storage.get(&key("2")).unwrap(), None);
    assert_eq!(storage.items().len(), 2);
    storage.delete(&key("2")).unwrap();
    assert_eq!(storage.items().len(), 2);
}

#[test]
fn the_memory_store_is_always_well() {
    assert_eq!(MemoryStorage::new().health_check(), Ok(()));
}

#[test]
fn into_storage_wraps_the_backend() {
    let mut storage = filled().into_storage();
    assert_eq!(storage.backend().items().len(), 3);
    storage.backend_mut().delete(&key("1")).unwrap();
    assert_eq!(storage.backend().items().len(), 2);
    assert_eq!(storage.get(&key("2")).unwrap(), Some(ContentItem::new("bob", "b1")));
    let backend = storage.into_inner();
    assert_eq!(backend.items().len(), 2);
}

#[test]
fn key_holds_its_text() {
    let k = Key::from("alice_data".to_string());
    let text: &str = k.as_ref();
    assert_eq!(text, "alice_data");
    assert_eq!(k.clone(), k);
    assert!(k.same(&key("alice_data")));
    assert!(!k.same(&key("alice_dat")));
}

#[test]
fn item_map_insert_get_remove() {
    let mut map = ItemMap::new();
    assert!(map.is_empty());
    map.insert(key("a"), ContentItem::new("alice", "1"));
    map.insert(key("b"), ContentItem::new("bob", "2"));
    map.insert(key("a"), ContentItem::new("alice", "3"));
    assert_eq!(map.len(), 2);
    assert_eq!(map.get(&key("a")), Some(&ContentItem::new("alice", "3")));
    assert_eq!(map.get(&key("c")), None);
    assert!(map.contains_key(&key("b")));
    map.remove(&key("a"));
    assert_eq!(map.len(), 1);
    assert!(!map.contains_key(&key("a")));
    map.remove(&key("a"));
    assert_eq!(map.len(), 1);
    assert_eq!(map.nth(0), (key("b"), ContentItem::new("bob", "2")));
}

#[test]
fn item_map_select_and_retain() {
    let mut read = ContentItem::new("alice", "2");
    read.set_read(time::OffsetDateTime::UNIX_EPOCH);
    let mut map = map_of(vec![
        (key("a"), ContentItem::new("alice", "1")),
        (key("b"), read.clone()),
        (key("c"), ContentItem::new("bob", "3")),
    ]);
    let unread = map.select(&Wanted::Unread);
    assert!(same(
        &unread,
        &map_of(vec![
            (key("a"), ContentItem::new("alice", "1")),
            (key("c"), ContentItem::new("bob", "3")),
        ])
    ));
    let of_alice = map.select(&Wanted::Author("alice"));
    assert!(same(
        &of_alice,
        &map_of(vec![(key("a"), ContentItem::new("alice", "1")), (key("b"), read.clone())])
    ));
    map.retain_author("bob");
    assert!(same(&map, &map_of(vec![(key("c"), ContentItem::new("bob", "3"))])));
    assert!(same(&map.clone(), &map));
}

#[test]
fn error_messages() {
    assert_eq!(StorageError::NotFound.message(), "Item not found");
    assert_eq!(
        StorageError::ListedKeyVanished.message(),
        "failed to get item from Redis by key that Redis provided. Most likely we've encountered a race here"
    );
    assert_eq!(
        StorageError::RandomKeyVanished("a\"b".to_string()).message(),
        "key \"a\\\"b\" got from RANDOMKEY doesn't exist! Most likely we've encountered a race here"
    );
    assert_eq!(StorageError::TimeOutOfRange.message(), "timestamp is out of range");
    assert_eq!(StorageError::Backend("connection refused".to_string()).message(), "connection refused");
}

/// A store that is down: every operation of its own fails.
struct Down;

fn down() -> StorageError {
    StorageError::Backend("down".to_string())
}

impl StorageBackend for Down {
    fn set(&mut self, _key: &Key, _value: ContentItem) -> Result<(), StorageError> {
        Err(down())
    }

    fn get(&self, _key: &Key) -> Result<Option<ContentItem>, StorageError> {
        Err(down())
    }

    fn get_all(&self) -> Result<ItemMap, StorageError> {
        Err(down())
    }

    fn get_now(&self) -> Result<time::OffsetDateTime, StorageError> {
        Err(down())
    }

    fn delete(&mut self, _key: &Key) -> Result<(), StorageError> {
        Err(down())
    }

    fn health_check(&self) -> Result<(), StorageError> {
        Err(down())
    }
}

#[test]
fn a_store_that_is_down_fails_every_listing() {
    let mut storage = Down;
    assert_eq!(storage.get_user_items("alice").err(), Some(down()));
    assert_eq!(storage.get_random(), Err(down()));
    assert_eq!(storage.mark_as_read(&key("1")), Err(down()));
}

/// A store that holds its items but cannot tell the time.
struct NoClock(MemoryStorage);

impl StorageBackend for NoClock {
    fn set(&mut self, key: &Key, value: ContentItem) -> Result<(), StorageError> {
        self.0.set(key, value)
    }

    fn get(&self, key: &Key) -> Result<Option<ContentItem>, StorageError> {
        self.0.get(key)
    }

    fn get_all(&self) -> Result<ItemMap, StorageError> {
        self.0.get_all()
    }

    fn get_now(&self) -> Result<time::OffsetDateTime, StorageError> {
        Err(StorageError::TimeOutOfRange)
    }

    fn delete(&mut self, key: &Key) -> Result<(), StorageError> {
        self.0.delete(key)
    }

    fn health_check(&self) -> Result<(), StorageError> {
        self.0.health_check()
    }
}

#[test]
fn without_a_time_nothing_is_marked() {
    let mut storage = NoClock(filled());
    assert_eq!(storage.mark_as_read(&key("1")), Err(StorageError::TimeOutOfRange));
    assert_eq!(storage.get(&key("1")).unwrap(), Some(ContentItem::new("alice", "a1")));
    assert_eq!(storage.mark_as_read(&key("9")), Err(StorageError::NotFound));
}
