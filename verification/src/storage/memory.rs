//! Memory-based storage.
//!
//! It lives as long as the process does, and serves for testing.

use crate::content_item::{ContentItem, ItemView};
use crate::storage::items::{Contents, ItemMap, Wanted};
use crate::storage::{Key, Storage, StorageBackend, StorageError};
use time::OffsetDateTime;
use vstd::prelude::*;

verus! {

/// Calls `time::OffsetDateTime::now_utc`, the current date and time in UTC.
#[verifier::external_body]
fn now_utc() -> (now: OffsetDateTime) {
    OffsetDateTime::now_utc()
}

/// A store that keeps its items in memory.
#[derive(Debug)]
pub struct MemoryStorage {
    items: ItemMap,
}

impl MemoryStorage {
    /// An empty store.
    pub fn new() -> (storage: Self)
        ensures
            storage.contents() == Map::<Seq<char>, ItemView>::empty(),
    {
        MemoryStorage { items: ItemMap::new() }
    }

    /// All that the store holds, read items too.
    pub fn items(&self) -> (items: &ItemMap)
        ensures
            items@ == self.contents(),
    {
        &self.items
    }

    pub fn into_storage(self) -> (storage: Storage<Self>)
        ensures
            storage.inner() == self,
    {
        Storage::new(self)
    }
}

impl Default for MemoryStorage {
    fn default() -> (storage: Self)
        ensures
            storage.contents() == Map::<Seq<char>, ItemView>::empty(),
    {
        MemoryStorage::new()
    }
}

impl StorageBackend for MemoryStorage {
    closed spec fn contents(&self) -> Contents {
        self.items@
    }

    open spec fn reliable(&self) -> bool {
        true
    }

    fn get(&self, key: &Key) -> (r: Result<Option<ContentItem>, StorageError>) {
        match self.items.get(key) {
            Some(item) => Ok(Some(item.clone())),
            None => Ok(None),
        }
    }

    fn set(&mut self, key: &Key, value: ContentItem) -> (r: Result<(), StorageError>) {
        self.items.insert(key.clone(), value);
        Ok(())
    }

    fn get_all(&self) -> (r: Result<ItemMap, StorageError>) {
        Ok(self.items.select(&Wanted::Unread))
    }

    fn get_now(&self) -> (r: Result<OffsetDateTime, StorageError>) {
        Ok(now_utc())
    }

    fn delete(&mut self, key: &Key) -> (r: Result<(), StorageError>) {
        self.items.remove(key);
        Ok(())
    }

    fn health_check(&self) -> (r: Result<(), StorageError>) {
        Ok(())
    }
}

} // verus!
