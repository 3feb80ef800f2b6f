//! The key-value store that holds the items: its keys, its errors, and the
//! contract that every backend meets.

use crate::content_item::{ContentItem, ItemView};
use crate::storage::items::{by_author, unread, Contents, ItemMap};
use rand::Rng;
use std::ops::Deref;
use time::OffsetDateTime;
use vstd::prelude::*;
use vstd::string::StringExecFns;

pub mod items;
pub mod memory;
pub mod redis;

verus! {

/// The name under which an item is stored.
#[derive(Debug, Hash, Eq, PartialEq)]
pub struct Key(String);

impl View for Key {
    type V = Seq<char>;

    closed spec fn view(&self) -> Seq<char> {
        self.0@
    }
}

impl Clone for Key {
    fn clone(&self) -> (res: Self)
        ensures
            res@ == self@,
    {
        Key(self.0.clone())
    }
}

impl From<String> for Key {
    fn from(val: String) -> (key: Key)
        ensures
            key@ == val@,
    {
        Key(val)
    }
}

impl vstd::std_specs::convert::FromSpecImpl<String> for Key {
    open spec fn obeys_from_spec() -> bool {
        true
    }

    closed spec fn from_spec(val: String) -> Key {
        Key(val)
    }
}

impl AsRef<str> for Key {
    fn as_ref(&self) -> (r: &str)
        ensures
            r@ == self@,
    {
        self.0.as_str()
    }
}

impl Key {
    /// Whether two keys name the same item.
    pub fn same(&self, other: &Key) -> (r: bool)
        ensures
            r == (self@ == other@),
    {
        self.0 == other.0
    }
}

/// Why an operation of the store failed.
#[derive(Debug, PartialEq, Eq)]
pub enum StorageError {
    /// The item that was to be marked as read is not in the store.
    NotFound,
    /// The backend listed a key and then held nothing under it.
    ListedKeyVanished,
    /// The backend picked a key at random and then held nothing under it.
    RandomKeyVanished(String),
    /// The backend told a time that no date can hold.
    TimeOutOfRange,
    /// The backend itself failed; the text says how.
    Backend(String),
}

/// The text that `{:?}` writes for a string.
pub uninterp spec fn debug_form(s: Seq<char>) -> Seq<char>;

/// Formats a string with `{:?}`, as std's `Debug` for `str` writes it: in
/// double quotes, with escapes. The contract gives the result a name.
#[verifier::external_body]
fn debug_quoted(s: &str) -> (r: String)
    ensures
        r@ == debug_form(s@),
{
    format!("{s:?}")
}

impl StorageError {
    /// The text of the error.
    pub open spec fn message_spec(self) -> Seq<char> {
        match self {
            StorageError::NotFound => "Item not found"@,
            StorageError::ListedKeyVanished =>
                "failed to get item from Redis by key that Redis provided. Most likely we've encountered a race here"@,
            StorageError::RandomKeyVanished(key) => "key "@ + debug_form(key@)
                + " got from RANDOMKEY doesn't exist! Most likely we've encountered a race here"@,
            StorageError::TimeOutOfRange => "timestamp is out of range"@,
            StorageError::Backend(text) => text@,
        }
    }

    /// The text of the error.
    pub fn message(&self) -> (text: String)
        ensures
            text@ == self.message_spec(),
    {
        match self {
            StorageError::NotFound => String::from_str("Item not found"),
            StorageError::ListedKeyVanished => String::from_str(
                "failed to get item from Redis by key that Redis provided. Most likely we've encountered a race here",
            ),
            StorageError::RandomKeyVanished(key) => {
                let mut text = String::from_str("key ");
                text.append(debug_quoted(key.as_str()).as_str());
                text.append(
                    " got from RANDOMKEY doesn't exist! Most likely we've encountered a race here",
                );
                text
            },
            StorageError::TimeOutOfRange => String::from_str("timestamp is out of range"),
            StorageError::Backend(text) => text.clone(),
        }
    }
}

/// The item under `key` in `m`, if there is one.
pub open spec fn lookup(m: Contents, key: Seq<char>) -> Option<ItemView> {
    if m.contains_key(key) {
        Some(m[key])
    } else {
        None
    }
}

/// The value of an item that may be missing.
pub open spec fn found_view(found: Option<ContentItem>) -> Option<ItemView> {
    match found {
        Some(item) => Some(item@),
        None => None,
    }
}

/// `m` after the item under `key` was read at `at`.
pub open spec fn after_mark(m: Contents, key: Seq<char>, at: OffsetDateTime) -> Contents {
    m.insert(key, m[key].read(at))
}

/// The item under `key` in `before` was marked as read at some time, and
/// `after` is what the store holds then.
pub open spec fn marked(before: Contents, after: Contents, key: Seq<char>) -> bool {
    before.contains_key(key) && exists|at: OffsetDateTime|
        after == #[trigger] after_mark(before, key, at)
}

/// Calls `rand::thread_rng().gen_range(0..len)`, which returns a value of
/// the range and panics on an empty one.
#[verifier::external_body]
fn random_index(len: usize) -> (index: usize)
    requires
        len > 0,
    ensures
        index < len,
{
    rand::thread_rng().gen_range(0..len)
}

/// Picks one entry of `items` at random; none where there is none.
pub fn pick_random(items: &ItemMap) -> (picked: Option<(Key, ContentItem)>)
    ensures
        picked is None <==> items@ == Map::<Seq<char>, ItemView>::empty(),
        picked matches Some(entry) ==> lookup(items@, entry.0@) == Some(entry.1@),
{
    if items.is_empty() {
        return None;
    }
    let index = random_index(items.len());
    Some(items.nth(index))
}

/// Basic storage trait, all methods, except `get` should return only unread items
pub trait StorageBackend: Sized {
    /// What the store holds.
    ///
    /// A backend has to define this for the contracts below to speak of
    /// it. One that does not is taken to hold one and the same map in every
    /// state, which no store that changes can meet: what is proved over
    /// this trait then says nothing of that backend.
    open spec fn contents(&self) -> Contents {
        arbitrary()
    }

    /// Whether the backend's own operations always succeed. It holds of a
    /// store in memory; a remote store can fail at any call, and a backend
    /// that does not say promises nothing.
    open spec fn reliable(&self) -> bool {
        false
    }

    /// Set item to storage
    fn set(&mut self, key: &Key, value: ContentItem) -> (r: Result<(), StorageError>)
        ensures
            final(self).reliable() == old(self).reliable(),
            old(self).reliable() ==> r is Ok,
            r is Ok ==> final(self).contents() == old(self).contents().insert(key@, value@),
            r is Err ==> final(self).contents() == old(self).contents() || final(self).contents()
                == old(self).contents().insert(key@, value@),
            r matches Err(e) ==> !(e is NotFound),
    ;

    /// Get specific item from storage
    ///
    /// # Caution
    /// May return read items
    fn get(&self, key: &Key) -> (r: Result<Option<ContentItem>, StorageError>)
        ensures
            self.reliable() ==> r is Ok,
            r matches Ok(found) ==> found_view(found) == lookup(self.contents(), key@),
            r matches Err(e) ==> !(e is NotFound),
    ;

    /// Get all items from storage, filtering unread ones
    fn get_all(&self) -> (r: Result<ItemMap, StorageError>)
        ensures
            self.reliable() ==> r is Ok,
            r matches Ok(items) ==> items@ == unread(self.contents()),
            r matches Err(e) ==> !(e is NotFound),
    ;

    /// Get items which this user has added
    fn get_user_items(&self, user: &str) -> (r: Result<ItemMap, StorageError>)
        ensures
            self.reliable() ==> r is Ok,
            r matches Ok(items) ==> items@ == by_author(unread(self.contents()), user@),
            r matches Err(e) ==> !(e is NotFound),
    {
        let mut map = match self.get_all() {
            Ok(map) => map,
            Err(e) => {
                return Err(e);
            },
        };
        map.retain_author(user);
        Ok(map)
    }

    /// Get current time: the store tells it, so that every reader of one
    /// store goes by one clock
    fn get_now(&self) -> (r: Result<OffsetDateTime, StorageError>)
        ensures
            self.reliable() ==> r is Ok,
            r matches Err(e) ==> !(e is NotFound),
    ;

    /// Delete item from storage
    fn delete(&mut self, key: &Key) -> (r: Result<(), StorageError>)
        ensures
            final(self).reliable() == old(self).reliable(),
            old(self).reliable() ==> r is Ok,
            r is Ok ==> final(self).contents() == old(self).contents().remove(key@),
            r is Err ==> final(self).contents() == old(self).contents() || final(self).contents()
                == old(self).contents().remove(key@),
            r matches Err(e) ==> !(e is NotFound),
    ;

    /// Mark item as "read": the user has seen it and wants it out of the
    /// queue. The item is fetched, stamped with the store's time and
    /// written back; a key that holds no item is an error. Where the
    /// backend fails, the store is left as it was, unless the failure came
    /// with the writing back, which may have taken place all the same.
    fn mark_as_read(&mut self, key: &Key) -> (r: Result<(), StorageError>)
        ensures
            final(self).reliable() == old(self).reliable(),
            old(self).reliable() ==> (r is Ok <==> old(self).contents().contains_key(key@)),
            old(self).reliable() && r is Err ==> r == Err::<(), StorageError>(StorageError::NotFound),
            r is Ok ==> marked(old(self).contents(), final(self).contents(), key@),
            r is Err ==> final(self).contents() == old(self).contents() || marked(
                old(self).contents(),
                final(self).contents(),
                key@,
            ),
            r matches Err(StorageError::NotFound) ==> !old(self).contents().contains_key(key@)
                && final(self).contents() == old(self).contents(),
    {
        let found = match self.get(key) {
            Ok(found) => found,
            Err(e) => {
                return Err(e);
            },
        };
        let mut item = match found {
            Some(item) => item,
            None => {
                return Err(StorageError::NotFound);
            },
        };
        let now = match self.get_now() {
            Ok(now) => now,
            Err(e) => {
                return Err(e);
            },
        };
        item.set_read(now);
        let ghost before = self.contents();
        let r = self.set(key, item);
        proof {
            if self.contents() == before.insert(key@, item@) {
                assert(self.contents() == after_mark(before, key@, now));
            }
        }
        r
    }

    /// Get random unread item from storage
    fn get_random(&self) -> (r: Result<Option<(Key, ContentItem)>, StorageError>)
        ensures
            self.reliable() ==> r is Ok,
            r matches Ok(Some(picked)) ==> lookup(unread(self.contents()), picked.0@) == Some(
                picked.1@,
            ),
            r matches Ok(picked) ==> (picked is None <==> unread(self.contents()) == Map::<
                Seq<char>,
                ItemView,
            >::empty()),
            r matches Err(e) ==> !(e is NotFound),
    {
        let items = match self.get_all() {
            Ok(items) => items,
            Err(e) => {
                return Err(e);
            },
        };
        Ok(pick_random(&items))
    }

    /// Check that storage is live and can be used
    fn health_check(&self) -> (r: Result<(), StorageError>)
        ensures
            self.reliable() ==> r is Ok,
            r matches Err(e) ==> !(e is NotFound),
    ;
}

/// A backend as the bot holds it.
#[derive(Debug)]
pub struct Storage<B: StorageBackend> {
    backend: B,
}

impl<B: StorageBackend> Storage<B> {
    /// The backend inside.
    pub closed spec fn inner(&self) -> B {
        self.backend
    }

    /// Wraps a backend.
    pub fn new(backend: B) -> (storage: Self)
        ensures
            storage.inner() == backend,
    {
        Storage { backend }
    }

    /// The backend, to read from.
    pub fn backend(&self) -> (backend: &B)
        ensures
            *backend == self.inner(),
    {
        &self.backend
    }

    /// The backend, to write to.
    pub fn backend_mut(&mut self) -> (backend: &mut B)
        ensures
            *backend == old(self).inner(),
            final(self).inner() == *final(backend),
    {
        &mut self.backend
    }

    /// Unwraps the backend.
    pub fn into_inner(self) -> (backend: B)
        ensures
            backend == self.inner(),
    {
        self.backend
    }
}

impl<B: StorageBackend> Deref for Storage<B> {
    type Target = B;

    fn deref(&self) -> (backend: &B)
        ensures
            *backend == self.inner(),
    {
        &self.backend
    }
}

/// Setting then getting a key returns the same item.
pub proof fn law_set_then_get(m: Contents, key: Seq<char>, item: ItemView)
    ensures
        lookup(m.insert(key, item), key) == Some(item),
{
}

/// After an item is marked as read, no listing shows it, neither the one
/// of all unread items nor that of any user, while a lookup by its key
/// still returns it, as read.
pub proof fn law_read_item_hidden_but_kept(m: Contents, key: Seq<char>, at: OffsetDateTime)
    requires
        m.contains_key(key),
    ensures
        !unread(after_mark(m, key, at)).contains_key(key),
        forall|user: Seq<char>| !(#[trigger] by_author(unread(after_mark(m, key, at)), user)).contains_key(key),
        lookup(after_mark(m, key, at), key) == Some(m[key].read(at)),
{
}

/// The items of a user are exactly the unread items whose author is that
/// user.
pub proof fn law_user_items(m: Contents, user: Seq<char>, key: Seq<char>)
    ensures
        by_author(unread(m), user).contains_key(key) <==> m.contains_key(key) && !m[key].is_read()
            && m[key].author == user,
        by_author(unread(m), user).contains_key(key) ==> by_author(unread(m), user)[key] == m[key],
{
}

} // verus!
