//! A map from keys to items, held as a list of pairs with distinct keys.

use crate::content_item::{ContentItem, ItemView};
use crate::storage::Key;
use crate::text::str_eq;
use vstd::prelude::*;

verus! {

/// Keys with their items, in the order in which they are held.
pub type Pairs = Seq<(Seq<char>, ItemView)>;

/// What a store holds: the item under each key.
pub type Contents = Map<Seq<char>, ItemView>;

/// Pair `i` of `pairs` has the key `key`.
pub open spec fn holds_at(pairs: Pairs, key: Seq<char>, i: int) -> bool {
    0 <= i < pairs.len() && pairs[i].0 == key
}

/// No key stands in two pairs.
pub open spec fn distinct_keys(pairs: Pairs) -> bool {
    forall|i: int, j: int|
        #![trigger pairs[i], pairs[j]]
        0 <= i < j < pairs.len() ==> pairs[i].0 != pairs[j].0
}

/// The map that a list of pairs stands for.
pub open spec fn map_of(pairs: Pairs) -> Contents {
    Map::new(
        |key: Seq<char>| exists|i: int| holds_at(pairs, key, i),
        |key: Seq<char>| pairs[choose|i: int| holds_at(pairs, key, i)].1,
    )
}

/// The items of `m` that are not read.
pub open spec fn unread(m: Contents) -> Contents {
    Map::new(|key: Seq<char>| m.contains_key(key) && !m[key].is_read(), |key: Seq<char>| m[key])
}

/// The items of `m` whose author is `user`.
pub open spec fn by_author(m: Contents, user: Seq<char>) -> Contents {
    Map::new(|key: Seq<char>| m.contains_key(key) && m[key].author == user, |key: Seq<char>| m[key])
}

/// Each pair of a list with distinct keys is an entry of its map.
pub proof fn lemma_map_of_pair(pairs: Pairs, i: int)
    requires
        distinct_keys(pairs),
        0 <= i < pairs.len(),
    ensures
        map_of(pairs).contains_key(pairs[i].0),
        map_of(pairs)[pairs[i].0] == pairs[i].1,
{
    assert(holds_at(pairs, pairs[i].0, i));
    let j = choose|j: int| holds_at(pairs, pairs[i].0, j);
    if j < i {
        assert(pairs[j].0 != pairs[i].0);
    } else if i < j {
        assert(pairs[i].0 != pairs[j].0);
    }
}

/// A list without pairs stands for the empty map, and no other list does.
pub proof fn lemma_map_of_empty(pairs: Pairs)
    ensures
        pairs.len() == 0 <==> map_of(pairs) == Map::<Seq<char>, ItemView>::empty(),
{
    if pairs.len() == 0 {
        assert(map_of(pairs) =~= Map::<Seq<char>, ItemView>::empty());
    } else {
        assert(holds_at(pairs, pairs[0].0, 0));
        assert(map_of(pairs).contains_key(pairs[0].0));
    }
}

/// Adding a pair with a new key inserts it into the map.
pub proof fn lemma_map_of_push(pairs: Pairs, key: Seq<char>, item: ItemView)
    requires
        distinct_keys(pairs),
        !map_of(pairs).contains_key(key),
    ensures
        distinct_keys(pairs.push((key, item))),
        map_of(pairs.push((key, item))) == map_of(pairs).insert(key, item),
{
    let longer = pairs.push((key, item));
    assert forall|i: int, j: int| 0 <= i < j < longer.len() implies (#[trigger] longer[i]).0 != (
    #[trigger] longer[j]).0 by {
        if j == pairs.len() {
            assert(!holds_at(pairs, key, i));
        } else {
            assert(pairs[i].0 != pairs[j].0);
        }
    }
    assert forall|k: Seq<char>| #[trigger]
        map_of(longer).contains_key(k) == map_of(pairs).insert(key, item).contains_key(k) by {
        if map_of(longer).contains_key(k) {
            let i = choose|i: int| holds_at(longer, k, i);
            if i < pairs.len() {
                assert(holds_at(pairs, k, i));
            }
        }
        if map_of(pairs).insert(key, item).contains_key(k) {
            if k == key {
                assert(holds_at(longer, k, pairs.len() as int));
            } else {
                let i = choose|i: int| holds_at(pairs, k, i);
                assert(holds_at(longer, k, i));
            }
        }
    }
    assert forall|k: Seq<char>| #[trigger] map_of(longer).contains_key(k) implies map_of(longer)[k]
        == map_of(pairs).insert(key, item)[k] by {
        let i = choose|i: int| holds_at(longer, k, i);
        lemma_map_of_pair(longer, i);
        if i < pairs.len() {
            lemma_map_of_pair(pairs, i);
            assert(!holds_at(pairs, key, i));
        }
    }
    assert(map_of(longer) =~= map_of(pairs).insert(key, item));
}

/// Replacing the item of pair `i` replaces it in the map.
pub proof fn lemma_map_of_update(pairs: Pairs, i: int, item: ItemView)
    requires
        distinct_keys(pairs),
        0 <= i < pairs.len(),
    ensures
        distinct_keys(pairs.update(i, (pairs[i].0, item))),
        map_of(pairs.update(i, (pairs[i].0, item))) == map_of(pairs).insert(pairs[i].0, item),
{
    let key = pairs[i].0;
    let changed = pairs.update(i, (key, item));
    assert forall|a: int, b: int| 0 <= a < b < changed.len() implies (#[trigger] changed[a]).0 != (
    #[trigger] changed[b]).0 by {
        assert(pairs[a].0 != pairs[b].0);
    }
    assert forall|k: Seq<char>| #[trigger]
        map_of(changed).contains_key(k) == map_of(pairs).insert(key, item).contains_key(k) by {
        if map_of(changed).contains_key(k) {
            let j = choose|j: int| holds_at(changed, k, j);
            assert(holds_at(pairs, k, j));
        }
        if map_of(pairs).insert(key, item).contains_key(k) {
            if k == key {
                assert(holds_at(changed, k, i));
            } else {
                let j = choose|j: int| holds_at(pairs, k, j);
                assert(holds_at(changed, k, j));
            }
        }
    }
    assert forall|k: Seq<char>| #[trigger] map_of(changed).contains_key(k) implies map_of(changed)[k]
        == map_of(pairs).insert(key, item)[k] by {
        let j = choose|j: int| holds_at(changed, k, j);
        lemma_map_of_pair(changed, j);
        lemma_map_of_pair(pairs, j);
        if j != i {
            if j < i {
                assert(pairs[j].0 != pairs[i].0);
            } else {
                assert(pairs[i].0 != pairs[j].0);
            }
        }
    }
    assert(map_of(changed) =~= map_of(pairs).insert(key, item));
}

/// Taking pair `i` out of the list removes its key from the map.
pub proof fn lemma_map_of_remove(pairs: Pairs, i: int)
    requires
        distinct_keys(pairs),
        0 <= i < pairs.len(),
    ensures
        distinct_keys(pairs.remove(i)),
        map_of(pairs.remove(i)) == map_of(pairs).remove(pairs[i].0),
{
    let key = pairs[i].0;
    let shorter = pairs.remove(i);
    assert forall|a: int, b: int| 0 <= a < b < shorter.len() implies (#[trigger] shorter[a]).0 != (
    #[trigger] shorter[b]).0 by {
        let a0 = if a < i { a } else { a + 1 };
        let b0 = if b < i { b } else { b + 1 };
        assert(pairs[a0].0 != pairs[b0].0);
    }
    assert forall|k: Seq<char>| #[trigger]
        map_of(shorter).contains_key(k) == map_of(pairs).remove(key).contains_key(k) by {
        if map_of(shorter).contains_key(k) {
            let j = choose|j: int| holds_at(shorter, k, j);
            let j0 = if j < i { j } else { j + 1 };
            assert(holds_at(pairs, k, j0));
            if j0 < i {
                assert(pairs[j0].0 != pairs[i].0);
            } else {
                assert(pairs[i].0 != pairs[j0].0);
            }
        }
        if map_of(pairs).remove(key).contains_key(k) {
            let j = choose|j: int| holds_at(pairs, k, j);
            assert(j != i);
            let j1 = if j < i { j } else { j - 1 };
            assert(holds_at(shorter, k, j1));
        }
    }
    assert forall|k: Seq<char>| #[trigger] map_of(shorter).contains_key(k) implies map_of(shorter)[k]
        == map_of(pairs).remove(key)[k] by {
        let j = choose|j: int| holds_at(shorter, k, j);
        let j0 = if j < i { j } else { j + 1 };
        lemma_map_of_pair(shorter, j);
        lemma_map_of_pair(pairs, j0);
    }
    assert(map_of(shorter) =~= map_of(pairs).remove(key));
}

/// The first `n + 1` pairs stand for the map of the first `n` with pair `n`
/// inserted.
pub proof fn lemma_map_of_take(pairs: Pairs, n: int)
    requires
        distinct_keys(pairs),
        0 <= n < pairs.len(),
    ensures
        distinct_keys(pairs.take(n)),
        !map_of(pairs.take(n)).contains_key(pairs[n].0),
        map_of(pairs.take(n + 1)) == map_of(pairs.take(n)).insert(pairs[n].0, pairs[n].1),
{
    let before = pairs.take(n);
    assert forall|a: int, b: int| 0 <= a < b < before.len() implies (#[trigger] before[a]).0 != (
    #[trigger] before[b]).0 by {
        assert(pairs[a].0 != pairs[b].0);
    }
    if map_of(before).contains_key(pairs[n].0) {
        let j = choose|j: int| holds_at(before, pairs[n].0, j);
        assert(pairs[j].0 != pairs[n].0);
    }
    assert(pairs.take(n + 1) =~= before.push(pairs[n]));
    lemma_map_of_push(before, pairs[n].0, pairs[n].1);
}

/// Which items a selection keeps.
pub enum Wanted<'a> {
    /// The items that are not read.
    Unread,
    /// The items of one author.
    Author(&'a str),
}

impl<'a> Wanted<'a> {
    /// Whether the selection keeps `item`.
    pub open spec fn keeps(self, item: ItemView) -> bool {
        match self {
            Wanted::Unread => !item.is_read(),
            Wanted::Author(user) => item.author == user@,
        }
    }

    /// The entries of `m` that the selection keeps.
    pub open spec fn of(self, m: Contents) -> Contents {
        Map::new(
            |key: Seq<char>| m.contains_key(key) && self.keeps(m[key]),
            |key: Seq<char>| m[key],
        )
    }

    fn keeps_item(&self, item: &ContentItem) -> (r: bool)
        ensures
            r == self.keeps(item@),
    {
        match self {
            Wanted::Unread => !item.is_read(),
            Wanted::Author(user) => str_eq(item.author(), user),
        }
    }
}

/// A map from keys to items.
#[derive(Debug)]
pub struct ItemMap {
    entries: Vec<(Key, ContentItem)>,
}

impl View for ItemMap {
    type V = Contents;

    open spec fn view(&self) -> Contents {
        map_of(self.pairs())
    }
}

/// The values of the pairs of `entries`.
pub open spec fn pairs_of(entries: Seq<(Key, ContentItem)>) -> Pairs {
    Seq::new(entries.len(), |i: int| (entries[i].0@, entries[i].1@))
}

impl ItemMap {
    /// The entries in the order in which the map holds them.
    pub closed spec fn pairs(&self) -> Pairs {
        pairs_of(self.entries@)
    }

    /// No key is held twice.
    #[verifier::type_invariant]
    pub open spec fn well_formed(&self) -> bool {
        distinct_keys(self.pairs())
    }

    /// An empty map.
    pub fn new() -> (items: Self)
        ensures
            items.pairs() == Seq::<(Seq<char>, ItemView)>::empty(),
            items@ == Map::<Seq<char>, ItemView>::empty(),
    {
        let items = ItemMap { entries: Vec::new() };
        proof {
            assert(items.pairs() =~= Seq::<(Seq<char>, ItemView)>::empty());
            lemma_map_of_empty(items.pairs());
        }
        items
    }

    /// The number of entries.
    pub fn len(&self) -> (n: usize)
        ensures
            n == self.pairs().len(),
            distinct_keys(self.pairs()),
    {
        proof {
            use_type_invariant(self);
        }
        self.entries.len()
    }

    /// Whether the map holds nothing.
    pub fn is_empty(&self) -> (r: bool)
        ensures
            r == (self.pairs().len() == 0),
            r == (self@ == Map::<Seq<char>, ItemView>::empty()),
    {
        proof {
            lemma_map_of_empty(self.pairs());
        }
        self.entries.len() == 0
    }

    /// The key of entry `i`.
    pub fn key_at(&self, i: usize) -> (key: &Key)
        requires
            i < self.pairs().len(),
        ensures
            key@ == self.pairs()[i as int].0,
    {
        &self.entries[i].0
    }

    /// The item of entry `i`.
    pub fn item_at(&self, i: usize) -> (item: &ContentItem)
        requires
            i < self.pairs().len(),
        ensures
            item@ == self.pairs()[i as int].1,
            self@.contains_key(self.pairs()[i as int].0),
            self@[self.pairs()[i as int].0] == item@,
    {
        proof {
            use_type_invariant(self);
            lemma_map_of_pair(self.pairs(), i as int);
        }
        &self.entries[i].1
    }

    /// A copy of entry `i`.
    pub fn nth(&self, i: usize) -> (entry: (Key, ContentItem))
        requires
            i < self.pairs().len(),
        ensures
            (entry.0@, entry.1@) == self.pairs()[i as int],
            self@.contains_key(entry.0@),
            self@[entry.0@] == entry.1@,
    {
        proof {
            use_type_invariant(self);
            lemma_map_of_pair(self.pairs(), i as int);
        }
        (self.entries[i].0.clone(), self.entries[i].1.clone())
    }

    fn find(&self, key: &Key) -> (r: Option<usize>)
        ensures
            match r {
                Some(i) => holds_at(self.pairs(), key@, i as int),
                None => !self@.contains_key(key@),
            },
    {
        let mut i: usize = 0;
        while i < self.entries.len()
            invariant
                i <= self.entries.len(),
                forall|j: int| 0 <= j < i ==> !holds_at(self.pairs(), key@, j),
            decreases self.entries.len() - i,
        {
            if self.entries[i].0.same(key) {
                return Some(i);
            }
            i += 1;
        }
        None
    }

    /// Whether the map holds an item under `key`.
    pub fn contains_key(&self, key: &Key) -> (r: bool)
        ensures
            r == self@.contains_key(key@),
    {
        match self.find(key) {
            Some(_) => true,
            None => false,
        }
    }

    /// The item under `key`, if there is one.
    pub fn get(&self, key: &Key) -> (r: Option<&ContentItem>)
        ensures
            match r {
                Some(item) => self@.contains_key(key@) && self@[key@] == item@,
                None => !self@.contains_key(key@),
            },
    {
        match self.find(key) {
            Some(i) => {
                proof {
                    use_type_invariant(self);
                    lemma_map_of_pair(self.pairs(), i as int);
                }
                Some(&self.entries[i].1)
            },
            None => None,
        }
    }

    /// Puts `item` under `key`, in place of what was there.
    pub fn insert(&mut self, key: Key, item: ContentItem)
        ensures
            final(self)@ == old(self)@.insert(key@, item@),
    {
        proof {
            use_type_invariant(&*self);
        }
        let ghost before = self.pairs();
        let found = self.find(&key);
        let mut entries: Vec<(Key, ContentItem)> = Vec::new();
        std::mem::swap(&mut self.entries, &mut entries);
        match found {
            Some(i) => {
                proof {
                    lemma_map_of_update(before, i as int, item@);
                    assert(pairs_of(entries@.update(i as int, (key, item))) =~= before.update(
                        i as int,
                        (key@, item@),
                    ));
                }
                entries.set(i, (key, item));
            },
            None => {
                proof {
                    lemma_map_of_push(before, key@, item@);
                    assert(pairs_of(entries@.push((key, item))) =~= before.push(
                        (key@, item@),
                    ));
                }
                entries.push((key, item));
            },
        }
        self.entries = entries;
    }

    /// Takes out what is under `key`, if anything is.
    pub fn remove(&mut self, key: &Key)
        ensures
            final(self)@ == old(self)@.remove(key@),
    {
        proof {
            use_type_invariant(&*self);
        }
        let ghost before = self.pairs();
        match self.find(key) {
            Some(i) => {
                let mut entries: Vec<(Key, ContentItem)> = Vec::new();
                std::mem::swap(&mut self.entries, &mut entries);
                proof {
                    lemma_map_of_remove(before, i as int);
                    assert(pairs_of(entries@.remove(i as int)) =~= before.remove(i as int));
                }
                entries.remove(i);
                self.entries = entries;
            },
            None => {
                assert(self@.remove(key@) =~= self@);
            },
        }
    }

    /// A map of the entries that `wanted` keeps.
    pub fn select(&self, wanted: &Wanted) -> (kept: ItemMap)
        ensures
            kept@ == wanted.of(self@),
    {
        proof {
            use_type_invariant(self);
        }
        let ghost all = self.pairs();
        let mut entries: Vec<(Key, ContentItem)> = Vec::new();
        let mut i: usize = 0;
        proof {
            assert(all.take(0) =~= Seq::<(Seq<char>, ItemView)>::empty());
            lemma_map_of_empty(all.take(0));
            lemma_map_of_empty(pairs_of(entries@));
            assert(map_of(pairs_of(entries@)) =~= wanted.of(map_of(all.take(0))));
        }
        while i < self.entries.len()
            invariant
                all == self.pairs(),
                distinct_keys(all),
                i <= self.entries.len(),
                distinct_keys(pairs_of(entries@)),
                map_of(pairs_of(entries@)) == wanted.of(map_of(all.take(i as int))),
            decreases self.entries.len() - i,
        {
            let ghost seen = map_of(all.take(i as int));
            let ghost held = pairs_of(entries@);
            proof {
                lemma_map_of_take(all, i as int);
            }
            if wanted.keeps_item(&self.entries[i].1) {
                let key = self.entries[i].0.clone();
                let item = self.entries[i].1.clone();
                proof {
                    lemma_map_of_push(held, key@, item@);
                    assert(pairs_of(entries@.push((key, item))) =~= held.push((key@, item@)));
                    assert(map_of(held).insert(key@, item@) =~= wanted.of(
                        seen.insert(all[i as int].0, all[i as int].1),
                    ));
                }
                entries.push((key, item));
            } else {
                proof {
                    assert(map_of(held) =~= wanted.of(
                        seen.insert(all[i as int].0, all[i as int].1),
                    ));
                }
            }
            i += 1;
        }
        proof {
            assert(all.take(all.len() as int) =~= all);
        }
        ItemMap { entries }
    }

    /// Keeps the items of `user` and drops the others.
    pub fn retain_author(&mut self, user: &str)
        ensures
            final(self)@ == by_author(old(self)@, user@),
    {
        let kept = self.select(&Wanted::Author(user));
        proof {
            use_type_invariant(&kept);
            assert(Wanted::Author(user).of(self@) =~= by_author(self@, user@));
        }
        self.entries = kept.entries;
    }
}

impl Clone for ItemMap {
    fn clone(&self) -> (res: Self)
        ensures
            res.pairs() == self.pairs(),
            res@ == self@,
    {
        proof {
            use_type_invariant(self);
        }
        let mut entries: Vec<(Key, ContentItem)> = Vec::new();
        let mut i: usize = 0;
        while i < self.entries.len()
            invariant
                i <= self.entries.len(),
                entries.len() == i,
                pairs_of(entries@) == self.pairs().take(i as int),
            decreases self.entries.len() - i,
        {
            let key = self.entries[i].0.clone();
            let item = self.entries[i].1.clone();
            proof {
                let held = pairs_of(entries@);
                let longer = pairs_of(entries@.push((key, item)));
                assert forall|j: int| 0 <= j < longer.len() implies longer[j] == self.pairs().take(
                    i + 1,
                )[j] by {
                    if j < i {
                        assert(longer[j] == held[j]);
                        assert(held[j] == self.pairs().take(i as int)[j]);
                    }
                }
                assert(longer =~= self.pairs().take(i + 1));
            }
            entries.push((key, item));
            i += 1;
        }
        proof {
            assert(self.pairs().take(self.pairs().len() as int) =~= self.pairs());
        }
        ItemMap { entries }
    }
}

} // verus!
