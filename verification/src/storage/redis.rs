//! The rules of the Redis backend.
//!
//! Talking to Redis is left to the caller. Here stands what the backend
//! decides between two calls: what a scan makes of the keys that Redis
//! listed, what a random pick does with what Redis handed out and when it
//! gives the drawing up for a scan, when a failed call is tried again, and
//! how the time that Redis tells becomes a date.

use crate::content_item::{ContentItem, ItemView};
use crate::storage::items::{unread, ItemMap};
use crate::storage::{found_view, Key, StorageError};
use time::error::ComponentRange;
use time::OffsetDateTime;
use vstd::prelude::*;

verus! {

/// `time::error::ComponentRange`, the error of a count of seconds that no
/// date can hold. Nothing is read of it.
#[verifier::external_type_specification]
#[verifier::external_body]
pub struct ExComponentRange(time::error::ComponentRange);

/// The date in UTC that `time` makes of a count of seconds since 1970.
pub uninterp spec fn date_of_unix(seconds: i64) -> OffsetDateTime;

/// The first second of the year -9999, the earliest that every date holds.
pub const FIRST_SECOND: i64 = -377_705_116_800;

/// The last second of the year 9999, the latest that every date holds.
pub const LAST_SECOND: i64 = 253_402_300_799;

/// Calls `time::OffsetDateTime::from_unix_timestamp`, which makes a date in
/// UTC of every count of seconds that falls into the years it can hold,
/// and refuses the others. The years from -9999 to 9999 it holds in every
/// build. The date is a function of the seconds alone; the contract gives
/// it a name.
#[verifier::external_body]
fn from_unix_timestamp(seconds: i64) -> (r: Result<OffsetDateTime, ComponentRange>)
    ensures
        FIRST_SECOND <= seconds <= LAST_SECOND ==> r is Ok,
        r matches Ok(at) ==> at == date_of_unix(seconds),
{
    OffsetDateTime::from_unix_timestamp(seconds)
}

/// The date of the time that Redis tells, in seconds since 1970.
pub fn time_from_unix(seconds: i64) -> (r: Result<OffsetDateTime, StorageError>)
    ensures
        FIRST_SECOND <= seconds <= LAST_SECOND ==> r is Ok,
        r matches Ok(at) ==> at == date_of_unix(seconds),
        r is Err ==> r == Err::<OffsetDateTime, StorageError>(StorageError::TimeOutOfRange),
{
    match from_unix_timestamp(seconds) {
        Ok(at) => Ok(at),
        Err(_) => Err(StorageError::TimeOutOfRange),
    }
}

/// How often an operation is tried again after the connection dropped.
pub const RECONNECTS: u32 = 1;

/// Whether an operation that has failed `failures` times is tried again:
/// only where the last failure was a dropped connection, and only once.
pub open spec fn tries_again(failures: u32, dropped: bool) -> bool {
    dropped && 1 <= failures <= RECONNECTS
}

/// Decides whether an operation is tried again after its latest failure.
/// `failures` counts the failures so far, the latest among them; `dropped`
/// says whether the latest was a dropped connection. One dropped connection
/// is made up for by a second try; any other failure, and a second one of
/// any kind, is handed on.
pub fn try_again(failures: u32, dropped: bool) -> (again: bool)
    ensures
        again == tries_again(failures, dropped),
{
    dropped && 1 <= failures && failures <= RECONNECTS
}

/// No operation is tried more than twice.
pub proof fn law_two_tries_at_most(failures: u32, dropped: bool)
    ensures
        tries_again(failures, dropped) ==> failures == 1,
        failures >= 2 ==> !tries_again(failures, dropped),
{
}

/// What a scan has gathered once it has dealt with a key and with what was
/// read under it: an unread item is taken in, a read one is passed over.
pub open spec fn gathered(
    before: Map<Seq<char>, ItemView>,
    key: Seq<char>,
    item: ItemView,
) -> Map<Seq<char>, ItemView> {
    if item.is_read() {
        before
    } else {
        before.insert(key, item)
    }
}

/// Deals with one key of a scan. `fetched` is what Redis held under `key`
/// when it was read: nothing means that the key went away since Redis
/// listed it, which ends the scan with an error.
pub fn gather(items: &mut ItemMap, key: String, fetched: Option<ContentItem>) -> (r: Result<
    (),
    StorageError,
>)
    ensures
        match fetched {
            Some(item) => r is Ok && final(items)@ == gathered(old(items)@, key@, item@),
            None => r == Err::<(), StorageError>(StorageError::ListedKeyVanished) && final(items)@
                == old(items)@,
        },
{
    match fetched {
        None => Err(StorageError::ListedKeyVanished),
        Some(item) => {
            if !item.is_read() {
                items.insert(Key::from(key), item);
            }
            Ok(())
        },
    }
}

/// The keys that Redis listed, each with what it held under the key when
/// that was read.
pub type Listed = Seq<(Seq<char>, Option<ItemView>)>;

/// The values of what a scan has read.
pub open spec fn listed_views(listed: Seq<(String, Option<ContentItem>)>) -> Listed {
    Seq::new(listed.len(), |i: int| (listed[i].0@, found_view(listed[i].1)))
}

/// What a scan makes of all that it has read: the map gathered key after
/// key, or nothing where one of the keys held nothing.
pub open spec fn scanned(listed: Listed) -> Option<Map<Seq<char>, ItemView>>
    decreases listed.len(),
{
    if listed.len() == 0 {
        Some(Map::empty())
    } else {
        match (scanned(listed.drop_last()), listed.last().1) {
            (Some(before), Some(item)) => Some(gathered(before, listed.last().0, item)),
            _ => None,
        }
    }
}

/// Makes the result of a scan of all that was read: the unread items
/// among it, or an error where a listed key held nothing.
pub fn scan(listed: &Vec<(String, Option<ContentItem>)>) -> (r: Result<ItemMap, StorageError>)
    ensures
        match scanned(listed_views(listed@)) {
            Some(m) => r matches Ok(items) && items@ == m,
            None => r == Err::<ItemMap, StorageError>(StorageError::ListedKeyVanished),
        },
{
    let ghost all = listed_views(listed@);
    let mut items = ItemMap::new();
    let mut whole = true;
    let mut i: usize = 0;
    assert(all.take(0) =~= Seq::<(Seq<char>, Option<ItemView>)>::empty());
    while i < listed.len()
        invariant
            all == listed_views(listed@),
            i <= listed.len(),
            whole <==> scanned(all.take(i as int)) is Some,
            whole ==> scanned(all.take(i as int)) == Some(items@),
        decreases listed.len() - i,
    {
        proof {
            let next = all.take(i + 1);
            assert(next.drop_last() =~= all.take(i as int));
            assert(next.last() == all[i as int]);
        }
        if whole {
            match &listed[i].1 {
                Some(item) => {
                    let _gathered = gather(&mut items, listed[i].0.clone(), Some(item.clone()));
                },
                None => {
                    whole = false;
                },
            }
        }
        i += 1;
    }
    assert(all.take(all.len() as int) =~= all);
    if whole {
        Ok(items)
    } else {
        Err(StorageError::ListedKeyVanished)
    }
}

/// `listed` holds what the store `m` holds: every key of `m` is listed, and
/// under every listed key was read what `m` holds under it.
pub open spec fn lists_store(listed: Listed, m: Map<Seq<char>, ItemView>) -> bool {
    &&& forall|i: int|
        0 <= i < listed.len() ==> m.contains_key((#[trigger] listed[i]).0) && listed[i].1 == Some(
            m[listed[i].0],
        )
    &&& forall|key: Seq<char>| #[trigger]
        m.contains_key(key) ==> exists|i: int| listed_at(listed, key, i)
}

/// Entry `i` of `listed` has the key `key`.
pub open spec fn listed_at(listed: Listed, key: Seq<char>, i: int) -> bool {
    0 <= i < listed.len() && listed[i].0 == key
}

/// The unread items of `m` among the first `n` keys of `listed`.
pub open spec fn unread_among(listed: Listed, m: Map<Seq<char>, ItemView>, n: int) -> Map<
    Seq<char>,
    ItemView,
> {
    Map::new(
        |key: Seq<char>|
            m.contains_key(key) && !m[key].is_read() && exists|i: int|
                i < n && listed_at(listed, key, i),
        |key: Seq<char>| m[key],
    )
}

/// A scan of the first `n` keys of a store gathers the unread items among
/// them.
pub proof fn lemma_scan_prefix(listed: Listed, m: Map<Seq<char>, ItemView>, n: int)
    requires
        lists_store(listed, m),
        0 <= n <= listed.len(),
    ensures
        scanned(listed.take(n)) == Some(unread_among(listed, m, n)),
    decreases n,
{
    if n == 0 {
        assert(listed.take(0) =~= Seq::<(Seq<char>, Option<ItemView>)>::empty());
        assert(unread_among(listed, m, 0) =~= Map::<Seq<char>, ItemView>::empty());
    } else {
        lemma_scan_prefix(listed, m, n - 1);
        let next = listed.take(n);
        assert(next.drop_last() =~= listed.take(n - 1));
        assert(next.last() == listed[n - 1]);
        let key = listed[n - 1].0;
        let before = unread_among(listed, m, n - 1);
        assert(listed_at(listed, key, n - 1));
        assert forall|k: Seq<char>| #[trigger]
            unread_among(listed, m, n).contains_key(k) == gathered(before, key, m[key]).contains_key(
                k,
            ) by {
            if unread_among(listed, m, n).contains_key(k) {
                let i = choose|i: int| i < n && listed_at(listed, k, i);
                if i < n - 1 {
                    assert(before.contains_key(k));
                }
            }
            if before.contains_key(k) {
                let i = choose|i: int| i < n - 1 && listed_at(listed, k, i);
                assert(i < n && listed_at(listed, k, i));
            }
        }
        assert(gathered(before, key, m[key]) =~= unread_among(listed, m, n));
    }
}

/// A scan that has read every key of a store, in whatever order and
/// however often, results in the unread items of the store: an item that
/// is marked as read stays out, though a lookup by its key still finds it.
pub proof fn law_scan_gathers_unread(listed: Listed, m: Map<Seq<char>, ItemView>)
    requires
        lists_store(listed, m),
    ensures
        scanned(listed) == Some(unread(m)),
{
    lemma_scan_prefix(listed, m, listed.len() as int);
    assert(listed.take(listed.len() as int) =~= listed);
    assert forall|k: Seq<char>| #[trigger]
        unread(m).contains_key(k) implies unread_among(listed, m, listed.len() as int).contains_key(
        k,
    ) by {
        let i = choose|i: int| listed_at(listed, k, i);
        assert(i < listed.len() && listed_at(listed, k, i));
    }
    assert(unread_among(listed, m, listed.len() as int) =~= unread(m));
}

/// How many keys a random pick draws at most before it turns to a scan.
pub const RANDOM_DRAWS: u32 = 8;

/// What a random pick does next.
#[derive(Debug, PartialEq, Eq)]
pub enum Probe {
    /// The pick is over: with this item, or with none where Redis is empty.
    Done(Option<(Key, ContentItem)>),
    /// Read what Redis holds under this key.
    Fetch(String),
    /// The item was read already: ask Redis for another key.
    Retry,
    /// Enough keys were drawn in vain: scan the store and pick among the
    /// unread items, if there are any.
    Scan,
    /// The pick failed.
    Failed(StorageError),
}

/// The mathematical value of a [`Probe`].
pub ghost enum ProbeView {
    Done(Option<(Seq<char>, ItemView)>),
    Fetch(Seq<char>),
    Retry,
    Scan,
    Failed(StorageError),
}

impl View for Probe {
    type V = ProbeView;

    open spec fn view(&self) -> ProbeView {
        match self {
            Probe::Done(Some(picked)) => ProbeView::Done(Some((picked.0@, picked.1@))),
            Probe::Done(None) => ProbeView::Done(None),
            Probe::Fetch(key) => ProbeView::Fetch(key@),
            Probe::Retry => ProbeView::Retry,
            Probe::Scan => ProbeView::Scan,
            Probe::Failed(e) => ProbeView::Failed(*e),
        }
    }
}

/// What follows the key that Redis picked at random: no key means that
/// Redis is empty, and the pick ends with nothing.
pub fn on_random_key(key: Option<String>) -> (next: Probe)
    ensures
        next@ == match key {
            Some(key) => ProbeView::Fetch(key@),
            None => ProbeView::Done(None),
        },
{
    match key {
        Some(key) => Probe::Fetch(key),
        None => Probe::Done(None),
    }
}

/// What follows the read of the key drawn as number `drawn` of a pick,
/// counted from one.
pub open spec fn after_random_item(key: String, fetched: Option<ItemView>, drawn: int) -> ProbeView {
    match fetched {
        None => ProbeView::Failed(StorageError::RandomKeyVanished(key)),
        Some(item) => if !item.is_read() {
            ProbeView::Done(Some((key@, item)))
        } else if drawn < RANDOM_DRAWS {
            ProbeView::Retry
        } else {
            ProbeView::Scan
        },
    }
}

/// What follows the read of a picked key, the key number `drawn` of this
/// pick, counted from one. Nothing under it means that the key went away
/// since Redis picked it, an error. An unread item is the result. A read
/// item is passed over: another key is drawn, until as many were drawn as
/// a pick may draw; then the pick turns to a scan, so that it ends though
/// every item be read.
pub fn on_random_item(key: String, fetched: Option<ContentItem>, drawn: u32) -> (next: Probe)
    ensures
        next@ == after_random_item(key, found_view(fetched), drawn as int),
{
    match fetched {
        None => Probe::Failed(StorageError::RandomKeyVanished(key)),
        Some(item) => {
            if !item.is_read() {
                Probe::Done(Some((Key::from(key), item)))
            } else if drawn < RANDOM_DRAWS {
                Probe::Retry
            } else {
                Probe::Scan
            }
        },
    }
}

/// A pick draws no more keys than it may: once that many were drawn, no
/// answer asks for another.
pub proof fn law_pick_ends(key: String, fetched: Option<ItemView>, drawn: int)
    ensures
        after_random_item(key, fetched, drawn) is Retry ==> drawn < RANDOM_DRAWS,
        drawn >= RANDOM_DRAWS ==> !(after_random_item(key, fetched, drawn) is Retry),
{
}

/// What a pick hands out of a store is an unread item of that store under
/// its own key: where the drawn key is one of the store `m` and what was
/// read under it is what `m` holds, the pick does not fail, hands out no
/// read item, and does not end with none.
pub proof fn law_pick_is_unread(m: Map<Seq<char>, ItemView>, key: String, drawn: int)
    requires
        m.contains_key(key@),
    ensures
        after_random_item(key, Some(m[key@]), drawn) matches ProbeView::Done(picked) ==> picked
            matches Some(entry) && unread(m).contains_key(entry.0) && unread(m)[entry.0]
            == entry.1,
        !m[key@].is_read() ==> after_random_item(key, Some(m[key@]), drawn) == ProbeView::Done(
            Some((key@, m[key@])),
        ),
        !(after_random_item(key, Some(m[key@]), drawn) is Failed),
{
}

/// Where a pick stands after its draws. `draws` holds the keys drawn so
/// far, in order, each with what was read under it. Before the first draw,
/// and as long as every item drawn was read already, the pick asks for
/// another key; the first other answer is its last.
pub open spec fn pick_after(draws: Seq<(String, Option<ItemView>)>) -> ProbeView
    decreases draws.len(),
{
    if draws.len() == 0 {
        ProbeView::Retry
    } else {
        match pick_after(draws.drop_last()) {
            ProbeView::Retry => after_random_item(
                draws.last().0,
                draws.last().1,
                draws.len() as int,
            ),
            over => over,
        }
    }
}

/// Every draw is of a key of the store `m`, and read under it was what `m`
/// holds.
pub open spec fn draws_from(draws: Seq<(String, Option<ItemView>)>, m: Map<Seq<char>, ItemView>) -> bool {
    forall|i: int|
        0 <= i < draws.len() ==> m.contains_key((#[trigger] draws[i]).0@) && draws[i].1 == Some(
            m[draws[i].0@],
        )
}

/// A whole pick over a store: it ends after as many draws as a pick may
/// make; what it hands out is an unread item of the store under its own
/// key; it does not fail and does not end with none over a store that
/// holds a key; and over a store without unread items it turns to the
/// scan, which then finds none.
pub proof fn law_pick_over_store(draws: Seq<(String, Option<ItemView>)>, m: Map<Seq<char>, ItemView>)
    requires
        draws_from(draws, m),
    ensures
        draws.len() >= RANDOM_DRAWS ==> !(pick_after(draws) is Retry),
        pick_after(draws) matches ProbeView::Done(picked) ==> picked matches Some(entry) && unread(
            m,
        ).contains_key(entry.0) && unread(m)[entry.0] == entry.1,
        !(pick_after(draws) is Failed),
        !(pick_after(draws) is Fetch),
        unread(m) == Map::<Seq<char>, ItemView>::empty() && draws.len() >= RANDOM_DRAWS
            ==> pick_after(draws) is Scan,
        unread(m) == Map::<Seq<char>, ItemView>::empty() && draws.len() < RANDOM_DRAWS
            ==> pick_after(draws) is Retry,
    decreases draws.len(),
{
    if draws.len() > 0 {
        let before = draws.drop_last();
        assert(draws_from(before, m)) by {
            assert forall|i: int| 0 <= i < before.len() implies m.contains_key(
                (#[trigger] before[i]).0@,
            ) && before[i].1 == Some(m[before[i].0@]) by {
                assert(before[i] == draws[i]);
            }
        }
        law_pick_over_store(before, m);
        let last = draws.last();
        assert(last == draws[draws.len() - 1]);
        law_pick_is_unread(m, last.0, draws.len() as int);
        if unread(m) == Map::<Seq<char>, ItemView>::empty() {
            assert(!unread(m).contains_key(last.0@));
        }
    }
}

} // verus!
