//! The table of requests that still wait for a response.
//!
//! A row is made when a request is sent. It holds the time at which that
//! happened and the callback that is to learn how the call ended. The row
//! leaves the table exactly once, and the callback with it: when the
//! response with its identifier arrives, or when the sweep finds it older
//! than the timeout. Whoever comes second finds no row and does nothing.
//!
//! The rows lie side by side in a vector, and a hash map leads from each
//! identifier to the place of its row. A row that leaves is replaced by the
//! last one, so the vector has no gaps and the sweep walks it from end to
//! end.

use crate::identifier::Identifier;
use ahash::AHashMap;
use vstd::prelude::*;

verus! {

/// `ahash::AHashMap`, the hash map that leads to the rows. Nothing is known
/// of what is inside a map but through [`spec_index`].
#[verifier::external_type_specification]
#[verifier::external_body]
#[verifier::reject_recursive_types(K)]
#[verifier::reject_recursive_types(V)]
#[verifier::reject_recursive_types(S)]
pub struct ExAHashMap<K, V, S>(AHashMap<K, V, S>);

/// `ahash::RandomState`, the hasher of the map. It is named by the type of
/// the map and never looked at.
#[verifier::external_type_specification]
#[verifier::external_body]
pub struct ExRandomState(ahash::RandomState);

/// What a map holds: for each identifier in it, the place stored under that
/// identifier.
pub uninterp spec fn spec_index(index: AHashMap<u64, usize>) -> Map<u64, usize>;

/// `AHashMap::new`: the new map holds nothing.
#[verifier::external_body]
fn index_new() -> (index: AHashMap<u64, usize>)
    ensures
        spec_index(index).dom() == Set::<u64>::empty(),
{
    AHashMap::new()
}

/// `AHashMap::insert`: afterwards the map holds `place` under `id` and is
/// otherwise unchanged. The result is what was stored under `id` before, if
/// anything.
#[verifier::external_body]
fn index_insert(index: &mut AHashMap<u64, usize>, id: u64, place: usize) -> (previous: Option<
    usize,
>)
    ensures
        spec_index(*final(index)) == spec_index(*old(index)).insert(id, place),
        previous == spec_lookup(spec_index(*old(index)), id),
{
    index.insert(id, place)
}

/// `AHashMap::remove`: afterwards the map holds nothing under `id` and is
/// otherwise unchanged. The result is what was stored under `id` before, if
/// anything.
#[verifier::external_body]
fn index_remove(index: &mut AHashMap<u64, usize>, id: u64) -> (removed: Option<usize>)
    ensures
        spec_index(*final(index)) == spec_index(*old(index)).remove(id),
        removed == spec_lookup(spec_index(*old(index)), id),
{
    index.remove(&id)
}

/// `AHashMap::get`: a copy of what is stored under `id`, if anything.
#[verifier::external_body]
fn index_get(index: &AHashMap<u64, usize>, id: u64) -> (found: Option<usize>)
    ensures
        found == spec_lookup(spec_index(*index), id),
{
    index.get(&id).copied()
}

/// `HashMap::len`, reached through the `Deref` of `AHashMap`: the number of
/// identifiers in the map.
#[verifier::external_body]
fn index_len(index: &AHashMap<u64, usize>) -> (n: usize)
    ensures
        n == spec_index(*index).dom().len(),
{
    index.len()
}

/// What `index` holds under `id`, if anything.
pub open spec fn spec_lookup(index: Map<u64, usize>, id: u64) -> Option<usize> {
    if index.contains_key(id) {
        Some(index[id])
    } else {
        None
    }
}

/// A pending request: a row of the table.
#[derive(Debug)]
pub struct Pending<C> {
    /// Identifier of the request.
    pub id: u64,
    /// The time at which the request was sent, in milliseconds.
    pub timestamp: u64,
    /// What is to be called, once, with the outcome of the call.
    pub callback: C,
}

impl<C> Pending<C> {
    /// The row of a request sent at `timestamp`.
    pub fn new(id: u64, timestamp: u64, callback: C) -> (row: Pending<C>)
        ensures
            row == (Pending { id, timestamp, callback }),
    {
        Pending { id, timestamp, callback }
    }
}

/// The age of a row at time `now`: the milliseconds since `timestamp`, and
/// zero where the clock reads earlier than the time stamp.
pub open spec fn spec_age(now: u64, timestamp: u64) -> int {
    if now >= timestamp {
        now - timestamp
    } else {
        0
    }
}

/// Whether a row made at `timestamp` has timed out at `now`: its age exceeds
/// the timeout.
pub open spec fn spec_expired(now: u64, timestamp: u64, timeout: u64) -> bool {
    spec_age(now, timestamp) > timeout
}

/// The identifiers of the rows that have timed out at `now`.
pub open spec fn spec_expired_ids<C>(rows: Map<u64, Pending<C>>, now: u64, timeout: u64) -> Set<
    u64,
> {
    Set::new(|id: u64| rows.contains_key(id) && spec_expired(now, rows[id].timestamp, timeout))
}

/// Whether one of the first `upto` rows carries `id` and has timed out at
/// `now`.
spec fn spec_found<C>(
    rows: Seq<Pending<C>>,
    upto: int,
    now: u64,
    timeout: u64,
    id: u64,
) -> bool {
    exists|place: int|
        0 <= place < upto && (#[trigger] rows[place]).id == id && spec_expired(
            now,
            rows[place].timestamp,
            timeout,
        )
}

/// The identifiers that a sequence of rows carries, in order.
pub open spec fn spec_row_ids<C>(rows: Seq<Pending<C>>) -> Seq<u64> {
    rows.map_values(|row: Pending<C>| row.id)
}

/// The identifier `steps` places after `seed`, wrapping round at the end of
/// the 64-bit range.
pub open spec fn spec_probe(seed: u64, steps: nat) -> u64 {
    ((seed as nat + steps) % 0x1_0000_0000_0000_0000) as u64
}

/// Whether `id` is the first identifier at or after `seed`, wrapping round,
/// that is not in `taken`.
pub open spec fn spec_first_free(taken: Set<u64>, seed: u64, id: u64) -> bool {
    exists|steps: nat|
        {
            &&& id == #[trigger] spec_probe(seed, steps)
            &&& steps < 0x1_0000_0000_0000_0000
            &&& !taken.contains(id)
            &&& forall|j: nat| j < steps ==> taken.contains(#[trigger] spec_probe(seed, j))
        }
}

/// The first `count` identifiers from `seed` on.
spec fn spec_probed(seed: u64, count: nat) -> Set<u64> {
    Set::new(|id: u64| exists|j: nat| j < count && id == #[trigger] spec_probe(seed, j))
}

/// Up to the size of the 64-bit range, the first `count` identifiers from
/// `seed` on are `count` different ones.
proof fn lemma_probed_len(seed: u64, count: nat)
    requires
        count <= 0x1_0000_0000_0000_0000,
    ensures
        spec_probed(seed, count).finite(),
        spec_probed(seed, count).len() == count,
    decreases count,
{
    if count == 0 {
        assert(spec_probed(seed, count) =~= Set::<u64>::empty());
    } else {
        let before = (count - 1) as nat;
        lemma_probed_len(seed, before);
        let last = spec_probe(seed, before);
        assert(!spec_probed(seed, before).contains(last)) by {
            if spec_probed(seed, before).contains(last) {
                let j = choose|j: nat| j < before && last == #[trigger] spec_probe(seed, j);
                assert(spec_probe(seed, j) != spec_probe(seed, before));
            }
        }
        assert(spec_probed(seed, count) =~= spec_probed(seed, before).insert(last)) by {
            assert forall|id: u64| #[trigger]
                spec_probed(seed, count).contains(id) implies spec_probed(seed, before).insert(
                last,
            ).contains(id) by {
                let j = choose|j: nat| j < count && id == #[trigger] spec_probe(seed, j);
                if j < before {
                    assert(spec_probed(seed, before).contains(spec_probe(seed, j)));
                }
            }
            assert forall|id: u64| #[trigger]
                spec_probed(seed, before).insert(last).contains(
                    id,
                ) implies spec_probed(seed, count).contains(id) by {
                if id == last {
                    assert(id == spec_probe(seed, before));
                } else {
                    let j = choose|j: nat| j < before && id == #[trigger] spec_probe(seed, j);
                    assert(j < count);
                }
            }
        }
    }
}

/// The table of pending requests.
pub struct PendingTable<C> {
    index: AHashMap<u64, usize>,
    rows: Vec<Pending<C>>,
}

impl<C> View for PendingTable<C> {
    type V = Map<u64, Pending<C>>;

    /// The rows of the table, each under its identifier.
    closed spec fn view(&self) -> Map<u64, Pending<C>> {
        Map::new(
            |id: u64| spec_index(self.index).contains_key(id),
            |id: u64| self.rows@[spec_index(self.index)[id] as int],
        )
    }
}

impl<C> PendingTable<C> {
    /// The invariant of the table: the map leads from the identifier of each
    /// row to the place of that row, and to nothing else.
    pub closed spec fn wf(&self) -> bool {
        &&& spec_index(self.index).dom().finite()
        &&& forall|id: u64| #[trigger]
            spec_index(self.index).contains_key(id) ==> {
                &&& spec_index(self.index)[id] < self.rows@.len()
                &&& self.rows@[spec_index(self.index)[id] as int].id == id
            }
        &&& forall|place: int|
            0 <= place < self.rows@.len() ==> {
                &&& spec_index(self.index).contains_key((#[trigger] self.rows@[place]).id)
                &&& spec_index(self.index)[self.rows@[place].id] == place
            }
    }

    /// In a table that meets its invariant there are finitely many rows, and
    /// each lies under its own identifier.
    pub proof fn lemma_wf(&self)
        requires
            self.wf(),
        ensures
            self@.dom().finite(),
            forall|id: u64| self@.contains_key(id) ==> (#[trigger] self@[id]).id == id,
    {
        assert(self@.dom() =~= spec_index(self.index).dom());
    }

    /// An empty table.
    pub fn new() -> (table: PendingTable<C>)
        ensures
            table.wf(),
            table@ == Map::<u64, Pending<C>>::empty(),
    {
        let table = PendingTable { index: index_new(), rows: Vec::new() };
        assert(table@ =~= Map::<u64, Pending<C>>::empty());
        table
    }

    /// The number of pending requests.
    pub fn len(&self) -> (n: usize)
        requires
            self.wf(),
        ensures
            n == self@.dom().len(),
    {
        assert(self@.dom() =~= spec_index(self.index).dom());
        index_len(&self.index)
    }

    /// Whether a request with this identifier is pending.
    pub fn contains(&self, id: u64) -> (found: bool)
        ensures
            found == self@.contains_key(id),
    {
        index_get(&self.index, id).is_some()
    }

    /// The time at which the pending request `id` was sent, if it is pending.
    pub fn timestamp(&self, id: u64) -> (found: Option<u64>)
        requires
            self.wf(),
        ensures
            found == if self@.contains_key(id) {
                Some(self@[id].timestamp)
            } else {
                None
            },
    {
        match index_get(&self.index, id) {
            Some(place) => Some(self.rows[place].timestamp),
            None => None,
        }
    }

    /// Puts a row into the table. Where a request with the identifier of the
    /// row is already pending the table stays as it is and the row is handed
    /// back: the request that came first keeps its row.
    pub fn insert(&mut self, row: Pending<C>) -> (rejected: Option<Pending<C>>)
        requires
            old(self).wf(),
        ensures
            final(self).wf(),
            rejected is Some <==> old(self)@.contains_key(row.id),
            rejected matches Some(back) ==> back == row && final(self)@ == old(self)@,
            rejected is None ==> final(self)@ == old(self)@.insert(row.id, row),
    {
        if index_get(&self.index, row.id).is_some() {
            return Some(row);
        }
        let place = self.rows.len();
        index_insert(&mut self.index, row.id, place);
        self.rows.push(row);
        assert(self@ =~= old(self)@.insert(row.id, row));
        None
    }

    /// Takes the row of `id` out of the table. Where `id` is not pending the
    /// table stays as it is and the result is `None`.
    pub fn remove(&mut self, id: u64) -> (removed: Option<Pending<C>>)
        requires
            old(self).wf(),
        ensures
            final(self).wf(),
            removed is Some <==> old(self)@.contains_key(id),
            removed matches Some(row) ==> row == old(self)@[id],
            final(self)@ == old(self)@.remove(id),
    {
        let place = match index_remove(&mut self.index, id) {
            Some(place) => place,
            None => {
                assert(self@ =~= old(self)@.remove(id));
                return None;
            },
        };
        let row = self.rows.swap_remove(place);
        if place < self.rows.len() {
            let moved = self.rows[place].id;
            index_insert(&mut self.index, moved, place);
        }
        assert(self@ =~= old(self)@.remove(id));
        Some(row)
    }

    /// The first identifier at or after `seed`, wrapping round at the end of
    /// the range, that is not pending. It is `seed` itself unless `seed` is
    /// taken.
    pub fn vacant(&self, seed: u64) -> (id: u64)
        requires
            self.wf(),
        ensures
            spec_first_free(self@.dom(), seed, id),
            !self@.contains_key(id),
            !self@.contains_key(seed) ==> id == seed,
    {
        let n = index_len(&self.index);
        let mut cursor = Identifier::new(seed);
        let mut id = cursor.next();
        let ghost mut steps: nat = 0;
        let ghost taken = self@.dom();
        assert(taken =~= spec_index(self.index).dom());
        while index_get(&self.index, id).is_some()
            invariant
                taken.finite(),
                taken == spec_index(self.index).dom(),
                n == taken.len(),
                steps <= n,
                id == spec_probe(seed, steps),
                cursor.value() == spec_probe(seed, steps + 1),
                forall|j: nat| j < steps ==> taken.contains(#[trigger] spec_probe(seed, j)),
                !taken.contains(seed) ==> steps == 0,
            decreases n - steps,
        {
            proof {
                lemma_probed_len(seed, steps + 1);
                assert(spec_probed(seed, steps + 1).subset_of(taken)) by {
                    assert forall|x: u64| #[trigger]
                        spec_probed(seed, steps + 1).contains(x) implies taken.contains(x) by {
                        let j = choose|j: nat| j < steps + 1 && x == #[trigger] spec_probe(seed, j);
                        if j < steps {
                            assert(taken.contains(spec_probe(seed, j)));
                        }
                    }
                }
                vstd::set_lib::lemma_len_subset(spec_probed(seed, steps + 1), taken);
                steps = steps + 1;
            }
            id = cursor.next();
        }
        id
    }

    /// The identifiers of the rows that have timed out at `now`, each once.
    /// The table is not changed.
    pub fn expired(&self, now: u64, timeout: u64) -> (ids: Vec<u64>)
        requires
            self.wf(),
        ensures
            ids@.no_duplicates(),
            ids@.to_set() == spec_expired_ids(self@, now, timeout),
    {
        let mut ids: Vec<u64> = Vec::new();
        let mut i: usize = 0;
        while i < self.rows.len()
            invariant
                self.wf(),
                i <= self.rows@.len(),
                ids@.no_duplicates(),
                forall|id: u64|
                    ids@.contains(id) <==> spec_found(self.rows@, i as int, now, timeout, id),
            decreases self.rows@.len() - i,
        {
            let timestamp = self.rows[i].timestamp;
            let age = if now >= timestamp {
                now - timestamp
            } else {
                0
            };
            let ghost before = ids@;
            let ghost here = self.rows@[i as int];
            if age > timeout {
                assert(!before.contains(here.id)) by {
                    if spec_found(self.rows@, i as int, now, timeout, here.id) {
                        let place = choose|place: int|
                            0 <= place < i && (#[trigger] self.rows@[place]).id == here.id;
                        assert(spec_index(self.index)[self.rows@[place].id] == place);
                    }
                }
                ids.push(self.rows[i].id);
            }
            assert forall|id: u64| ids@.contains(id) <==> spec_found(
                self.rows@,
                i + 1,
                now,
                timeout,
                id,
            ) by {
                if ids@.contains(id) {
                    let at = choose|at: int| 0 <= at < ids@.len() && ids@[at] == id;
                    if at < before.len() {
                        assert(before[at] == id);
                        assert(before.contains(id));
                        let place = choose|place: int|
                            0 <= place < i && (#[trigger] self.rows@[place]).id == id
                                && spec_expired(now, self.rows@[place].timestamp, timeout);
                        assert(0 <= place < i + 1);
                    } else {
                        assert(here.id == id);
                    }
                }
                if spec_found(self.rows@, i + 1, now, timeout, id) {
                    let place = choose|place: int|
                        0 <= place < i + 1 && (#[trigger] self.rows@[place]).id == id
                            && spec_expired(now, self.rows@[place].timestamp, timeout);
                    if place < i {
                        assert(spec_found(self.rows@, i as int, now, timeout, id));
                        assert(before.contains(id));
                        let at = choose|at: int| 0 <= at < before.len() && before[at] == id;
                        assert(ids@[at] == id);
                    } else {
                        assert(ids@[before.len() as int] == id);
                    }
                }
            }
            i = i + 1;
        }
        proof {
            assert(ids@.to_set() =~= spec_expired_ids(self@, now, timeout)) by {
                assert forall|x: u64| ids@.to_set().contains(x) <==> spec_expired_ids(
                    self@,
                    now,
                    timeout,
                ).contains(x) by {
                    if ids@.contains(x) {
                        let place = choose|place: int|
                            0 <= place < i && (#[trigger] self.rows@[place]).id == x
                                && spec_expired(now, self.rows@[place].timestamp, timeout);
                        assert(spec_index(self.index).contains_key(self.rows@[place].id));
                    }
                    if spec_expired_ids(self@, now, timeout).contains(x) {
                        let place = spec_index(self.index)[x] as int;
                        assert(spec_index(self.index).contains_key(x));
                        assert(self.rows@[place].id == x);
                        assert(spec_found(self.rows@, i as int, now, timeout, x));
                    }
                }
            }
        }
        ids
    }

    /// Takes every row that has timed out at `now` out of the table and
    /// returns the rows, each once. The rows are found first and removed in
    /// a second pass.
    pub fn sweep(&mut self, now: u64, timeout: u64) -> (purged: Vec<Pending<C>>)
        requires
            old(self).wf(),
        ensures
            final(self).wf(),
            spec_row_ids(purged@).no_duplicates(),
            spec_row_ids(purged@).to_set() == spec_expired_ids(old(self)@, now, timeout),
            forall|k: int| 0 <= k < purged@.len() ==> #[trigger] purged@[k] == old(self)@[purged@[k].id],
            final(self)@ == old(self)@.remove_keys(spec_expired_ids(old(self)@, now, timeout)),
    {
        let ids = self.expired(now, timeout);
        let mut purged: Vec<Pending<C>> = Vec::new();
        let mut i: usize = 0;
        assert(self@ =~= old(self)@.remove_keys(ids@.subrange(0, 0).to_set()));
        while i < ids.len()
            invariant
                i <= ids.len(),
                self.wf(),
                ids@.no_duplicates(),
                ids@.to_set() == spec_expired_ids(old(self)@, now, timeout),
                self@ == old(self)@.remove_keys(ids@.subrange(0, i as int).to_set()),
                spec_row_ids(purged@) == ids@.subrange(0, i as int),
                forall|k: int|
                    0 <= k < purged@.len() ==> #[trigger] purged@[k] == old(self)@[purged@[k].id],
            decreases ids.len() - i,
        {
            let ghost done = ids@.subrange(0, i as int);
            let ghost next = ids@.subrange(0, i + 1);
            let ghost before = purged@;
            let id = ids[i];
            proof {
                assert(ids@.contains(id));
                assert(ids@.to_set().contains(id));
                assert(!done.contains(id)) by {
                    if done.contains(id) {
                        let k = choose|k: int| 0 <= k < done.len() && done[k] == id;
                        assert(ids@[k] == ids@[i as int]);
                    }
                }
                assert(self@.contains_key(id));
                assert(next =~= done.push(id));
                assert(next.to_set() =~= done.to_set().insert(id)) by {
                    assert forall|x: u64| next.to_set().contains(x) <==> done.to_set().insert(
                        id,
                    ).contains(x) by {
                        if next.contains(x) {
                            let at = choose|at: int| 0 <= at < next.len() && next[at] == x;
                            if at < done.len() {
                                assert(done[at] == x);
                            }
                        }
                        if done.contains(x) {
                            let at = choose|at: int| 0 <= at < done.len() && done[at] == x;
                            assert(next[at] == x);
                        }
                        if x == id {
                            assert(next[i as int] == x);
                        }
                    }
                }
            }
            proof {
                self.lemma_wf();
            }
            match self.remove(id) {
                Some(row) => {
                    purged.push(row);
                },
                None => {},
            }
            proof {
                assert(self@ =~= old(self)@.remove_keys(next.to_set()));
                assert(spec_row_ids(purged@) =~= next);
            }
            i = i + 1;
        }
        assert(ids@.subrange(0, i as int) =~= ids@);
        purged
    }
}

} // verus!
