//! The registry map: records keyed by identifier. Keys are unique and
//! insertion order carries no meaning; inserting at an existing key
//! overwrites the entry there.

use vstd::pervasive::VecAdditionalExecFns;
use vstd::prelude::*;

use crate::record::{RecordId, WaveFunction, WaveFunctionView};

verus! {

/// Whether the keys of a sequence of entries are pairwise distinct.
pub open spec fn distinct_keys(entries: Seq<(RecordId, WaveFunction)>) -> bool {
    forall|i: int, j: int|
        0 <= i < j < entries.len() ==> entries[i].0@ != entries[j].0@
}

/// The map a sequence of keyed entries holds, a later entry overriding an
/// earlier one at the same key.
pub open spec fn map_of_entries(entries: Seq<(RecordId, WaveFunction)>) -> Map<
    Seq<u8>,
    WaveFunctionView,
>
    decreases entries.len(),
{
    if entries.len() == 0 {
        Map::empty()
    } else {
        map_of_entries(entries.drop_last()).insert(entries.last().0@, entries.last().1@)
    }
}

proof fn lemma_distinct_keys_drop_last(entries: Seq<(RecordId, WaveFunction)>)
    requires
        distinct_keys(entries),
        entries.len() > 0,
    ensures
        distinct_keys(entries.drop_last()),
{
    let prev = entries.drop_last();
    assert forall|i: int, j: int| 0 <= i < j < prev.len() implies prev[i].0@ != prev[j].0@ by {
        assert(prev[i] == entries[i]);
        assert(prev[j] == entries[j]);
    }
}

/// A key is in the map exactly when some entry carries it.
proof fn lemma_map_of_entries_contains(entries: Seq<(RecordId, WaveFunction)>, k: Seq<u8>)
    ensures
        map_of_entries(entries).contains_key(k) <==> exists|i: int|
            0 <= i < entries.len() && entries[i].0@ == k,
    decreases entries.len(),
{
    if entries.len() > 0 {
        let prev = entries.drop_last();
        lemma_map_of_entries_contains(prev, k);
        if entries.last().0@ == k {
            assert(entries[entries.len() - 1].0@ == k);
        } else {
            if map_of_entries(entries).contains_key(k) {
                let i = choose|i: int| 0 <= i < prev.len() && prev[i].0@ == k;
                assert(entries[i].0@ == k);
            }
            if exists|i: int| 0 <= i < entries.len() && entries[i].0@ == k {
                let i = choose|i: int| 0 <= i < entries.len() && entries[i].0@ == k;
                assert(i < prev.len() && prev[i].0@ == k);
            }
        }
    }
}

/// Under distinct keys, the entry at any index is what the map holds at
/// that entry's key.
proof fn lemma_map_of_entries_index(entries: Seq<(RecordId, WaveFunction)>, i: int)
    requires
        distinct_keys(entries),
        0 <= i < entries.len(),
    ensures
        map_of_entries(entries).contains_key(entries[i].0@),
        map_of_entries(entries)[entries[i].0@] == entries[i].1@,
    decreases entries.len(),
{
    let prev = entries.drop_last();
    if i == entries.len() - 1 {
    } else {
        lemma_distinct_keys_drop_last(entries);
        assert(prev[i] == entries[i]);
        lemma_map_of_entries_index(prev, i);
        assert(entries.last().0@ != entries[i].0@);
    }
}

/// Under distinct keys, the map has exactly one entry per vector element.
proof fn lemma_map_of_entries_len(entries: Seq<(RecordId, WaveFunction)>)
    requires
        distinct_keys(entries),
    ensures
        map_of_entries(entries).dom().finite(),
        map_of_entries(entries).dom().len() == entries.len(),
    decreases entries.len(),
{
    if entries.len() == 0 {
        assert(map_of_entries(entries).dom() =~= Set::<Seq<u8>>::empty());
    } else {
        let prev = entries.drop_last();
        let last_key = entries.last().0@;
        lemma_distinct_keys_drop_last(entries);
        lemma_map_of_entries_len(prev);
        lemma_map_of_entries_contains(prev, last_key);
        assert(!map_of_entries(prev).contains_key(last_key)) by {
            if exists|i: int| 0 <= i < prev.len() && prev[i].0@ == last_key {
                let i = choose|i: int| 0 <= i < prev.len() && prev[i].0@ == last_key;
                assert(entries[i].0@ == entries[entries.len() - 1].0@);
            }
        }
        assert(map_of_entries(entries).dom() =~= map_of_entries(prev).dom().insert(last_key));
    }
}

/// Replacing the entry at an index whose key is `k` turns the map into an
/// insertion at `k`.
proof fn lemma_map_of_entries_update(
    entries: Seq<(RecordId, WaveFunction)>,
    i: int,
    k: RecordId,
    v: WaveFunction,
)
    requires
        distinct_keys(entries),
        0 <= i < entries.len(),
        k@ == entries[i].0@,
    ensures
        distinct_keys(entries.update(i, (k, v))),
        map_of_entries(entries.update(i, (k, v))) == map_of_entries(entries).insert(k@, v@),
    decreases entries.len(),
{
    let upd = entries.update(i, (k, v));
    assert forall|x: int, y: int| 0 <= x < y < upd.len() implies upd[x].0@ != upd[y].0@ by {
        assert(upd[x].0@ == entries[x].0@);
        assert(upd[y].0@ == entries[y].0@);
    }
    let prev = entries.drop_last();
    lemma_distinct_keys_drop_last(entries);
    if i == entries.len() - 1 {
        assert(upd.drop_last() =~= prev);
        assert(map_of_entries(prev).insert(k@, entries.last().1@).insert(k@, v@) =~= map_of_entries(
            prev,
        ).insert(k@, v@));
    } else {
        let last_key = entries.last().0@;
        let last_value = entries.last().1@;
        assert(upd.drop_last() =~= prev.update(i, (k, v)));
        assert(prev[i] == entries[i]);
        lemma_map_of_entries_update(prev, i, k, v);
        assert(upd.last() == entries.last());
        assert(last_key != k@);
        assert(map_of_entries(prev).insert(k@, v@).insert(last_key, last_value) =~= map_of_entries(
            prev,
        ).insert(last_key, last_value).insert(k@, v@));
    }
}

/// Appending an entry with a fresh key turns the map into an insertion at
/// that key.
proof fn lemma_map_of_entries_push(
    entries: Seq<(RecordId, WaveFunction)>,
    k: RecordId,
    v: WaveFunction,
)
    requires
        distinct_keys(entries),
        forall|i: int| 0 <= i < entries.len() ==> entries[i].0@ != k@,
    ensures
        distinct_keys(entries.push((k, v))),
        map_of_entries(entries.push((k, v))) == map_of_entries(entries).insert(k@, v@),
{
    let appended = entries.push((k, v));
    assert forall|x: int, y: int|
        0 <= x < y < appended.len() implies appended[x].0@ != appended[y].0@ by {
        assert(appended[x] == entries[x]);
        if y < entries.len() {
            assert(appended[y] == entries[y]);
        }
    }
    assert(appended.drop_last() =~= entries);
    assert(appended.last() == (k, v));
}

/// The keyed collection of stored records. Every key is unique; an insert
/// at a present key overwrites the record there.
pub struct WaveFunctions {
    entries: Vec<(RecordId, WaveFunction)>,
}

impl View for WaveFunctions {
    type V = Map<Seq<u8>, WaveFunctionView>;

    closed spec fn view(&self) -> Map<Seq<u8>, WaveFunctionView> {
        map_of_entries(self.entries@)
    }
}

impl WaveFunctions {
    /// Well-formedness: the stored entries carry pairwise distinct keys.
    pub closed spec fn wf(self) -> bool {
        distinct_keys(self.entries@)
    }

    /// An empty collection.
    pub fn new() -> (r: WaveFunctions)
        ensures
            r.wf(),
            r@ == Map::<Seq<u8>, WaveFunctionView>::empty(),
    {
        WaveFunctions { entries: Vec::new() }
    }

    /// The position of the entry keyed by `id`, if one is stored.
    fn find_index(&self, id: &RecordId) -> (r: Option<usize>)
        ensures
            match r {
                Option::Some(i) => i < self.entries@.len() && self.entries@[i as int].0@ == id@,
                Option::None => forall|i: int|
                    0 <= i < self.entries@.len() ==> self.entries@[i].0@ != id@,
            },
    {
        let mut i: usize = 0;
        while i < self.entries.len()
            invariant
                i <= self.entries@.len(),
                forall|j: int| 0 <= j < i ==> self.entries@[j].0@ != id@,
            decreases self.entries@.len() - i,
        {
            if self.entries[i].0.equals(id) {
                return Option::Some(i);
            }
            i += 1;
        }
        Option::None
    }

    /// How many records are stored.
    pub fn len(&self) -> (r: usize)
        requires
            self.wf(),
        ensures
            r == self@.dom().len(),
    {
        proof {
            lemma_map_of_entries_len(self.entries@);
        }
        self.entries.len()
    }

    /// The record stored at `id`, if any.
    pub fn get(&self, id: &RecordId) -> (r: Option<&WaveFunction>)
        requires
            self.wf(),
        ensures
            match r {
                Option::Some(wave_function) => self@.contains_key(id@) && wave_function@
                    == self@[id@],
                Option::None => !self@.contains_key(id@),
            },
    {
        match self.find_index(id) {
            Option::Some(i) => {
                proof {
                    lemma_map_of_entries_index(self.entries@, i as int);
                }
                Option::Some(&self.entries[i].1)
            },
            Option::None => {
                proof {
                    lemma_map_of_entries_contains(self.entries@, id@);
                }
                Option::None
            },
        }
    }

    /// Stores `wave_function` at `id`, overwriting any record already
    /// there.
    pub fn insert(&mut self, id: RecordId, wave_function: WaveFunction)
        requires
            old(self).wf(),
        ensures
            final(self).wf(),
            final(self)@ == old(self)@.insert(id@, wave_function@),
    {
        let ghost entries0 = self.entries@;
        match self.find_index(&id) {
            Option::Some(i) => {
                proof {
                    lemma_map_of_entries_update(entries0, i as int, id, wave_function);
                }
                self.entries.set(i, (id, wave_function));
            },
            Option::None => {
                proof {
                    lemma_map_of_entries_push(entries0, id, wave_function);
                }
                self.entries.push((id, wave_function));
            },
        }
    }
}

} // verus!
