//! The measurement cache: a memo of layout sizes observed in earlier frames,
//! keyed by a layout-slot name. Entries are upserted and never evicted.

use vstd::prelude::*;

verus! {

/// One memoized measurement: a layout-slot name and the size observed for it,
/// carried as the raw bit pattern of a single-precision float.
pub struct Measurement {
    pub slot: String,
    pub value: u32,
}

/// The map described by a list of measurements: later entries win.
pub open spec fn entries_map(s: Seq<Measurement>) -> Map<Seq<char>, u32>
    decreases s.len(),
{
    if s.len() == 0 {
        Map::empty()
    } else {
        entries_map(s.drop_last()).insert(s.last().slot@, s.last().value)
    }
}

/// A memo cache of layout sizes keyed by slot name, seen abstractly as a map
/// from slot name to size. No two stored entries share a slot name.
pub struct MeasurementCache {
    entries: Vec<Measurement>,
}

impl View for MeasurementCache {
    type V = Map<Seq<char>, u32>;

    closed spec fn view(&self) -> Map<Seq<char>, u32> {
        entries_map(self.entries@)
    }
}

/// A key absent from every entry is absent from the described map.
proof fn lemma_absent(s: Seq<Measurement>, key: Seq<char>)
    requires
        forall|i: int| 0 <= i < s.len() ==> s[i].slot@ != key,
    ensures
        !entries_map(s).contains_key(key),
    decreases s.len(),
{
    if s.len() > 0 {
        lemma_absent(s.drop_last(), key);
    }
}

/// The described map sends the slot of an entry that no later entry shadows
/// to that entry's value.
proof fn lemma_found(s: Seq<Measurement>, i: int)
    requires
        0 <= i < s.len(),
        forall|j: int| i < j < s.len() ==> s[j].slot@ != s[i].slot@,
    ensures
        entries_map(s).contains_key(s[i].slot@),
        entries_map(s)[s[i].slot@] == s[i].value,
    decreases s.len(),
{
    if i < s.len() - 1 {
        lemma_found(s.drop_last(), i);
    }
}

/// Overwriting the value of an unshadowed entry in place updates the
/// described map at that entry's slot.
proof fn lemma_update(s: Seq<Measurement>, i: int, m: Measurement)
    requires
        0 <= i < s.len(),
        m.slot@ == s[i].slot@,
        forall|j: int| i < j < s.len() ==> s[j].slot@ != s[i].slot@,
    ensures
        entries_map(s.update(i, m)) =~= entries_map(s).insert(m.slot@, m.value),
    decreases s.len(),
{
    let t = s.update(i, m);
    if i == s.len() - 1 {
        assert(t.drop_last() =~= s.drop_last());
    } else {
        assert(t.drop_last() =~= s.drop_last().update(i, m));
        lemma_update(s.drop_last(), i, m);
        assert(t.last() == s.last());
    }
}

impl MeasurementCache {
    /// No two entries share a slot name.
    pub closed spec fn wf(self) -> bool {
        forall|i: int, j: int|
            0 <= i < j < self.entries@.len() ==> self.entries@[i].slot@ != self.entries@[j].slot@
    }

    /// An empty cache.
    pub fn new() -> (c: MeasurementCache)
        ensures
            c.wf(),
            c@ == Map::<Seq<char>, u32>::empty(),
    {
        MeasurementCache { entries: Vec::new() }
    }

    /// The memoized size for a slot, if one was ever stored.
    pub fn get(&self, slot: &String) -> (r: Option<u32>)
        requires
            self.wf(),
        ensures
            r == if self@.contains_key(slot@) {
                Some(self@[slot@])
            } else {
                None::<u32>
            },
    {
        let n = self.entries.len();
        for i in 0..n
            invariant
                n == self.entries@.len(),
                self.wf(),
                forall|j: int| 0 <= j < i ==> self.entries@[j].slot@ != slot@,
        {
            let e = &self.entries[i];
            if e.slot == *slot {
                proof {
                    lemma_found(self.entries@, i as int);
                }
                return Some(e.value);
            }
        }
        proof {
            lemma_absent(self.entries@, slot@);
        }
        None
    }

    /// Store the size for a slot, replacing any earlier measurement of it.
    pub fn insert(&mut self, slot: String, value: u32)
        requires
            old(self).wf(),
        ensures
            final(self).wf(),
            final(self)@ == old(self)@.insert(slot@, value),
    {
        let n = self.entries.len();
        for i in 0..n
            invariant
                n == self.entries@.len(),
                self.wf(),
                self == old(self),
                forall|j: int| 0 <= j < i ==> self.entries@[j].slot@ != slot@,
        {
            if self.entries[i].slot == slot {
                let ghost s0 = self.entries@;
                let m = Measurement { slot, value };
                proof {
                    lemma_update(s0, i as int, m);
                }
                self.entries[i] = m;
                assert(self@ =~= old(self)@.insert(m.slot@, m.value));
                return ;
            }
        }
        let ghost s0 = self.entries@;
        let m = Measurement { slot, value };
        self.entries.push(m);
        proof {
            assert(self.entries@.drop_last() =~= s0);
            lemma_absent(s0, m.slot@);
            assert(self@ =~= old(self)@.insert(m.slot@, m.value));
        }
    }

    /// The stored entries, each the unshadowed measurement for its slot.
    pub fn entries(&self) -> (r: &Vec<Measurement>)
        requires
            self.wf(),
        ensures
            r@.len() == self@.dom().len(),
            forall|i: int|
                0 <= i < r@.len() ==> self@.contains_key(#[trigger] r@[i].slot@) && self@[r@[i].slot@]
                    == r@[i].value,
    {
        proof {
            lemma_entries_len(self.entries@);
            assert forall|i: int| 0 <= i < self.entries@.len() implies self@.contains_key(
                #[trigger] self.entries@[i].slot@,
            ) && self@[self.entries@[i].slot@] == self.entries@[i].value by {
                lemma_found(self.entries@, i);
            }
        }
        &self.entries
    }
}

/// A list with pairwise distinct slots describes a map with one key per entry.
proof fn lemma_entries_len(s: Seq<Measurement>)
    requires
        forall|i: int, j: int| 0 <= i < j < s.len() ==> s[i].slot@ != s[j].slot@,
    ensures
        entries_map(s).dom().len() == s.len(),
        entries_map(s).dom().finite(),
    decreases s.len(),
{
    if s.len() > 0 {
        lemma_entries_len(s.drop_last());
        lemma_absent(s.drop_last(), s.last().slot@);
    }
}

} // verus!
