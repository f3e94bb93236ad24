use vstd::prelude::*;
use std::collections::HashMap;

verus! {

broadcast use vstd::std_specs::hash::group_hash_axioms;

/// Reading positions per document slot, and the documents opened so far.
pub struct Store {
    /// Every document opened, in order; a document opened twice is listed twice.
    pub history: Vec<String>,
    /// The last scroll offset recorded for each slot.
    pub positions: HashMap<u8, u16>,
}

/// The offset stored for `slot`, or 0 for a slot never recorded.
pub open spec fn offset_in(m: Map<u8, u16>, slot: u8) -> u16 {
    if m.contains_key(slot) {
        m[slot]
    } else {
        0
    }
}

/// The positions after recording each `(slot, offset)` pair in turn.
pub open spec fn recorded_all(m: Map<u8, u16>, records: Seq<(u8, u16)>) -> Map<u8, u16>
    decreases records.len(),
{
    if records.len() == 0 {
        m
    } else {
        recorded_all(m, records.drop_last()).insert(records.last().0, records.last().1)
    }
}

impl Store {
    pub fn new() -> (s: Store)
        ensures
            s.history@.len() == 0,
            s.positions@ == Map::<u8, u16>::empty(),
    {
        Store { history: Vec::new(), positions: HashMap::new() }
    }

    /// Overwrites the offset of `slot`.
    pub fn record_position(&mut self, slot: u8, offset: u16)
        ensures
            final(self).positions@ == old(self).positions@.insert(slot, offset),
            final(self).history@ == old(self).history@,
    {
        self.positions.insert(slot, offset);
    }

    /// The last offset recorded for `slot`, 0 when there is none.
    pub fn position_of(&self, slot: u8) -> (r: u16)
        ensures
            r == offset_in(self.positions@, slot),
    {
        match self.positions.get(&slot) {
            Some(v) => *v,
            Option::None => 0,
        }
    }

    /// Appends `path` to the history, also when it is there already.
    pub fn append_history(&mut self, path: String)
        ensures
            final(self).history@ == old(self).history@.push(path),
            final(self).positions@ == old(self).positions@,
    {
        self.history.push(path);
    }

    /// The documents opened so far, oldest first.
    pub fn history(&self) -> (r: &Vec<String>)
        ensures
            r@ == self.history@,
    {
        &self.history
    }
}

impl Default for Store {
    fn default() -> (s: Store)
        ensures
            s.history@.len() == 0,
            s.positions@ == Map::<u8, u16>::empty(),
    {
        Store::new()
    }
}

/// A recorded offset is read back, and recording one slot leaves every
/// other slot's offset as it was.
pub proof fn lemma_position_round_trip(m: Map<u8, u16>, slot: u8, offset: u16, other: u8)
    ensures
        offset_in(m.insert(slot, offset), slot) == offset,
        other != slot ==> offset_in(m.insert(slot, offset), other) == offset_in(m, other),
{
}

/// A slot that no record names reads as 0 in a fresh store, whatever was
/// recorded for other slots.
pub proof fn lemma_unrecorded_slot_reads_zero(records: Seq<(u8, u16)>, slot: u8)
    requires
        forall|j: int| 0 <= j < records.len() ==> #[trigger] records[j].0 != slot,
    ensures
        offset_in(recorded_all(Map::empty(), records), slot) == 0,
    decreases records.len(),
{
    if records.len() > 0 {
        let rest = records.drop_last();
        assert forall|j: int| 0 <= j < rest.len() implies #[trigger] rest[j].0 != slot by {
            assert(rest[j] == records[j]);
        }
        lemma_unrecorded_slot_reads_zero(rest, slot);
        assert(records.last() == records[records.len() - 1]);
    }
}

/// Appending the same path twice keeps both entries, in order.
pub proof fn lemma_history_keeps_duplicates(h: Seq<String>, path: String)
    ensures
        h.push(path).push(path).len() == h.len() + 2,
        h.push(path).push(path)[h.len() as int] == path,
        h.push(path).push(path)[h.len() as int + 1] == path,
        h.push(path).push(path).subrange(0, h.len() as int) == h,
{
    assert(h.push(path).push(path).subrange(0, h.len() as int) =~= h);
}

} // verus!
