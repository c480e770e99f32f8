//! The dispatcher's append-only chat log and its pagination.
//!
//! The log assigns each accepted post the next slot number, so slot
//! numbers are exactly the positions `0, 1, 2, …` in append order.
//! `entries` serves history requests: up to `count` consecutive records
//! ending at a given slot (or at the newest record). A request naming a
//! slot the log does not hold yields an empty result rather than a fault.

use vstd::prelude::*;

use crate::chat::{Content, Entry, MessageText};

verus! {

/// The server's single chat log. Only the dispatcher appends to it.
pub struct FakeChatLog {
    records: Vec<Entry>,
}

impl View for FakeChatLog {
    type V = Seq<Entry>;

    closed spec fn view(&self) -> Seq<Entry> {
        self.records@
    }
}

impl FakeChatLog {
    /// Every record sits at the slot number it carries: the log's
    /// central invariant, established by `new` and kept by `post`.
    pub open spec fn wf(&self) -> bool {
        forall|i: int| 0 <= i < self@.len() ==> (#[trigger] self@[i]).slot_number == i
    }

    /// An empty log.
    pub fn new() -> (r: Self)
        ensures
            r@ =~= Seq::<Entry>::empty(),
            r.wf(),
    {
        FakeChatLog { records: Vec::new() }
    }

    /// How many records the log holds.
    pub fn len(&self) -> (r: usize)
        ensures
            r == self@.len(),
    {
        self.records.len()
    }

    /// Appends a new record for `content` posted by `username`, assigning
    /// it the next slot number, and returns a copy of the record.
    pub fn post(&mut self, username: String, content: String) -> (entry: Entry)
        requires
            old(self).wf(),
            old(self)@.len() < usize::MAX,
        ensures
            final(self).wf(),
            entry.slot_number == old(self)@.len(),
            entry.metadata.username == username,
            entry.content == Content::Original(MessageText(content)),
            final(self)@ == old(self)@.push(entry),
    {
        let entry = Entry::new_timestamped_now(
            self.records.len(),
            username,
            Content::Original(MessageText(content)),
        );
        self.records.push(entry.clone());
        entry
    }

    /// The record at position `index`.
    pub fn record_at(&self, index: usize) -> (r: &Entry)
        requires
            index < self@.len(),
        ensures
            *r == self@[index as int],
    {
        &self.records[index]
    }

    /// Up to `count` consecutive records ending at slot `last_slot`
    /// inclusive, in ascending slot order; `None` means the newest slot.
    /// An empty log, or a slot the log does not hold, yields an empty
    /// result.
    pub fn entries(&self, count: usize, last_slot: Option<usize>) -> (r: Vec<Entry>)
        requires
            self.wf(),
        ensures
            r@ == spec_history(self@, count as int, spec_requested_slot(self@, last_slot)),
    {
        if self.records.len() == 0 {
            return Vec::new();
        }
        let requested: usize = match last_slot {
            Some(slot) => slot,
            None => self.records[self.records.len() - 1].slot_number,
        };
        // Slot numbers equal positions, so locating the requested slot
        // is a bounds check.
        if requested >= self.records.len() {
            return Vec::new();
        }
        let last_index = requested;
        let take = if count <= last_index + 1 {
            count
        } else {
            last_index + 1
        };
        let start = last_index + 1 - take;
        let mut result: Vec<Entry> = Vec::new();
        let mut i: usize = start;
        while i < last_index + 1
            invariant
                start <= i <= last_index + 1,
                last_index < usize::MAX,
                last_index < self@.len(),
                result@ == self@.subrange(start as int, i as int),
            decreases last_index + 1 - i,
        {
            result.push(self.records[i].clone());
            assert(result@ =~= self@.subrange(start as int, i + 1 as int));
            i = i + 1;
        }
        result
    }
}

/// The slot a history request asks to end at: the one given, or the
/// newest slot when none is given. Meaningless on an empty log, which
/// `spec_history` answers with the empty sequence regardless.
pub open spec fn spec_requested_slot(log: Seq<Entry>, last_slot: Option<usize>) -> int {
    match last_slot {
        Some(slot) => slot as int,
        None => log.len() - 1,
    }
}

/// What a history request returns: the `min(count, slot + 1)` records
/// ending at `slot` inclusive, empty when the log is empty or holds no
/// such slot.
pub open spec fn spec_history(log: Seq<Entry>, count: int, slot: int) -> Seq<Entry> {
    if log.len() == 0 || slot < 0 || slot >= log.len() {
        Seq::empty()
    } else {
        let len = if count <= slot + 1 {
            count
        } else {
            slot + 1
        };
        log.subrange(slot + 1 - len, slot + 1)
    }
}

/// Slot numbers are exactly `0, 1, 2, …` in append order: on any
/// well-formed log, the record at each position carries that position as
/// its slot number, and a fresh post carries the log's length.
pub proof fn lemma_slot_numbers_sequential(log: FakeChatLog)
    requires
        log.wf(),
    ensures
        forall|i: int| 0 <= i < log@.len() ==> (#[trigger] log@[i]).slot_number == i,
{
}

/// A history request without a slot returns the last `min(count, n)`
/// records of an `n`-record log, in ascending slot order and without
/// gaps.
pub proof fn lemma_history_returns_suffix(log: FakeChatLog, count: int)
    requires
        log.wf(),
        log@.len() > 0,
        count >= 0,
    ensures
        ({
            let n = log@.len() as int;
            let len = if count <= n {
                count
            } else {
                n
            };
            let r = spec_history(log@, count, n - 1);
            &&& r.len() == len
            &&& forall|i: int|
                0 <= i < r.len() ==> (#[trigger] r[i]).slot_number == n - r.len() + i
        }),
{
    let n = log@.len() as int;
    let r = spec_history(log@, count, n - 1);
    assert forall|i: int| 0 <= i < r.len() implies (#[trigger] r[i]).slot_number == n - r.len()
        + i by {
        assert(r[i] == log@[n - r.len() + i]);
    }
}

/// A history request naming a known slot returns the records ending at
/// that slot inclusive, `min(count, slot + 1)` of them, in ascending
/// slot order; naming an unknown slot returns nothing.
pub proof fn lemma_history_at_slot(log: FakeChatLog, count: int, slot: usize)
    requires
        log.wf(),
        count >= 0,
    ensures
        (slot as int) < log@.len() ==> ({
            let len = if count <= slot + 1 {
                count
            } else {
                slot + 1
            };
            let r = spec_history(log@, count, slot as int);
            &&& r.len() == len
            &&& forall|i: int|
                0 <= i < r.len() ==> (#[trigger] r[i]).slot_number == slot + 1 - r.len() + i
        }),
        (slot as int) >= log@.len() ==> spec_history(log@, count, slot as int) =~= Seq::empty(),
{
    if (slot as int) < log@.len() {
        let r = spec_history(log@, count, slot as int);
        assert forall|i: int| 0 <= i < r.len() implies (#[trigger] r[i]).slot_number == slot + 1
            - r.len() + i by {
            assert(r[i] == log@[slot + 1 - r.len() + i]);
        }
    }
}

} // verus!
