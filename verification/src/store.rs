use vstd::prelude::*;
use vstd::rwlock::RwLock;
use crate::vibe::{Vibe, VibeCheck};

verus! {

/// The sequential heart of the store: exactly one record, overwritten in
/// place. Both fields of the record are replaced together, so no sequence of
/// operations can pair a classification with a timestamp from another write.
pub struct VibeSlot {
    rec: VibeCheck,
}

/// The slot that results from writing `(vibe, time)` into `s`.
pub closed spec fn spec_written(s: VibeSlot, vibe: Vibe, time: i64) -> VibeSlot {
    VibeSlot { rec: VibeCheck { vibe, time } }
}

/// The record a read of `s` returns.
pub open spec fn spec_read(s: VibeSlot) -> VibeCheck {
    s.record()
}

impl VibeSlot {
    /// The record the slot currently holds.
    pub closed spec fn record(&self) -> VibeCheck {
        self.rec
    }

    /// A fresh slot holds the sentinel record: indeterminate, epoch.
    pub fn new() -> (s: VibeSlot)
        ensures
            s.record() == (VibeCheck { vibe: Vibe::Error, time: 0 }),
    {
        VibeSlot { rec: VibeCheck::sentinel() }
    }

    /// Return a copy of the current record.
    pub fn read(&self) -> (r: VibeCheck)
        ensures
            r == spec_read(*self),
    {
        self.rec
    }

    /// Overwrite classification and timestamp atomically together.
    pub fn write(&mut self, vibe: Vibe, time: i64)
        ensures
            *final(self) == spec_written(*old(self), vibe, time),
            final(self).record() == (VibeCheck { vibe, time }),
    {
        self.rec = VibeCheck { vibe, time };
    }
}

/// Round trip: a write of `(vibe, time)` followed by a read, with no
/// intervening write, returns exactly the record `(vibe, time)`.
pub proof fn lemma_write_read_round_trip(s: VibeSlot, vibe: Vibe, time: i64)
    ensures
        spec_read(spec_written(s, vibe, time)) == (VibeCheck { vibe, time }),
{
}

/// The process-wide shared slot: many concurrent readers or exactly one
/// writer at a time, never both. The lock stores the whole [`VibeSlot`], and a
/// writer deposits a complete slot value, so a reader can never observe the
/// classification of one write paired with the timestamp of another. The
/// lock's value invariant is trivial — any record is admissible — because the
/// synchronization itself is what this type provides. The write path is
/// verified free of panics, so the poisoning hazard of an ordinary lock does
/// not arise: every write completes whole or is never attempted, and the
/// store stays usable.
pub struct VibeStore {
    lock: RwLock<VibeSlot, spec_fn(VibeSlot) -> bool>,
}

impl VibeStore {
    /// The lock admits every slot value.
    pub closed spec fn wf(&self) -> bool {
        forall|s: VibeSlot| self.lock.inv(s)
    }

    /// A fresh store; its slot starts at the sentinel record. The record it
    /// later holds is not part of this type's specification: concurrent
    /// writers may change it at any moment.
    pub fn new() -> (s: VibeStore)
        ensures
            s.wf(),
    {
        VibeStore { lock: RwLock::new(VibeSlot::new(), Ghost(|s: VibeSlot| true)) }
    }

    /// Shared read: take the read lock, copy the whole record, release. Never
    /// blocks other concurrent readers.
    pub fn read(&self) -> (r: VibeCheck) {
        let handle = self.lock.acquire_read();
        let r = handle.borrow().read();
        handle.release_read();
        r
    }

    /// Exclusive write: take the write lock, overwrite both fields of the
    /// record together, release.
    pub fn write(&self, vibe: Vibe, time: i64)
        requires
            self.wf(),
    {
        let (mut slot, handle) = self.lock.acquire_write();
        slot.write(vibe, time);
        handle.release_write(slot);
    }
}

} // verus!
