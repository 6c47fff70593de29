//! The agent side of replication: count merged frames, say when a batch is
//! due, and reset after a batch was delivered.
use vstd::prelude::*;
use crate::address::IpAddress;
use crate::protocol::{Layer, classification_of};
use crate::store::{CommStore, add_spec, frame_record, seed_spec};

verus! {

/// Number of merged frames after which the agent sends its store.
pub const FLUSH_INTERVAL: u32 = 100;

/// A capture agent: its store, the local addresses it was seeded with, and
/// the frames merged since the last flush.
pub struct Agent {
    pub store: CommStore,
    pub local: Vec<IpAddress>,
    pub pending: u32,
}

impl Agent {
    pub open spec fn wf(&self) -> bool {
        self.store.wf()
    }

    /// A fresh agent: the store in its seed state, nothing pending.
    pub fn new(local: Vec<IpAddress>) -> (r: Agent)
        ensures
            r.wf(),
            r.store@ == seed_spec(local@),
            r.local@ == local@,
            r.pending == 0,
    {
        let store = CommStore::new(&local);
        Agent { store, local, pending: 0 }
    }

    /// Records one dissected frame. Returns whether a flush is now due,
    /// that is whether `FLUSH_INTERVAL` frames have been merged since the
    /// last flush.
    pub fn observe(&mut self, layers: &Vec<Layer>) -> (flush_due: bool)
        requires
            old(self).wf(),
        ensures
            final(self).wf(),
            final(self).local@ == old(self).local@,
            ({
                let rec = frame_record(classification_of(layers@));
                &&& rec is Some ==> final(self).store@ == add_spec(old(self).store@, rec->Some_0)
                    && final(self).pending == old(self).pending.saturating_add(1)
                &&& rec is None ==> final(self).store@ == old(self).store@ && final(self).pending
                    == old(self).pending
            }),
            flush_due == (final(self).pending >= FLUSH_INTERVAL),
    {
        if self.store.record_frame(layers) {
            self.pending = self.pending.saturating_add(1);
        }
        self.pending >= FLUSH_INTERVAL
    }

    /// Ends a flush. After a delivered batch the store goes back to its seed
    /// state; after a failed one it is kept, so that its records go out with
    /// the next batch. Either way the frame count starts again from zero.
    pub fn flushed(&mut self, delivered: bool)
        requires
            old(self).wf(),
        ensures
            final(self).wf(),
            final(self).local@ == old(self).local@,
            final(self).pending == 0,
            delivered ==> final(self).store@ == seed_spec(old(self).local@),
            !delivered ==> final(self).store@ == old(self).store@,
    {
        if delivered {
            self.store = CommStore::new(&self.local);
        }
        self.pending = 0;
    }
}

} // verus!
