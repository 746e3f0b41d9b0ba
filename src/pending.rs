//! The bounded queue of voice commands between the threads that trigger
//! notes and the audio callback that admits them.

use vstd::prelude::*;

use crate::voice::VoiceCommand;

verus! {

/// Commands waiting for admission, oldest first. A command that finds the
/// queue full is dropped and counted, so that neither side ever waits on
/// the other and the callback's work per buffer stays bounded.
pub struct PendingQueue {
    items: Vec<VoiceCommand>,
    capacity: usize,
    dropped: u64,
}

impl PendingQueue {
    pub closed spec fn items(&self) -> Seq<VoiceCommand> {
        self.items@
    }

    pub closed spec fn capacity_spec(&self) -> nat {
        self.capacity as nat
    }

    pub closed spec fn dropped_spec(&self) -> nat {
        self.dropped as nat
    }

    /// The queue holds at most its capacity, and only commands that can be
    /// admitted.
    pub open spec fn wf(&self) -> bool {
        &&& 0 < self.capacity_spec()
        &&& self.items().len() <= self.capacity_spec()
        &&& forall|i: int| 0 <= i < self.items().len() ==> (#[trigger] self.items()[i]).valid()
    }

    /// An empty queue that holds up to `capacity` commands.
    pub fn new(capacity: usize) -> (r: PendingQueue)
        requires
            capacity > 0,
        ensures
            r.wf(),
            r.items() == Seq::<VoiceCommand>::empty(),
            r.capacity_spec() == capacity,
            r.dropped_spec() == 0,
    {
        PendingQueue { items: Vec::with_capacity(capacity), capacity, dropped: 0 }
    }

    /// Enqueues `cmd` if there is room, else drops it and counts the drop
    /// (the count stops at its largest value). Returns whether it was
    /// enqueued.
    pub fn push(&mut self, cmd: VoiceCommand) -> (accepted: bool)
        requires
            old(self).wf(),
            cmd.valid(),
        ensures
            final(self).wf(),
            final(self).capacity_spec() == old(self).capacity_spec(),
            accepted == (old(self).items().len() < old(self).capacity_spec()),
            accepted ==> final(self).items() == old(self).items().push(cmd),
            accepted ==> final(self).dropped_spec() == old(self).dropped_spec(),
            !accepted ==> final(self).items() == old(self).items(),
            !accepted ==> final(self).dropped_spec() == if old(self).dropped_spec() < u64::MAX {
                old(self).dropped_spec() + 1
            } else {
                old(self).dropped_spec()
            },
    {
        if self.items.len() < self.capacity {
            self.items.push(cmd);
            true
        } else {
            self.dropped = self.dropped.saturating_add(1);
            false
        }
    }

    /// Enqueues a pluck of `pitch_cents` with noise seed `seed` at
    /// `sample_rate`: it starts at once, lasts five seconds, and fades in
    /// over 20 ms and out over 200 ms. Returns whether it was enqueued.
    pub fn trigger(&mut self, pitch_cents: i32, seed: u64, sample_rate: u32) -> (accepted: bool)
        requires
            old(self).wf(),
            sample_rate > 0,
        ensures
            final(self).wf(),
            final(self).capacity_spec() == old(self).capacity_spec(),
            accepted == (old(self).items().len() < old(self).capacity_spec()),
            accepted ==> final(self).items() == old(self).items().push(
                VoiceCommand::pluck_spec(pitch_cents, seed, sample_rate),
            ),
            accepted ==> final(self).dropped_spec() == old(self).dropped_spec(),
            !accepted ==> final(self).items() == old(self).items(),
            !accepted ==> final(self).dropped_spec() == if old(self).dropped_spec() < u64::MAX {
                old(self).dropped_spec() + 1
            } else {
                old(self).dropped_spec()
            },
    {
        let cmd = VoiceCommand::pluck(pitch_cents, seed, sample_rate);
        self.push(cmd)
    }

    /// Number of waiting commands.
    pub fn len(&self) -> (r: usize)
        ensures
            r == self.items().len(),
    {
        self.items.len()
    }

    /// Whether no command waits.
    pub fn is_empty(&self) -> (r: bool)
        ensures
            r == (self.items().len() == 0),
    {
        self.items.len() == 0
    }

    /// Most commands the queue holds.
    pub fn capacity(&self) -> (r: usize)
        ensures
            r == self.capacity_spec(),
    {
        self.capacity
    }

    /// Number of commands dropped because the queue was full.
    pub fn dropped(&self) -> (r: u64)
        ensures
            r == self.dropped_spec(),
    {
        self.dropped
    }

    /// The command at position `i`, oldest first.
    pub fn command(&self, i: usize) -> (r: VoiceCommand)
        requires
            i < self.items().len(),
        ensures
            r == self.items()[i as int],
    {
        self.items[i]
    }

    /// Removes every waiting command.
    pub fn clear(&mut self)
        requires
            old(self).wf(),
        ensures
            final(self).wf(),
            final(self).items() == Seq::<VoiceCommand>::empty(),
            final(self).capacity_spec() == old(self).capacity_spec(),
            final(self).dropped_spec() == old(self).dropped_spec(),
    {
        self.items.clear();
    }
}

} // verus!
