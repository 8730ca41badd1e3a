use vstd::prelude::*;

verus! {

/// The flags that the tasks share, for a build with `K` producers. Producer
/// `i` has the recording flag `i`, which tells it whether to sample, and the
/// ready flag `i`, which it sets itself once its device is up.
///
/// The recording flags are written by the control task alone and read by each
/// producer once per tick. A ready flag is a latch: nothing clears it.
#[derive(Debug, Clone, Copy, PartialEq, Eq)]
pub struct Flags<const K: usize> {
    record: [bool; K],
    ready: [bool; K],
}

impl<const K: usize> Flags<K> {
    /// The recording flags, by producer.
    pub closed spec fn record(&self) -> Seq<bool> {
        self.record@
    }

    /// The ready flags, by producer.
    pub closed spec fn ready(&self) -> Seq<bool> {
        self.ready@
    }

    /// Flags at start-up: producer `i` is armed where `armed[i]` says so, and
    /// no producer is ready.
    pub fn new(armed: [bool; K]) -> (flags: Self)
        ensures
            flags.record() == armed@,
            flags.ready() == Seq::new(K as nat, |i: int| false),
    {
        let flags = Flags { record: armed, ready: [false;K] };
        assert(flags.ready@ =~= Seq::new(K as nat, |i: int| false));
        flags
    }

    /// Whether producer `producer` is to sample.
    pub fn is_recording(&self, producer: usize) -> (recording: bool)
        requires
            producer < K,
        ensures
            recording == self.record()[producer as int],
    {
        self.record[producer]
    }

    /// Whether the device of producer `producer` is up.
    pub fn is_ready(&self, producer: usize) -> (ready: bool)
        requires
            producer < K,
        ensures
            ready == self.ready()[producer as int],
    {
        self.ready[producer]
    }

    /// The control task's write: every recording flag becomes `recording`.
    /// The ready flags are not touched.
    pub fn set_recording(&mut self, recording: bool)
        ensures
            final(self).record() == Seq::new(K as nat, |i: int| recording),
            final(self).ready() == old(self).ready(),
    {
        self.record = [recording;K];
        assert(self.record@ =~= Seq::new(K as nat, |i: int| recording));
    }

    /// A producer's write: its ready flag is set, and stays set. All other
    /// flags are not touched.
    pub fn set_ready(&mut self, producer: usize)
        requires
            producer < K,
        ensures
            final(self).ready() == old(self).ready().update(producer as int, true),
            final(self).record() == old(self).record(),
    {
        self.ready[producer] = true;
    }
}

/// Every recording flag of `flags` has the value `recording`.
pub open spec fn all_recording<const K: usize>(flags: Flags<K>, recording: bool) -> bool {
    flags.record() == Seq::new(K as nat, |i: int| recording)
}

} // verus!
