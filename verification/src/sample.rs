use vstd::prelude::*;

verus! {

/// Number of channel slots in the canonical wire form.
pub const YTF_LEN: usize = 8;

/// One reading of one sensor: `N` channels of type `M`, tagged with the
/// sensor's id and the time of the reading in microseconds since start-up.
#[derive(Debug, Clone, Copy, PartialEq, Eq)]
pub struct Sample<M, const N: usize> {
    pub sensory: u8,
    pub time: u64,
    pub read: [M; N],
}

/// The canonical reading: the same tag and time, and a fixed row of
/// `YTF_LEN` optional channel values of one common type `V`.
#[derive(Debug, Clone, PartialEq)]
pub struct Ytf<V> {
    pub sensory: u8,
    pub time: u64,
    pub read: [Option<V>; YTF_LEN],
}

/// A slot that holds what `widen` gives for the channel value `m`.
pub open spec fn widened<M, V, F: Fn(M) -> V>(widen: F, m: M, slot: Option<V>) -> bool {
    slot matches Some(v) && call_ensures(widen, (m,), v)
}

/// Whether `ytf` is the canonical form of `sample`: the same sensor and time,
/// each of the `N` channels widened by `widen` in the slot of its own number,
/// read back as it went in, and every slot from `N` on empty.
pub open spec fn is_canonical<M, V, F: Fn(M) -> V, const N: usize>(
    widen: F,
    sample: Sample<M, N>,
    ytf: Ytf<V>,
) -> bool {
    &&& ytf.sensory == sample.sensory
    &&& ytf.time == sample.time
    &&& forall|i: int| 0 <= i < N ==> widened(widen, sample.read[i], #[trigger] ytf.read[i])
    &&& forall|i: int| N <= i < YTF_LEN ==> (#[trigger] ytf.read[i]) is None
}

impl<M: Copy, const N: usize> Sample<M, N> {
    /// Converts the sample into its canonical form. Channel `i` is widened by
    /// `widen` and stored in slot `i`; the slots from `N` on stay empty.
    pub fn into_ytf<V, F: Fn(M) -> V>(self, widen: F) -> (out: Ytf<V>)
        requires
            N <= YTF_LEN,
            forall|i: int| 0 <= i < N ==> call_requires(widen, (#[trigger] self.read[i],)),
        ensures
            is_canonical(widen, self, out),
    {
        let mut slots: [Option<V>; YTF_LEN] = [None, None, None, None, None, None, None, None];
        let mut i: usize = 0;
        while i < N
            invariant
                N <= YTF_LEN,
                i <= N,
                forall|k: int| 0 <= k < N ==> call_requires(widen, (#[trigger] self.read[k],)),
                forall|k: int| 0 <= k < i ==> widened(widen, self.read[k], #[trigger] slots[k]),
                forall|k: int| i <= k < YTF_LEN ==> (#[trigger] slots[k]) is None,
            decreases N - i,
        {
            slots[i] = Some(widen(self.read[i]));
            i += 1;
        }
        Ytf { sensory: self.sensory, time: self.time, read: slots }
    }
}

/// The conversion loses nothing: where `widen` computes the function `w`, the
/// first `N` slots of the canonical form, read back, are the sample's channels
/// widened by `w`, in their order, and the slots from `N` on are empty.
pub proof fn lemma_read_back<M, V, F: Fn(M) -> V, const N: usize>(
    widen: F,
    w: spec_fn(M) -> V,
    sample: Sample<M, N>,
    ytf: Ytf<V>,
)
    requires
        N <= YTF_LEN,
        is_canonical(widen, sample, ytf),
        forall|m: M, v: V| call_ensures(widen, (m,), v) ==> v == w(m),
    ensures
        ytf.sensory == sample.sensory,
        ytf.time == sample.time,
        forall|i: int| 0 <= i < N ==> (#[trigger] ytf.read[i]) == Some(w(sample.read[i])),
        forall|i: int| N <= i < YTF_LEN ==> (#[trigger] ytf.read[i]) is None,
        ytf.read@.subrange(0, N as int) == sample.read@.map_values(|m: M| Some(w(m))),
{
    assert forall|i: int| 0 <= i < N implies (#[trigger] ytf.read[i]) == Some(
        w(sample.read[i]),
    ) by {
        assert(widened(widen, sample.read[i], ytf.read[i]));
    }
    assert(ytf.read@.subrange(0, N as int) =~= sample.read@.map_values(|m: M| Some(w(m))));
}

/// A slot that holds what `f` gives for the value in the slot `from`, and is
/// empty where `from` is.
pub open spec fn mapped<V, W, F: Fn(&V) -> W>(f: F, from: Option<V>, to: Option<W>) -> bool {
    match from {
        Some(v) => to is Some && call_ensures(f, (&v,), to->0),
        None => to is None,
    }
}

/// Whether `to` is the reading `from` with `f` applied to the value of every
/// filled slot.
pub open spec fn maps_to<V, W, F: Fn(&V) -> W>(f: F, from: Ytf<V>, to: Ytf<W>) -> bool {
    &&& to.sensory == from.sensory
    &&& to.time == from.time
    &&& forall|i: int| 0 <= i < YTF_LEN ==> mapped(f, from.read[i], #[trigger] to.read[i])
}

impl<V> Ytf<V> {
    /// The reading with `f` applied to the value of every filled slot: the
    /// same sensor, the same time, the same slots filled.
    pub fn map<W, F: Fn(&V) -> W>(&self, f: F) -> (out: Ytf<W>)
        requires
            forall|i: int|
                0 <= i < YTF_LEN ==> ((#[trigger] self.read[i]) matches Some(v) ==> call_requires(
                    f,
                    (&v,),
                )),
        ensures
            maps_to(f, *self, out),
    {
        let mut slots: [Option<W>; YTF_LEN] = [None, None, None, None, None, None, None, None];
        let mut i: usize = 0;
        while i < YTF_LEN
            invariant
                i <= YTF_LEN,
                forall|k: int|
                    0 <= k < YTF_LEN ==> ((#[trigger] self.read[k]) matches Some(v)
                        ==> call_requires(f, (&v,))),
                forall|k: int| 0 <= k < i ==> mapped(f, self.read[k], #[trigger] slots[k]),
            decreases YTF_LEN - i,
        {
            let slot = match &self.read[i] {
                Some(v) => Some(f(v)),
                None => None,
            };
            slots[i] = slot;
            i += 1;
        }
        Ytf { sensory: self.sensory, time: self.time, read: slots }
    }
}

} // verus!
