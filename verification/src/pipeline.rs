use crate::control::{entered, AppState};
use crate::display::FourLines;
use crate::flags::Flags;
use crate::led::State;
use crate::producer::{Action, Await, Input, OutOfTurn, Phase, Producer};
use crate::queue::{accepts, BoundedQueue};
use crate::sample::{is_canonical, Sample, Ytf, YTF_LEN};
use vstd::prelude::*;

verus! {

/// The tick of the producer with the place `index` among the flags: it reads
/// its recording flag, once, and takes the tick with what it read.
pub fn on_tick<M, const N: usize, const K: usize>(
    producer: &mut Producer,
    index: usize,
    flags: &Flags<K>,
) -> (asked: Result<Action<M, N>, OutOfTurn>)
    requires
        index < K,
    ensures
        *final(producer) == old(producer).react(
            Input::<M, N>::Tick { recording: flags.record()[index as int] },
        ).0,
        match old(producer).react(
            Input::<M, N>::Tick { recording: flags.record()[index as int] },
        ).1 {
            Some(action) => asked == Ok::<Action<M, N>, OutOfTurn>(action),
            None => asked == Err::<Action<M, N>, OutOfTurn>(OutOfTurn),
        },
{
    let recording = flags.is_recording(index);
    producer.step(Input::Tick { recording })
}

/// The arming of the producer with the place `index` among the flags, once its
/// device is up: its ready flag is set, for good, and no other flag changes.
/// A producer in another phase sets nothing.
pub fn arm<const K: usize>(producer: &Producer, index: usize, flags: &mut Flags<K>) -> (armed: bool)
    requires
        index < K,
    ensures
        armed == (producer.phase == Phase::Armed),
        final(flags).record() == old(flags).record(),
        armed ==> final(flags).ready() == old(flags).ready().update(index as int, true),
        !armed ==> final(flags).ready() == old(flags).ready(),
{
    if producer.phase == Phase::Armed {
        flags.set_ready(index);
        true
    } else {
        false
    }
}

/// Why a sample was not taken in. It comes back unchanged.
#[derive(Debug, Clone, Copy, PartialEq, Eq)]
pub enum Undelivered<M, const N: usize> {
    /// The queue is full: the producer waits with the sample in hand.
    Full(Sample<M, N>),
    /// The producer was not about to send.
    OutOfTurn(Sample<M, N>),
}

/// The send of a producer that holds `sample`. A queue with room takes the
/// sample in, in its canonical form and behind all that is there, and the
/// producer goes on to wait for its next tick. A full queue takes nothing: the
/// sample comes back and the producer stays where it is, with its next sample
/// put off until the sink has made room.
pub fn deliver<M: Copy, V, W: Fn(M) -> V, const N: usize, const C: usize>(
    producer: &mut Producer,
    sample: Sample<M, N>,
    widen: W,
    queue: &mut BoundedQueue<Ytf<V>, C>,
) -> (sent: Result<Action<M, N>, Undelivered<M, N>>)
    requires
        N <= YTF_LEN,
        forall|i: int| 0 <= i < N ==> call_requires(widen, (#[trigger] sample.read[i],)),
    ensures
        old(producer).awaits != Await::Send ==> {
            &&& sent == Err::<Action<M, N>, Undelivered<M, N>>(Undelivered::OutOfTurn(sample))
            &&& final(queue)@ == old(queue)@
            &&& *final(producer) == *old(producer)
        },
        old(producer).awaits == Await::Send && !accepts(old(queue)@, C as nat) ==> {
            &&& sent == Err::<Action<M, N>, Undelivered<M, N>>(Undelivered::Full(sample))
            &&& final(queue)@ == old(queue)@
            &&& *final(producer) == *old(producer)
        },
        old(producer).awaits == Await::Send && accepts(old(queue)@, C as nat) ==> {
            &&& sent == Ok::<Action<M, N>, Undelivered<M, N>>(Action::AwaitTick)
            &&& final(queue)@.len() == old(queue)@.len() + 1
            &&& final(queue)@.drop_last() == old(queue)@
            &&& is_canonical(widen, sample, final(queue)@.last())
            &&& *final(producer) == old(producer).react(Input::<M, N>::Sent).0
        },
{
    if producer.awaits != Await::Send {
        Err(Undelivered::OutOfTurn(sample))
    } else if queue.is_full() {
        Err(Undelivered::Full(sample))
    } else {
        let ytf = sample.into_ytf(widen);
        let _ = queue.try_send(ytf);
        assert(queue@.drop_last() =~= old(queue)@);
        let _ = producer.step(Input::<M, N>::Sent);
        Ok(Action::AwaitTick)
    }
}

/// The control task gates every producer: right after `New` or `Ready` was
/// entered, each producer that looks at its flag lets the tick pass, with
/// nothing read and nothing sent, and right after `Record` was entered each
/// one asks for a read.
pub proof fn lemma_state_gates_producers<M, const N: usize, const K: usize>(
    state: AppState,
    before: Flags<K>,
    after: Flags<K>,
    led: Option<State>,
    display: Option<FourLines>,
    producer: Producer,
    index: int,
)
    requires
        entered(state, before, after, led, display),
        0 <= index < K,
        producer.awaits == Await::Tick,
    ensures
        ({
            let tick = Input::<M, N>::Tick { recording: after.record()[index] };
            let (next, asked) = producer.react(tick);
            if state == AppState::Record {
                asked == Some(Action::<M, N>::Read { delay_ms: 0 }) && next.phase == Phase::Sampling
            } else {
                asked == Some(Action::<M, N>::AwaitTick) && next.phase == Phase::Idle
            }
        }),
{
}

} // verus!
