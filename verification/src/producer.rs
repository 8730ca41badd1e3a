use crate::display::{diagnostic_text, shows_only, FourLines, OneLine};
use crate::sample::Sample;
use vstd::prelude::*;

verus! {

/// Where a producer task stands: it brings its device up (`Init`), is armed
/// once the device is up (`Armed`), and from the first tick on either samples
/// (`Sampling`) or lets the ticks pass (`Idle`), as the recording flag says. A
/// producer stops (`Stopped`) only where its device never came up.
#[derive(Debug, Clone, Copy, PartialEq, Eq, Structural)]
pub enum Phase {
    Init,
    Armed,
    Sampling,
    Idle,
    Stopped,
}

/// The outside work that a producer is waiting for.
#[derive(Debug, Clone, Copy, PartialEq, Eq, Structural)]
pub enum Await {
    Bringup,
    Tick,
    Read,
    Send,
    Nothing,
}

/// How a bring-up failed: for good, or in a way that another attempt may mend.
/// Which of the two a failure is, is for the sensor's driver to say.
#[derive(Debug, Clone, Copy, PartialEq, Eq, Structural)]
pub enum Fault {
    Permanent,
    Transient,
}

/// What went wrong at a sensor.
#[derive(Debug, Clone, Copy, PartialEq, Eq, Structural)]
pub enum SensoryError {
    /// The device did not come up. The task ends.
    Init,
    /// One read failed. This tick has no sample.
    Read,
    /// The shared bus had no controller assigned, as often as it was tried.
    /// This tick has no sample.
    BusUnavailable,
}

/// The limits of a producer's patience.
#[derive(Debug, Clone, Copy, PartialEq, Eq)]
pub struct Policy {
    /// Number of bring-up attempts before the task gives up.
    pub attempts: u8,
    /// Delay before the second bring-up attempt, in milliseconds. It doubles
    /// with every further attempt.
    pub backoff_ms: u64,
    /// The longest delay before a bring-up attempt, in milliseconds.
    pub backoff_cap_ms: u64,
    /// Number of times that a read is tried again within one tick where the
    /// bus has no controller.
    pub bus_retries: u8,
    /// Delay before a read is tried again, in milliseconds.
    pub bus_retry_ms: u64,
}

/// The state of one producer task.
#[derive(Debug, Clone, Copy, PartialEq, Eq)]
pub struct Producer {
    /// The id that the task's samples carry.
    pub sensory: u8,
    pub policy: Policy,
    pub phase: Phase,
    pub awaits: Await,
    /// Number of the bring-up attempt under way, from 1.
    pub attempt: u8,
    /// Number of reads tried again in this tick.
    pub retry: u8,
}

/// What the outside reports back to a producer.
#[derive(Debug, Clone, Copy, PartialEq, Eq)]
pub enum Input<M, const N: usize> {
    /// The device is up.
    InitOk,
    /// The device did not come up.
    InitFailed(Fault),
    /// The next period has begun, and the recording flag was read as this.
    Tick { recording: bool },
    /// The device was read at `time`.
    ReadOk { time: u64, read: [M; N] },
    /// The read failed. The bus is free again.
    ReadFailed,
    /// The shared bus has no controller.
    BusUnavailable,
    /// The queue has taken the sample.
    Sent,
}

/// What a producer asks the outside to do next.
#[derive(Debug, Clone, Copy, PartialEq, Eq)]
pub enum Action<M, const N: usize> {
    /// Wait for `delay_ms`, then bring the device up.
    Bringup { delay_ms: u64 },
    /// Set the ready flag, then wait for the next tick.
    Arm,
    /// Wait for the next tick.
    AwaitTick,
    /// Wait for `delay_ms`, then read the device, holding the shared bus for
    /// the read alone.
    Read { delay_ms: u64 },
    /// Send the sample to the queue, waiting for room if need be.
    Send(Sample<M, N>),
    /// Report the error, then wait for the next tick.
    Skip(SensoryError),
    /// Report the error and end the task.
    Fail(SensoryError),
}

/// An input that the producer was not waiting for. It changes nothing.
#[derive(Debug, Clone, Copy, PartialEq, Eq)]
pub struct OutOfTurn;

/// The text that reports an error on the display.
pub open spec fn diagnostic_caption(error: SensoryError) -> Seq<char> {
    match error {
        SensoryError::Init => "Init failed"@,
        SensoryError::Read => "Read failed"@,
        SensoryError::BusUnavailable => "Bus unavailable"@,
    }
}

/// The display text that reports `error`: its caption in the bottom line.
pub fn diagnostic(error: SensoryError) -> (text: FourLines)
    ensures
        shows_only(text, 3, diagnostic_caption(error)),
{
    proof {
        reveal_strlit("Init failed");
        reveal_strlit("Read failed");
        reveal_strlit("Bus unavailable");
    }
    let caption = match error {
        SensoryError::Init => {
            assert(vstd::string::is_ascii("Init failed"));
            OneLine::new("Init failed")
        },
        SensoryError::Read => {
            assert(vstd::string::is_ascii("Read failed"));
            OneLine::new("Read failed")
        },
        SensoryError::BusUnavailable => {
            assert(vstd::string::is_ascii("Bus unavailable"));
            OneLine::new("Bus unavailable")
        },
    };
    diagnostic_text(caption.unwrap())
}

/// The smaller of two numbers.
pub open spec fn least(a: nat, b: nat) -> nat {
    if a <= b {
        a
    } else {
        b
    }
}

/// The delay before a bring-up attempt that follows `failed` failed ones:
/// `base` after the first failure, twice the last delay after each further
/// one, and never more than `cap`.
pub open spec fn backoff(base: nat, cap: nat, failed: nat) -> nat
    decreases failed,
{
    if failed <= 1 {
        least(base, cap)
    } else {
        least(2 * backoff(base, cap, (failed - 1) as nat), cap)
    }
}

/// Computes `backoff`.
pub fn backoff_ms(base: u64, cap: u64, failed: u8) -> (delay: u64)
    ensures
        delay == backoff(base as nat, cap as nat, failed as nat),
        delay <= cap,
{
    let mut delay = if base <= cap {
        base
    } else {
        cap
    };
    let mut k: u8 = 1;
    while k < failed
        invariant
            1 <= k,
            k <= failed || k == 1,
            delay == backoff(base as nat, cap as nat, k as nat),
            delay <= cap,
        decreases failed - k,
    {
        delay = if delay > cap / 2 {
            cap
        } else {
            delay * 2
        };
        k = k + 1;
    }
    assert(backoff(base as nat, cap as nat, 0) == backoff(base as nat, cap as nat, 1));
    delay
}

impl Producer {
    /// Whether the fields fit together: each phase waits for its own kind of
    /// outside work.
    pub open spec fn wf(self) -> bool {
        match self.phase {
            Phase::Init => self.awaits == Await::Bringup && 1 <= self.attempt,
            Phase::Armed => self.awaits == Await::Tick,
            Phase::Idle => self.awaits == Await::Tick,
            Phase::Sampling => self.awaits == Await::Tick || self.awaits == Await::Read
                || self.awaits == Await::Send,
            Phase::Stopped => self.awaits == Await::Nothing,
        }
    }

    /// The same producer in another phase.
    pub open spec fn at(self, phase: Phase, awaits: Await) -> Producer {
        Producer { phase, awaits, ..self }
    }

    /// The producer's answer to an input: its next state, and the action it
    /// asks for, or no action where it was not waiting for this input.
    ///
    /// - Bring-up: success arms the task. A permanent failure ends it. A
    ///   transient one is tried again after a delay that grows up to a limit,
    ///   until the attempts are used up, which ends the task too.
    /// - Tick: with the recording flag down the tick is let pass, with nothing
    ///   read and nothing sent. With the flag up one read is asked for.
    /// - Read: a reading becomes one sample with the task's id and is sent. A
    ///   failed read costs this tick's sample and nothing else. A bus without
    ///   controller is tried again a few times, then the tick is given up.
    /// - Send: once the queue has the sample the next tick is awaited.
    pub open spec fn react<M, const N: usize>(self, input: Input<M, N>) -> (
        Producer,
        Option<Action<M, N>>,
    ) {
        match (self.awaits, input) {
            (Await::Bringup, Input::InitOk) => (
                self.at(Phase::Armed, Await::Tick),
                Some(Action::Arm),
            ),
            (Await::Bringup, Input::InitFailed(fault)) => if fault == Fault::Transient
                && self.attempt < self.policy.attempts {
                (
                    Producer { attempt: (self.attempt + 1) as u8, ..self },
                    Some(
                        Action::Bringup {
                            delay_ms: backoff(
                                self.policy.backoff_ms as nat,
                                self.policy.backoff_cap_ms as nat,
                                self.attempt as nat,
                            ) as u64,
                        },
                    ),
                )
            } else {
                (self.at(Phase::Stopped, Await::Nothing), Some(Action::Fail(SensoryError::Init)))
            },
            (Await::Tick, Input::Tick { recording }) => if recording {
                (
                    Producer { retry: 0, ..self.at(Phase::Sampling, Await::Read) },
                    Some(Action::Read { delay_ms: 0 }),
                )
            } else {
                (self.at(Phase::Idle, Await::Tick), Some(Action::AwaitTick))
            },
            (Await::Read, Input::ReadOk { time, read }) => (
                self.at(Phase::Sampling, Await::Send),
                Some(Action::Send(Sample { sensory: self.sensory, time, read })),
            ),
            (Await::Read, Input::ReadFailed) => (
                self.at(Phase::Sampling, Await::Tick),
                Some(Action::Skip(SensoryError::Read)),
            ),
            (Await::Read, Input::BusUnavailable) => if self.retry < self.policy.bus_retries {
                (
                    Producer { retry: (self.retry + 1) as u8, ..self },
                    Some(Action::Read { delay_ms: self.policy.bus_retry_ms }),
                )
            } else {
                (
                    self.at(Phase::Sampling, Await::Tick),
                    Some(Action::Skip(SensoryError::BusUnavailable)),
                )
            },
            (Await::Send, Input::Sent) => (
                self.at(Phase::Sampling, Await::Tick),
                Some(Action::AwaitTick),
            ),
            _ => (self, None),
        }
    }

    /// A new producer for the sensor `sensory`, about to bring its device up
    /// for the first time, and the action that does so.
    pub fn spawn<M, const N: usize>(sensory: u8, policy: Policy) -> (started: (
        Producer,
        Action<M, N>,
    ))
        ensures
            started.0 == (Producer {
                sensory,
                policy,
                phase: Phase::Init,
                awaits: Await::Bringup,
                attempt: 1,
                retry: 0,
            }),
            started.0.wf(),
            started.1 == (Action::<M, N>::Bringup { delay_ms: 0 }),
    {
        (
            Producer {
                sensory,
                policy,
                phase: Phase::Init,
                awaits: Await::Bringup,
                attempt: 1,
                retry: 0,
            },
            Action::Bringup { delay_ms: 0 },
        )
    }

    /// Takes one input and says what to do next. An input that the producer
    /// was not waiting for is refused and changes nothing.
    pub fn step<M, const N: usize>(&mut self, input: Input<M, N>) -> (asked: Result<
        Action<M, N>,
        OutOfTurn,
    >)
        ensures
            *final(self) == old(self).react(input).0,
            match old(self).react(input).1 {
                Some(action) => asked == Ok::<Action<M, N>, OutOfTurn>(action),
                None => asked == Err::<Action<M, N>, OutOfTurn>(OutOfTurn),
            },
            old(self).wf() ==> final(self).wf(),
    {
        match self.awaits {
            Await::Bringup => match input {
                Input::InitOk => {
                    self.phase = Phase::Armed;
                    self.awaits = Await::Tick;
                    Ok(Action::Arm)
                },
                Input::InitFailed(fault) => {
                    let again = match fault {
                        Fault::Transient => self.attempt < self.policy.attempts,
                        Fault::Permanent => false,
                    };
                    if again {
                        let delay_ms = backoff_ms(
                            self.policy.backoff_ms,
                            self.policy.backoff_cap_ms,
                            self.attempt,
                        );
                        self.attempt = self.attempt + 1;
                        Ok(Action::Bringup { delay_ms })
                    } else {
                        self.phase = Phase::Stopped;
                        self.awaits = Await::Nothing;
                        Ok(Action::Fail(SensoryError::Init))
                    }
                },
                _ => Err(OutOfTurn),
            },
            Await::Tick => match input {
                Input::Tick { recording } => {
                    if recording {
                        self.phase = Phase::Sampling;
                        self.awaits = Await::Read;
                        self.retry = 0;
                        Ok(Action::Read { delay_ms: 0 })
                    } else {
                        self.phase = Phase::Idle;
                        Ok(Action::AwaitTick)
                    }
                },
                _ => Err(OutOfTurn),
            },
            Await::Read => match input {
                Input::ReadOk { time, read } => {
                    self.phase = Phase::Sampling;
                    self.awaits = Await::Send;
                    Ok(Action::Send(Sample { sensory: self.sensory, time, read }))
                },
                Input::ReadFailed => {
                    self.phase = Phase::Sampling;
                    self.awaits = Await::Tick;
                    Ok(Action::Skip(SensoryError::Read))
                },
                Input::BusUnavailable => {
                    if self.retry < self.policy.bus_retries {
                        self.retry = self.retry + 1;
                        Ok(Action::Read { delay_ms: self.policy.bus_retry_ms })
                    } else {
                        self.phase = Phase::Sampling;
                        self.awaits = Await::Tick;
                        Ok(Action::Skip(SensoryError::BusUnavailable))
                    }
                },
                _ => Err(OutOfTurn),
            },
            Await::Send => match input {
                Input::Sent => {
                    self.phase = Phase::Sampling;
                    self.awaits = Await::Tick;
                    Ok(Action::AwaitTick)
                },
                _ => Err(OutOfTurn),
            },
            Await::Nothing => Err(OutOfTurn),
        }
    }
}

/// Whether an answer asks for a sample to be sent.
pub open spec fn is_send<M, const N: usize>(asked: Option<Action<M, N>>) -> bool {
    asked matches Some(Action::Send(_))
}

/// Whether an answer asks for the device to be read.
pub open spec fn is_read<M, const N: usize>(asked: Option<Action<M, N>>) -> bool {
    asked matches Some(Action::Read { .. })
}

/// Whether an input is a tick with the recording flag up.
pub open spec fn is_recording_tick<M, const N: usize>(input: Input<M, N>) -> bool {
    input matches Input::Tick { recording } && recording
}

/// The producer after it has taken `inputs`, one after the other.
pub open spec fn run<M, const N: usize>(producer: Producer, inputs: Seq<Input<M, N>>) -> Producer
    decreases inputs.len(),
{
    if inputs.len() == 0 {
        producer
    } else {
        run(producer, inputs.drop_last()).react(inputs.last()).0
    }
}

/// The number of samples that the producer asks to send while it takes
/// `inputs`.
pub open spec fn samples_sent<M, const N: usize>(
    producer: Producer,
    inputs: Seq<Input<M, N>>,
) -> nat
    decreases inputs.len(),
{
    if inputs.len() == 0 {
        0
    } else {
        let before = run(producer, inputs.drop_last());
        let sent = samples_sent(producer, inputs.drop_last());
        if is_send(before.react(inputs.last()).1) {
            sent + 1
        } else {
            sent
        }
    }
}

/// The number of ticks among `inputs` at which the recording flag was up.
pub open spec fn recording_ticks<M, const N: usize>(inputs: Seq<Input<M, N>>) -> nat
    decreases inputs.len(),
{
    if inputs.len() == 0 {
        0
    } else if is_recording_tick(inputs.last()) {
        recording_ticks(inputs.drop_last()) + 1
    } else {
        recording_ticks(inputs.drop_last())
    }
}

/// A tick with the recording flag down is let pass: the producer, wherever in
/// its tick loop it stands, asks for no read and for no send, goes idle and
/// waits for the next tick. The ticking itself goes on.
pub proof fn lemma_flag_gates_sampling<M, const N: usize>(producer: Producer)
    requires
        producer.awaits == Await::Tick,
    ensures
        ({
            let (next, asked) = producer.react(Input::<M, N>::Tick { recording: false });
            &&& asked == Some(Action::<M, N>::AwaitTick)
            &&& next.phase == Phase::Idle
            &&& next.awaits == Await::Tick
        }),
{
}

/// A tick with the recording flag up gives exactly one sample before the flag
/// is looked at again: the tick asks for one read, the reading is sent as one
/// sample with the producer's id, the time and the channels of the reading, and
/// once it is sent the producer waits for the next tick.
pub proof fn lemma_one_sample_per_tick<M, const N: usize>(
    producer: Producer,
    time: u64,
    read: [M; N],
)
    requires
        producer.awaits == Await::Tick,
    ensures
        ({
            let (reading, first) = producer.react(Input::<M, N>::Tick { recording: true });
            let (sending, second) = reading.react(Input::<M, N>::ReadOk { time, read });
            let (waiting, third) = sending.react(Input::<M, N>::Sent);
            &&& first == Some(Action::<M, N>::Read { delay_ms: 0 })
            &&& second == Some(Action::Send(Sample { sensory: producer.sensory, time, read }))
            &&& third == Some(Action::<M, N>::AwaitTick)
            &&& reading.phase == Phase::Sampling
            &&& waiting.phase == Phase::Sampling
            &&& waiting.awaits == Await::Tick
        }),
{
}

/// A read that fails costs its own tick's sample and nothing more: nothing is
/// sent, and the producer is back in its tick loop.
pub proof fn lemma_failed_read_is_skipped<M, const N: usize>(producer: Producer)
    requires
        producer.awaits == Await::Read,
    ensures
        ({
            let (next, asked) = producer.react(Input::<M, N>::ReadFailed);
            &&& asked == Some(Action::<M, N>::Skip(SensoryError::Read))
            &&& next.awaits == Await::Tick
            &&& next.phase == Phase::Sampling
        }),
{
}

/// Nothing but a reading is ever sent: a producer asks for a send only in
/// answer to a read that succeeded, and the sample then carries that reading
/// whole, with the time of the read and the producer's own id. A failed read
/// and a bus without controller put nothing into the data path.
pub proof fn lemma_only_readings_are_sent<M, const N: usize>(
    producer: Producer,
    input: Input<M, N>,
)
    requires
        is_send(producer.react(input).1),
    ensures
        producer.awaits == Await::Read,
        input is ReadOk,
        producer.react(input).1 == Some(
            Action::Send(
                Sample { sensory: producer.sensory, time: input->time, read: input->read },
            ),
        ),
{
}

/// Whatever a producer is fed, it never sends more samples than there were
/// ticks with the recording flag up: each such tick pays for one read, and
/// each read for at most one sample.
pub proof fn lemma_samples_need_recording_ticks<M, const N: usize>(
    producer: Producer,
    inputs: Seq<Input<M, N>>,
)
    requires
        producer.awaits != Await::Read,
    ensures
        samples_sent(producer, inputs) <= recording_ticks(inputs),
        run(producer, inputs).awaits == Await::Read ==> samples_sent(producer, inputs)
            < recording_ticks(inputs),
    decreases inputs.len(),
{
    if inputs.len() > 0 {
        lemma_samples_need_recording_ticks(producer, inputs.drop_last());
    }
}

/// While the recording flag stays down no sample is sent, however many ticks
/// pass.
pub proof fn lemma_idle_sends_nothing<M, const N: usize>(
    producer: Producer,
    inputs: Seq<Input<M, N>>,
)
    requires
        producer.awaits != Await::Read,
        forall|i: int| 0 <= i < inputs.len() ==> !is_recording_tick(#[trigger] inputs[i]),
    ensures
        samples_sent(producer, inputs) == 0,
    decreases inputs.len(),
{
    lemma_samples_need_recording_ticks(producer, inputs);
    lemma_no_recording_ticks(inputs);
}

/// A row of inputs without a recording tick counts none.
proof fn lemma_no_recording_ticks<M, const N: usize>(inputs: Seq<Input<M, N>>)
    requires
        forall|i: int| 0 <= i < inputs.len() ==> !is_recording_tick(#[trigger] inputs[i]),
    ensures
        recording_ticks(inputs) == 0,
    decreases inputs.len(),
{
    if inputs.len() > 0 {
        lemma_no_recording_ticks(inputs.drop_last());
    }
}

/// A producer that took its inputs in turn stays well-formed.
pub proof fn lemma_run_keeps_wf<M, const N: usize>(producer: Producer, inputs: Seq<Input<M, N>>)
    requires
        producer.wf(),
    ensures
        run(producer, inputs).wf(),
    decreases inputs.len(),
{
    if inputs.len() > 0 {
        lemma_run_keeps_wf(producer, inputs.drop_last());
    }
}

} // verus!
