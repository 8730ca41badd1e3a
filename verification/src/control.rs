use crate::button::Event;
use crate::display::{shows_only, status_text, FourLines, OneLine};
use crate::flags::{all_recording, Flags};
use crate::led::State;
use crate::mailbox::Mailbox;
use vstd::prelude::*;

verus! {

/// The states of the application. The control task owns the current one and
/// hands out copies only.
#[derive(Debug, Clone, Copy, PartialEq, Eq, Structural)]
pub enum AppState {
    New,
    Ready,
    Record,
}

/// The transition table: a short press goes from `New` to `Ready` and then
/// back and forth between `Ready` and `Record`; a long press goes to `New`
/// from everywhere. The raw press, which comes before either, moves nothing.
pub open spec fn next_state(state: AppState, event: Event) -> AppState {
    match event {
        Event::Press => state,
        Event::Long => AppState::New,
        Event::Short => match state {
            AppState::New => AppState::Ready,
            AppState::Ready => AppState::Record,
            AppState::Record => AppState::Ready,
        },
    }
}

/// What the status light shows in a state.
pub open spec fn led_of(state: AppState) -> State {
    match state {
        AppState::New => State::Vibrate,
        AppState::Ready => State::Blink,
        AppState::Record => State::Steady,
    }
}

/// The sampling policy of a state: producers sample in `Record` and nowhere
/// else. In `Ready` they are paused with their devices up.
pub open spec fn records_in(state: AppState) -> bool {
    state == AppState::Record
}

/// The status text of a state.
pub open spec fn caption_of(state: AppState) -> Seq<char> {
    match state {
        AppState::New => "New"@,
        AppState::Ready => "Ready"@,
        AppState::Record => "Record"@,
    }
}

/// What entering a state does to the rest of the system: the intent for the
/// status light, the value written to every recording flag, and the status
/// text for the display.
pub struct Effects {
    pub led: State,
    pub record: bool,
    pub text: FourLines,
}

/// The effects of entering `state`, and of nothing else.
pub open spec fn enters(effects: Effects, state: AppState) -> bool {
    &&& effects.led == led_of(state)
    &&& effects.record == records_in(state)
    &&& shows_only(effects.text, 0, caption_of(state))
}

/// The answer to an event: the state after it, and the effects to perform
/// where the state has changed.
pub struct Step {
    pub next: AppState,
    pub effects: Option<Effects>,
}

/// Whether `step` is the answer to `event` in `state`: an event that leaves the
/// state as it is has no effect at all, and every other one has the effects of
/// entering the new state.
pub open spec fn answers(step: Step, state: AppState, event: Event) -> bool {
    &&& step.next == next_state(state, event)
    &&& step.next == state ==> step.effects is None
    &&& step.next != state ==> step.effects is Some && enters(step.effects->0, step.next)
}

/// The state that follows `state` on `event`.
pub fn transition(state: AppState, event: Event) -> (next: AppState)
    ensures
        next == next_state(state, event),
{
    match event {
        Event::Press => state,
        Event::Long => AppState::New,
        Event::Short => match state {
            AppState::New => AppState::Ready,
            AppState::Ready => AppState::Record,
            AppState::Record => AppState::Ready,
        },
    }
}

/// The effects of entering `state`.
pub fn entering(state: AppState) -> (effects: Effects)
    ensures
        enters(effects, state),
{
    proof {
        reveal_strlit("New");
        reveal_strlit("Ready");
        reveal_strlit("Record");
    }
    let (led, record, caption) = match state {
        AppState::New => {
            assert(vstd::string::is_ascii("New"));
            (State::Vibrate, false, OneLine::new("New"))
        },
        AppState::Ready => {
            assert(vstd::string::is_ascii("Ready"));
            (State::Blink, false, OneLine::new("Ready"))
        },
        AppState::Record => {
            assert(vstd::string::is_ascii("Record"));
            (State::Steady, true, OneLine::new("Record"))
        },
    };
    Effects { led, record, text: status_text(caption.unwrap()) }
}

/// The control task's decision on one event: the next state, and what to do
/// about it. The caller performs the effects, all of them, before it takes the
/// next event.
pub fn plan(state: AppState, event: Event) -> (step: Step)
    ensures
        answers(step, state, event),
{
    let next = transition(state, event);
    if next == state {
        Step { next, effects: None }
    } else {
        Step { next, effects: Some(entering(next)) }
    }
}

/// The control task: the state machine that the button drives. It is the only
/// writer of the recording flags and of the two mailboxes of the user
/// interface.
pub struct ControlTask {
    state: AppState,
}

impl View for ControlTask {
    type V = AppState;

    /// The current state.
    closed spec fn view(&self) -> AppState {
        self.state
    }
}

impl ControlTask {
    /// Starts the task in `New` and performs the effects of entering it.
    pub fn start<const K: usize>(
        flags: &mut Flags<K>,
        led: &mut Mailbox<State>,
        display: &mut Mailbox<FourLines>,
    ) -> (task: ControlTask)
        ensures
            task@ == AppState::New,
            entered(AppState::New, *old(flags), *final(flags), final(led)@, final(display)@),
    {
        let task = ControlTask { state: AppState::New };
        perform(entering(AppState::New), Ghost(AppState::New), flags, led, display);
        task
    }

    /// A copy of the current state.
    pub fn state(&self) -> (state: AppState)
        ensures
            state == self@,
    {
        self.state
    }

    /// Takes one event. Where the event changes the state, the new state's
    /// effects are performed: the intent for the status light and the status
    /// text are published, and every recording flag is written. Where the
    /// state stays, nothing at all is written.
    pub fn handle<const K: usize>(
        &mut self,
        event: Event,
        flags: &mut Flags<K>,
        led: &mut Mailbox<State>,
        display: &mut Mailbox<FourLines>,
    )
        ensures
            final(self)@ == next_state(old(self)@, event),
            final(self)@ == old(self)@ ==> {
                &&& *final(flags) == *old(flags)
                &&& final(led)@ == old(led)@
                &&& final(display)@ == old(display)@
            },
            final(self)@ != old(self)@ ==> entered(
                final(self)@,
                *old(flags),
                *final(flags),
                final(led)@,
                final(display)@,
            ),
    {
        let step = plan(self.state, event);
        self.state = step.next;
        match step.effects {
            Some(effects) => {
                perform(effects, Ghost(step.next), flags, led, display);
            },
            None => {},
        }
    }
}

/// The system right after `state` was entered: every recording flag has the
/// value that the state's policy gives, the ready flags are as before, the
/// light's mailbox holds the state's intent and the display's mailbox holds
/// its status text.
pub open spec fn entered<const K: usize>(
    state: AppState,
    before: Flags<K>,
    after: Flags<K>,
    led: Option<State>,
    display: Option<FourLines>,
) -> bool {
    &&& all_recording(after, records_in(state))
    &&& after.ready() == before.ready()
    &&& led == Some(led_of(state))
    &&& display is Some
    &&& shows_only(display->0, 0, caption_of(state))
}

/// Performs the effects of entering a state.
fn perform<const K: usize>(
    effects: Effects,
    Ghost(state): Ghost<AppState>,
    flags: &mut Flags<K>,
    led: &mut Mailbox<State>,
    display: &mut Mailbox<FourLines>,
)
    requires
        enters(effects, state),
    ensures
        entered(state, *old(flags), *final(flags), final(led)@, final(display)@),
{
    led.publish(effects.led);
    flags.set_recording(effects.record);
    display.publish(effects.text);
}

/// The transition table is total, and these are its entries.
pub proof fn lemma_transition_table()
    ensures
        next_state(AppState::New, Event::Short) == AppState::Ready,
        next_state(AppState::Ready, Event::Short) == AppState::Record,
        next_state(AppState::Record, Event::Short) == AppState::Ready,
        forall|state: AppState| #[trigger] next_state(state, Event::Long) == AppState::New,
        forall|state: AppState| #[trigger] next_state(state, Event::Press) == state,
        forall|state: AppState, event: Event|
            {
                let next = #[trigger] next_state(state, event);
                next == AppState::New || next == AppState::Ready || next == AppState::Record
            },
{
}

/// What a transition does depends on the state it enters and on nothing else:
/// two steps into the same state, from whatever states and on whatever events,
/// ask for the same light, the same flag value and the same status text.
pub proof fn lemma_effects_by_target(
    first: Step,
    from_first: AppState,
    on_first: Event,
    second: Step,
    from_second: AppState,
    on_second: Event,
)
    requires
        answers(first, from_first, on_first),
        answers(second, from_second, on_second),
        first.next != from_first,
        second.next != from_second,
        first.next == second.next,
    ensures
        first.effects is Some,
        second.effects is Some,
        first.effects->0.led == second.effects->0.led,
        first.effects->0.record == second.effects->0.record,
        shows_only(first.effects->0.text, 0, caption_of(first.next)),
        shows_only(second.effects->0.text, 0, caption_of(first.next)),
{
}

/// Entering a state writes the recording flags outright: what they were before
/// leaves no trace, so that entering the same state again gives the same
/// flags, light and text, and the ready flags are never part of it.
pub proof fn lemma_flag_writes_repeat<const K: usize>(
    state: AppState,
    before_first: Flags<K>,
    after_first: Flags<K>,
    led_first: Option<State>,
    display_first: Option<FourLines>,
    before_second: Flags<K>,
    after_second: Flags<K>,
    led_second: Option<State>,
    display_second: Option<FourLines>,
)
    requires
        entered(state, before_first, after_first, led_first, display_first),
        entered(state, before_second, after_second, led_second, display_second),
    ensures
        after_first.record() == after_second.record(),
        after_first.record() == Seq::new(K as nat, |i: int| state == AppState::Record),
        after_first.ready() == before_first.ready(),
        after_second.ready() == before_second.ready(),
        led_first == led_second,
        shows_only(display_first->0, 0, caption_of(state)),
        shows_only(display_second->0, 0, caption_of(state)),
{
}

/// Short presses from `Ready` go to `Record`, back to `Ready` and to `Record`
/// again, and the first and the third of these steps are the same step.
pub proof fn lemma_record_cycle()
    ensures
        next_state(AppState::Ready, Event::Short) == AppState::Record,
        next_state(next_state(AppState::Ready, Event::Short), Event::Short) == AppState::Ready,
        next_state(
            next_state(next_state(AppState::Ready, Event::Short), Event::Short),
            Event::Short,
        ) == AppState::Record,
        records_in(AppState::Record),
        !records_in(AppState::Ready),
        !records_in(AppState::New),
{
}

} // verus!
