use ylab::button::Event;
use ylab::control::{entering, plan, transition, AppState, ControlTask};
use ylab::display::FourLines;
use ylab::flags::Flags;
use ylab::led::State;
use ylab::mailbox::Mailbox;

fn top_line(text: &FourLines) -> &str {
    assert!(text[1].is_none() && text[2].is_none() && text[3].is_none());
    text[0].as_ref().unwrap().as_str()
}

fn all<const K: usize>(flags: &Flags<K>, value: bool) -> bool {
    (0..K).all(|i| flags.is_recording(i) == value)
}

#[test]
fn transition_table() {
    assert_eq!(transition(AppState::New, Event::Short), AppState::Ready);
    assert_eq!(transition(AppState::Ready, Event::Short), AppState::Record);
    assert_eq!(transition(AppState::Record, Event::Short), AppState::Ready);
    assert_eq!(transition(AppState::New, Event::Long), AppState::New);
    assert_eq!(transition(AppState::Ready, Event::Long), AppState::New);
    assert_eq!(transition(AppState::Record, Event::Long), AppState::New);
}

#[test]
fn raw_press_moves_nothing() {
    for state in [AppState::New, AppState::Ready, AppState::Record] {
        assert_eq!(transition(state, Event::Press), state);
        assert!(plan(state, Event::Press).effects.is_none());
    }
}

#[test]
fn effects_of_each_state() {
    let new = entering(AppState::New);
    assert_eq!((new.led, new.record, top_line(&new.text)), (State::Vibrate, false, "New"));
    let ready = entering(AppState::Ready);
    assert_eq!((ready.led, ready.record, top_line(&ready.text)), (State::Blink, false, "Ready"));
    let record = entering(AppState::Record);
    assert_eq!((record.led, record.record, top_line(&record.text)), (State::Steady, true, "Record"));
}

#[test]
fn long_press_in_new_has_no_effect() {
    let step = plan(AppState::New, Event::Long);
    assert_eq!(step.next, AppState::New);
    assert!(step.effects.is_none());
}

#[test]
fn every_change_of_state_has_effects() {
    for state in [AppState::New, AppState::Ready, AppState::Record] {
        for event in [Event::Press, Event::Short, Event::Long] {
            let step = plan(state, event);
            assert_eq!(step.next, transition(state, event));
            assert_eq!(step.effects.is_some(), step.next != state);
        }
    }
}

#[test]
fn control_task_scenario() {
    let mut flags: Flags<3> = Flags::new([false, false, false]);
    let mut led = Mailbox::new();
    let mut display = Mailbox::new();
    let mut task = ControlTask::start(&mut flags, &mut led, &mut display);
    assert_eq!(task.state(), AppState::New);
    assert!(all(&flags, false));

    task.handle(Event::Short, &mut flags, &mut led, &mut display);
    assert_eq!(task.state(), AppState::Ready);
    assert!(all(&flags, false));

    task.handle(Event::Short, &mut flags, &mut led, &mut display);
    assert_eq!(task.state(), AppState::Record);
    assert!(all(&flags, true));
    assert_eq!(led.try_wait(), Some(State::Steady));

    task.handle(Event::Long, &mut flags, &mut led, &mut display);
    assert_eq!(task.state(), AppState::New);
    assert!(all(&flags, false));
    assert_eq!(led.try_wait(), Some(State::Vibrate));
    assert_eq!(top_line(&display.try_wait().unwrap()), "New");
}

#[test]
fn start_writes_the_policy_of_new_over_armed_defaults() {
    let mut flags: Flags<4> = Flags::new([true, false, true, true]);
    let mut led = Mailbox::new();
    let mut display = Mailbox::new();
    let task = ControlTask::start(&mut flags, &mut led, &mut display);
    assert_eq!(task.state(), AppState::New);
    assert!(all(&flags, false));
    assert_eq!(led.try_wait(), Some(State::Vibrate));
    assert_eq!(top_line(&display.try_wait().unwrap()), "New");
}

#[test]
fn event_that_keeps_the_state_writes_nothing() {
    let mut flags: Flags<2> = Flags::new([false, false]);
    let mut led = Mailbox::new();
    let mut display = Mailbox::new();
    let mut task = ControlTask::start(&mut flags, &mut led, &mut display);
    assert_eq!(led.try_wait(), Some(State::Vibrate));
    assert!(display.try_wait().is_some());

    task.handle(Event::Long, &mut flags, &mut led, &mut display);
    task.handle(Event::Press, &mut flags, &mut led, &mut display);
    assert_eq!(task.state(), AppState::New);
    assert!(!led.has_pending());
    assert!(!display.has_pending());
    assert!(all(&flags, false));
}

#[test]
fn entering_record_twice_writes_the_same_flags() {
    let mut flags: Flags<3> = Flags::new([false, true, false]);
    let mut led = Mailbox::new();
    let mut display = Mailbox::new();
    let mut task = ControlTask::start(&mut flags, &mut led, &mut display);
    task.handle(Event::Short, &mut flags, &mut led, &mut display);
    flags.set_ready(1);

    task.handle(Event::Short, &mut flags, &mut led, &mut display);
    assert_eq!(task.state(), AppState::Record);
    let first = flags;
    assert_eq!(led.try_wait(), Some(State::Steady));

    task.handle(Event::Short, &mut flags, &mut led, &mut display);
    assert_eq!(task.state(), AppState::Ready);
    assert!(all(&flags, false));
    assert_eq!(led.try_wait(), Some(State::Blink));

    task.handle(Event::Short, &mut flags, &mut led, &mut display);
    assert_eq!(task.state(), AppState::Record);
    assert_eq!(flags, first);
    assert!(all(&flags, true));
    assert!(flags.is_ready(1) && !flags.is_ready(0) && !flags.is_ready(2));
    assert_eq!(led.try_wait(), Some(State::Steady));
    assert_eq!(top_line(&display.try_wait().unwrap()), "Record");
}

#[test]
fn unread_intents_are_overwritten_by_the_latest() {
    let mut flags: Flags<1> = Flags::new([false]);
    let mut led = Mailbox::new();
    let mut display = Mailbox::new();
    let mut task = ControlTask::start(&mut flags, &mut led, &mut display);
    task.handle(Event::Short, &mut flags, &mut led, &mut display);
    task.handle(Event::Short, &mut flags, &mut led, &mut display);
    assert_eq!(led.try_wait(), Some(State::Steady));
    assert_eq!(led.try_wait(), None);
    assert_eq!(top_line(&display.try_wait().unwrap()), "Record");
}
