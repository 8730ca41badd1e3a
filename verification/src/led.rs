use vstd::prelude::*;

verus! {

/// What the status light is asked to show.
#[derive(Debug, Clone, Copy, PartialEq, Eq, Structural)]
pub enum State {
    Vibrate,
    Blink,
    Steady,
    Interrupt,
    Off,
}

/// One step in driving the light's pin.
#[derive(Debug, Clone, Copy, PartialEq, Eq, Structural)]
pub enum Drive {
    /// Light on.
    High,
    /// Light off.
    Low,
    /// Light on if it was off, off if it was on.
    Toggle,
    /// Leave the light as it is for so many milliseconds.
    Wait(u64),
}

/// Number of flashes in a vibration.
pub const FLASHES: usize = 9;

/// One flash of a vibration: on and off, 25 ms each.
pub open spec fn flash() -> Seq<Drive> {
    seq![Drive::High, Drive::Wait(25), Drive::Low, Drive::Wait(25)]
}

/// `unit`, `times` times in a row.
pub open spec fn repeated(unit: Seq<Drive>, times: nat) -> Seq<Drive>
    decreases times,
{
    if times == 0 {
        Seq::empty()
    } else {
        repeated(unit, (times - 1) as nat) + unit
    }
}

/// The steps that show an intent: a vibration is nine flashes, a blink one
/// longer flash that starts and ends dark, steady and off set the light once,
/// and an interrupt flips the light for 5 ms.
pub open spec fn script_of(state: State) -> Seq<Drive> {
    match state {
        State::Vibrate => repeated(flash(), FLASHES as nat),
        State::Blink => seq![
            Drive::Low,
            Drive::Wait(25),
            Drive::High,
            Drive::Wait(50),
            Drive::Low,
        ],
        State::Steady => seq![Drive::High],
        State::Off => seq![Drive::Low],
        State::Interrupt => seq![Drive::Toggle, Drive::Wait(5), Drive::Toggle],
    }
}

/// Whether the light is on after `step`, where `lit` says whether it was on
/// before.
pub open spec fn lit_after_step(lit: bool, step: Drive) -> bool {
    match step {
        Drive::High => true,
        Drive::Low => false,
        Drive::Toggle => !lit,
        Drive::Wait(_) => lit,
    }
}

/// Whether the light is on after all of `steps`.
pub open spec fn lit_after(lit: bool, steps: Seq<Drive>) -> bool
    decreases steps.len(),
{
    if steps.len() == 0 {
        lit
    } else {
        lit_after_step(lit_after(lit, steps.drop_last()), steps.last())
    }
}

/// The steps that show `state`.
pub fn script(state: State) -> (steps: Vec<Drive>)
    ensures
        steps@ == script_of(state),
{
    let mut steps: Vec<Drive> = Vec::new();
    match state {
        State::Vibrate => {
            let mut done: usize = 0;
            while done < FLASHES
                invariant
                    done <= FLASHES,
                    steps@ == repeated(flash(), done as nat),
                decreases FLASHES - done,
            {
                steps.push(Drive::High);
                steps.push(Drive::Wait(25));
                steps.push(Drive::Low);
                steps.push(Drive::Wait(25));
                done += 1;
                assert(steps@ =~= repeated(flash(), (done - 1) as nat) + flash());
            }
        },
        State::Blink => {
            steps.push(Drive::Low);
            steps.push(Drive::Wait(25));
            steps.push(Drive::High);
            steps.push(Drive::Wait(50));
            steps.push(Drive::Low);
        },
        State::Steady => {
            steps.push(Drive::High);
        },
        State::Off => {
            steps.push(Drive::Low);
        },
        State::Interrupt => {
            steps.push(Drive::Toggle);
            steps.push(Drive::Wait(5));
            steps.push(Drive::Toggle);
        },
    }
    assert(steps@ =~= script_of(state));
    steps
}

/// Steps that end in `Low` and a wait leave the light dark.
proof fn lemma_flashes_end_dark(lit: bool, times: nat)
    requires
        times > 0,
    ensures
        !lit_after(lit, repeated(flash(), times)),
{
    let steps = repeated(flash(), times);
    let head = repeated(flash(), (times - 1) as nat);
    assert(steps == head + flash());
    assert(steps.last() == Drive::Wait(25));
    let a = steps.drop_last();
    assert(a.last() == Drive::Low);
    assert(lit_after(lit, a) == lit_after_step(lit_after(lit, a.drop_last()), a.last()));
}

/// How each intent leaves the light: steady leaves it on; vibration, blink and
/// off leave it dark; an interrupt leaves it as it found it.
pub proof fn lemma_light_after_script(lit: bool)
    ensures
        lit_after(lit, script_of(State::Steady)),
        !lit_after(lit, script_of(State::Off)),
        !lit_after(lit, script_of(State::Blink)),
        !lit_after(lit, script_of(State::Vibrate)),
        lit_after(lit, script_of(State::Interrupt)) == lit,
{
    lemma_flashes_end_dark(lit, FLASHES as nat);
    reveal_with_fuel(lit_after, 6);
    let blink = script_of(State::Blink);
    assert(blink.last() == Drive::Low);
    let steady = script_of(State::Steady);
    assert(steady.last() == Drive::High);
    let off = script_of(State::Off);
    assert(off.last() == Drive::Low);
    let interrupt = script_of(State::Interrupt);
    assert(interrupt.last() == Drive::Toggle);
    assert(interrupt.drop_last().last() == Drive::Wait(5));
    assert(interrupt.drop_last().drop_last().last() == Drive::Toggle);
    assert(interrupt.drop_last().drop_last().drop_last().len() == 0);
}

} // verus!
