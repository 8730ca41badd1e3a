use vstd::prelude::*;

verus! {

/// What the button reports: the raw press, and, on release, whether the press
/// was a short or a long one.
#[derive(Debug, Clone, Copy, PartialEq, Eq, Structural)]
pub enum Event {
    Press,
    Short,
    Long,
}

/// Time, in milliseconds, that a press has to last to count as a long one.
pub const LONGPRESS_MS: u64 = 1000;

/// Time, in milliseconds, for which the contact is left to settle after it
/// closed, before the release is awaited.
pub const DEBOUNCE_MS: u64 = 50;

/// The event for a press that lasted `held_ms` against the threshold
/// `longpress_ms`.
pub open spec fn release_event(held_ms: int, longpress_ms: int) -> Event {
    if held_ms >= longpress_ms {
        Event::Long
    } else {
        Event::Short
    }
}

/// Classifies a press by the two readings of the monotonic clock taken when
/// the button went down and when it came up again: a press shorter than
/// `longpress_ms` is short, one that lasted at least that long is long.
pub fn classify(pressed_ms: u64, released_ms: u64, longpress_ms: u64) -> (event: Event)
    requires
        pressed_ms <= released_ms,
    ensures
        event == release_event(released_ms - pressed_ms, longpress_ms as int),
{
    if released_ms - pressed_ms >= longpress_ms {
        Event::Long
    } else {
        Event::Short
    }
}

} // verus!
