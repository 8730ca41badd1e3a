use ylab::button::{classify, Event, DEBOUNCE_MS, LONGPRESS_MS};
use ylab::display::{diagnostic_text, status_text, OneLine, LINE_LEN};
use ylab::flags::Flags;
use ylab::led::{script, Drive, State, FLASHES};

#[test]
fn press_below_the_threshold_is_short() {
    assert_eq!(classify(5_000, 5_000, 1_000), Event::Short);
    assert_eq!(classify(5_000, 5_050, 1_000), Event::Short);
    assert_eq!(classify(5_000, 5_999, 1_000), Event::Short);
}

#[test]
fn press_at_or_above_the_threshold_is_long() {
    assert_eq!(classify(5_000, 6_000, 1_000), Event::Long);
    assert_eq!(classify(5_000, 9_000, 1_000), Event::Long);
    assert_eq!(classify(0, u64::MAX, LONGPRESS_MS), Event::Long);
    assert_eq!(classify(7, 7, 0), Event::Long);
}

#[test]
fn button_timing_constants() {
    assert_eq!(LONGPRESS_MS, 1000);
    assert_eq!(DEBOUNCE_MS, 50);
}

#[test]
fn line_of_twenty_bytes_fits_and_twenty_one_do_not() {
    assert_eq!(LINE_LEN, 20);
    let fits = "12345678901234567890";
    assert_eq!(OneLine::new(fits).unwrap().as_str(), fits);
    assert!(OneLine::new("123456789012345678901").is_none());
    assert_eq!(OneLine::new("").unwrap().as_str(), "");
}

#[test]
fn line_length_counts_bytes() {
    // Ten letters of two bytes each fill the line.
    let ten = "\u{e4}".repeat(10);
    assert_eq!(OneLine::new(&ten).unwrap().as_str(), ten);
    let eleven = "\u{e4}".repeat(11);
    assert!(OneLine::new(&eleven).is_none());
}

#[test]
fn status_goes_to_the_top_and_diagnostics_to_the_bottom() {
    let status = status_text(OneLine::new("Ready").unwrap());
    assert_eq!(status[0].as_ref().unwrap().as_str(), "Ready");
    assert!(status[1].is_none() && status[2].is_none() && status[3].is_none());
    let diagnostic = diagnostic_text(OneLine::new("Lsm6 =/= I2C").unwrap());
    assert_eq!(diagnostic[3].as_ref().unwrap().as_str(), "Lsm6 =/= I2C");
    assert!(diagnostic[0].is_none() && diagnostic[1].is_none() && diagnostic[2].is_none());
}

#[test]
fn flags_start_as_armed_and_not_ready() {
    let flags: Flags<3> = Flags::new([true, false, true]);
    assert!(flags.is_recording(0) && !flags.is_recording(1) && flags.is_recording(2));
    assert!(!flags.is_ready(0) && !flags.is_ready(1) && !flags.is_ready(2));
}

#[test]
fn recording_write_reaches_every_flag_and_no_ready_flag() {
    let mut flags: Flags<3> = Flags::new([true, false, true]);
    flags.set_ready(2);
    flags.set_recording(false);
    assert!(!flags.is_recording(0) && !flags.is_recording(1) && !flags.is_recording(2));
    assert!(!flags.is_ready(0) && !flags.is_ready(1) && flags.is_ready(2));
    flags.set_recording(true);
    assert!(flags.is_recording(0) && flags.is_recording(1) && flags.is_recording(2));
    assert!(flags.is_ready(2));
}

#[test]
fn ready_flag_is_a_latch() {
    let mut flags: Flags<2> = Flags::new([false, false]);
    flags.set_ready(0);
    flags.set_ready(0);
    flags.set_recording(true);
    flags.set_recording(false);
    assert!(flags.is_ready(0));
    assert!(!flags.is_ready(1));
}

#[test]
fn vibration_is_nine_flashes() {
    let steps = script(State::Vibrate);
    assert_eq!(FLASHES, 9);
    assert_eq!(steps.len(), 36);
    for flash in steps.chunks(4) {
        assert_eq!(flash, [Drive::High, Drive::Wait(25), Drive::Low, Drive::Wait(25)]);
    }
}

#[test]
fn scripts_of_the_other_intents() {
    assert_eq!(
        script(State::Blink),
        vec![Drive::Low, Drive::Wait(25), Drive::High, Drive::Wait(50), Drive::Low]
    );
    assert_eq!(script(State::Steady), vec![Drive::High]);
    assert_eq!(script(State::Off), vec![Drive::Low]);
    assert_eq!(script(State::Interrupt), vec![Drive::Toggle, Drive::Wait(5), Drive::Toggle]);
}
