use ylab::line::{YtfLine, LINE_CAPACITY};
use ylab::sample::{Sample, Ytf};
use ylab::wire::{push_decimal, LineError};

fn decimal(n: u64) -> Vec<u8> {
    let mut out = Vec::new();
    push_decimal(&mut out, n);
    out
}

fn rendered(sensory: u8, time: u64, fields: [Option<&str>; 8]) -> Ytf<Vec<u8>> {
    Ytf { sensory, time, read: fields.map(|f| f.map(|text| text.as_bytes().to_vec())) }
}

#[test]
fn decimal_of_single_digits() {
    assert_eq!(decimal(0), b"0".to_vec());
    assert_eq!(decimal(7), b"7".to_vec());
    assert_eq!(decimal(9), b"9".to_vec());
}

#[test]
fn decimal_of_longer_numbers() {
    assert_eq!(decimal(10), b"10".to_vec());
    assert_eq!(decimal(255), b"255".to_vec());
    assert_eq!(decimal(1_000_000), b"1000000".to_vec());
    assert_eq!(decimal(u64::MAX), b"18446744073709551615".to_vec());
}

#[test]
fn decimal_is_appended_to_what_is_there() {
    let mut out = b"t=".to_vec();
    push_decimal(&mut out, 120);
    assert_eq!(out, b"t=120".to_vec());
}

#[test]
fn text_of_a_reading_with_two_channels() {
    let ytf = rendered(3, 1000, [Some("1.000"), Some("2.500"), None, None, None, None, None, None]);
    assert_eq!(ytf.to_text(), b"1000, 3, 1.000, 2.500, , , , , , ".to_vec());
}

#[test]
fn text_of_a_reading_without_channels() {
    let ytf = rendered(0, 0, [None; 8]);
    assert_eq!(ytf.to_text(), b"0, 0, , , , , , , , ".to_vec());
}

#[test]
fn text_of_a_full_reading() {
    let ytf = rendered(
        255,
        18_446_744_073_709_551_615,
        [Some("1"), Some("2"), Some("3"), Some("4"), Some("5"), Some("6"), Some("7"), Some("8")],
    );
    assert_eq!(ytf.to_text(), b"18446744073709551615, 255, 1, 2, 3, 4, 5, 6, 7, 8".to_vec());
}

#[test]
fn an_empty_slot_between_values_keeps_its_place() {
    let ytf = rendered(1, 5, [Some("a"), None, Some("c"), None, None, None, None, Some("h")]);
    assert_eq!(ytf.to_text(), b"5, 1, a, , c, , , , , h".to_vec());
}

#[test]
fn line_is_text_and_newline() {
    let ytf = rendered(2, 77, [Some("0.125"), None, None, None, None, None, None, None]);
    let mut expected = ytf.to_text();
    expected.push(b'\n');
    assert_eq!(ytf.to_line(), expected);
    assert_eq!(ytf.to_line(), b"77, 2, 0.125, , , , , , , \n".to_vec());
}

#[test]
fn sample_to_line_end_to_end() {
    let sample = Sample { sensory: 1, time: 123_456, read: [512u16, 0, 4095, 7] };
    let ytf: Ytf<f64> = sample.into_ytf(|m: u16| f64::from(m));
    let line = ytf.map(|v: &f64| format!("{:.3}", v).into_bytes()).to_line();
    assert_eq!(line, b"123456, 1, 512.000, 0.000, 4095.000, 7.000, , , , \n".to_vec());
}

#[test]
fn message_holds_the_text() {
    let ytf = rendered(3, 1000, [Some("1.000"), None, None, None, None, None, None, None]);
    let msg = ytf.msg_csv().unwrap();
    assert_eq!(msg.as_slice(), b"1000, 3, 1.000, , , , , , , ");
    assert_eq!(msg.as_slice(), ytf.to_text().as_slice());
}

#[test]
fn message_of_exactly_the_capacity_is_made() {
    // "1, 2" and eight separators take 20 bytes, which leaves 236 for a field.
    let long = "x".repeat(LINE_CAPACITY - 20);
    let ytf = rendered(2, 1, [Some(&long), None, None, None, None, None, None, None]);
    assert_eq!(ytf.to_text().len(), LINE_CAPACITY);
    let msg = ytf.msg_csv().unwrap();
    assert_eq!(msg.as_slice().len(), 256);
}

#[test]
fn message_over_the_capacity_is_refused() {
    let long = "x".repeat(LINE_CAPACITY - 19);
    let ytf = rendered(2, 1, [Some(&long), None, None, None, None, None, None, None]);
    assert_eq!(ytf.to_text().len(), LINE_CAPACITY + 1);
    assert_eq!(ytf.msg_csv(), Err(LineError::TooLong));
}

#[test]
fn line_buffer_takes_up_to_its_capacity() {
    assert_eq!(YtfLine::new(b"").unwrap().as_slice(), b"");
    assert_eq!(YtfLine::new(b"abc").unwrap().as_slice(), b"abc");
    let full = vec![b'z'; 256];
    assert_eq!(YtfLine::new(&full).unwrap().as_slice(), full.as_slice());
    let over = vec![b'z'; 257];
    assert!(YtfLine::new(&over).is_none());
}
