use crate::line::{YtfLine, LINE_CAPACITY};
use crate::sample::{Ytf, YTF_LEN};
use vstd::prelude::*;

verus! {

/// The ASCII digit for `d`, a number below ten.
pub open spec fn digit(d: nat) -> u8 {
    (48 + d) as u8
}

/// The decimal numeral of `n`, in ASCII, without leading zeros.
pub open spec fn decimal(n: nat) -> Seq<u8>
    decreases n,
{
    if n < 10 {
        seq![digit(n)]
    } else {
        decimal(n / 10).push(digit(n % 10))
    }
}

/// What stands between two fields of a line: a comma and a blank.
pub open spec fn separator() -> Seq<u8> {
    seq![44u8, 32u8]
}

/// The end of a line.
pub open spec fn newline() -> Seq<u8> {
    seq![10u8]
}

/// The text of one channel: the rendered value, or nothing for an empty slot.
pub open spec fn field_text(field: Option<Seq<u8>>) -> Seq<u8> {
    match field {
        Some(text) => text,
        None => Seq::empty(),
    }
}

/// The channels of a line: each field with a separator before it.
pub open spec fn csv_fields(fields: Seq<Option<Seq<u8>>>) -> Seq<u8>
    decreases fields.len(),
{
    if fields.len() == 0 {
        Seq::empty()
    } else {
        csv_fields(fields.drop_last()) + separator() + field_text(fields.last())
    }
}

/// The textual form of a reading: the time in microseconds, the sensor's id,
/// and the channels, all separated alike.
pub open spec fn csv_text(time: u64, sensory: u8, fields: Seq<Option<Seq<u8>>>) -> Seq<u8> {
    decimal(time as nat) + separator() + decimal(sensory as nat) + csv_fields(fields)
}

/// The line that the transport gets for a reading: its text and a newline.
pub open spec fn csv_line(time: u64, sensory: u8, fields: Seq<Option<Seq<u8>>>) -> Seq<u8> {
    csv_text(time, sensory, fields) + newline()
}

/// The rendered channels of a reading, as texts.
pub open spec fn field_texts(read: [Option<Vec<u8>>; YTF_LEN]) -> Seq<Option<Seq<u8>>> {
    Seq::new(
        YTF_LEN as nat,
        |i: int|
            match read[i] {
                Some(text) => Some(text@),
                None => None,
            },
    )
}

/// Why a reading has no message.
#[derive(Debug, Clone, Copy, PartialEq, Eq)]
pub enum LineError {
    /// The text takes more than `LINE_CAPACITY` bytes.
    TooLong,
}

/// Appends the decimal numeral of `n` to `out`.
pub fn push_decimal(out: &mut Vec<u8>, n: u64)
    ensures
        final(out)@ == old(out)@ + decimal(n as nat),
    decreases n,
{
    if n < 10 {
        out.push(48u8 + n as u8);
        assert(out@ =~= old(out)@ + decimal(n as nat));
    } else {
        push_decimal(out, n / 10);
        out.push(48u8 + (n % 10) as u8);
        assert(out@ =~= old(out)@ + decimal(n as nat));
    }
}

/// Appends all of `bytes` to `out`.
fn push_all(out: &mut Vec<u8>, bytes: &Vec<u8>)
    ensures
        final(out)@ == old(out)@ + bytes@,
{
    let mut i: usize = 0;
    while i < bytes.len()
        invariant
            i <= bytes.len(),
            out@ == old(out)@ + bytes@.subrange(0, i as int),
        decreases bytes.len() - i,
    {
        out.push(bytes[i]);
        i += 1;
        assert(out@ =~= old(out)@ + bytes@.subrange(0, i as int));
    }
    assert(bytes@.subrange(0, bytes.len() as int) =~= bytes@);
}

impl Ytf<Vec<u8>> {
    /// The textual form of a reading whose channel values are rendered already:
    /// time, sensor and the eight channels, with `, ` between them and nothing
    /// in the place of an empty slot.
    pub fn to_text(&self) -> (text: Vec<u8>)
        ensures
            text@ == csv_text(self.time, self.sensory, field_texts(self.read)),
    {
        let mut text: Vec<u8> = Vec::new();
        push_decimal(&mut text, self.time);
        text.push(44u8);
        text.push(32u8);
        push_decimal(&mut text, self.sensory as u64);
        let ghost head = text@;
        let ghost fields = field_texts(self.read);
        assert(head =~= decimal(self.time as nat) + separator() + decimal(self.sensory as nat));
        let mut i: usize = 0;
        assert(fields.subrange(0, 0) =~= Seq::<Option<Seq<u8>>>::empty());
        while i < YTF_LEN
            invariant
                i <= YTF_LEN,
                fields == field_texts(self.read),
                text@ == head + csv_fields(fields.subrange(0, i as int)),
            decreases YTF_LEN - i,
        {
            let ghost before = fields.subrange(0, i as int);
            let ghost upto = fields.subrange(0, i as int + 1);
            assert(upto.drop_last() =~= before);
            assert(upto.last() == fields[i as int]);
            text.push(44u8);
            text.push(32u8);
            match &self.read[i] {
                Some(field) => {
                    push_all(&mut text, field);
                },
                None => {},
            }
            assert(text@ =~= head + csv_fields(upto));
            i += 1;
        }
        assert(fields.subrange(0, YTF_LEN as int) =~= fields);
        text
    }

    /// The line for the transport: the textual form and a newline.
    pub fn to_line(&self) -> (line: Vec<u8>)
        ensures
            line@ == csv_line(self.time, self.sensory, field_texts(self.read)),
    {
        let mut line = self.to_text();
        line.push(10u8);
        line
    }

    /// The textual form as a message in a fixed buffer. A text that does not
    /// fit into the buffer gives no message.
    pub fn msg_csv(&self) -> (msg: Result<YtfLine, LineError>)
        ensures
            msg is Ok <==> csv_text(self.time, self.sensory, field_texts(self.read)).len()
                <= LINE_CAPACITY,
            msg matches Ok(line) ==> line@ == csv_text(
                self.time,
                self.sensory,
                field_texts(self.read),
            ),
            msg is Err ==> msg == Err::<YtfLine, LineError>(LineError::TooLong),
    {
        let text = self.to_text();
        match YtfLine::new(text.as_slice()) {
            Some(line) => Ok(line),
            None => Err(LineError::TooLong),
        }
    }
}

} // verus!
