use vstd::prelude::*;
use vstd::string::StringSliceAdditionalSpecFns;

verus! {

/// Number of bytes that one line of the display takes.
pub const LINE_LEN: usize = 20;

/// `heapless::String`, a string in a buffer of fixed size. Nothing is known
/// of what is inside but what the functions below say.
#[verifier::external_type_specification]
#[verifier::external_body]
pub struct ExHeaplessString<const N: usize>(heapless::String<N>);

/// The text that a `heapless::String` of capacity 20 holds.
pub uninterp spec fn caption_text(line: heapless::String<20>) -> Seq<char>;

/// `heapless::String::try_from(&str)`: starts from an empty string and appends
/// the text's bytes, which succeeds where they are at most as many as the
/// capacity and fails otherwise. On success the string holds the text.
#[verifier::external_body]
fn caption_try_from(text: &str) -> (made: Result<heapless::String<20>, ()>)
    ensures
        made is Ok <==> text.spec_bytes().len() <= 20,
        made matches Ok(line) ==> caption_text(line) == text@,
{
    heapless::String::try_from(text)
}

/// `heapless::String::as_str`: the text that the string holds, as a slice.
#[verifier::external_body]
fn caption_as_str(line: &heapless::String<20>) -> (text: &str)
    ensures
        text@ == caption_text(*line),
{
    line.as_str()
}

/// One line of text for the display, of at most `LINE_LEN` bytes.
#[derive(Debug, PartialEq, Eq)]
pub struct OneLine {
    text: heapless::String<20>,
}

impl View for OneLine {
    type V = Seq<char>;

    closed spec fn view(&self) -> Seq<char> {
        caption_text(self.text)
    }
}

impl OneLine {
    /// The line that holds `text`, where `text` fits into a line.
    pub fn new(text: &str) -> (line: Option<OneLine>)
        ensures
            line is Some <==> text.spec_bytes().len() <= LINE_LEN,
            line matches Some(l) ==> l@ == text@,
    {
        match caption_try_from(text) {
            Ok(text) => Some(OneLine { text }),
            Err(_) => None,
        }
    }

    /// The text of the line.
    pub fn as_str(&self) -> (text: &str)
        ensures
            text@ == self@,
    {
        caption_as_str(&self.text)
    }
}

/// The text of the display: four lines, each of which may be left out.
pub type FourLines = [Option<OneLine>; 4];

/// Whether `lines` shows `text` in the line `row` and nothing in the others.
pub open spec fn shows_only(lines: FourLines, row: int, text: Seq<char>) -> bool {
    forall|i: int|
        0 <= i < 4 ==> if i == row {
            (#[trigger] lines[i]) matches Some(line) && line@ == text
        } else {
            lines[i] is None
        }
}

/// A status text: `line` at the top of the display, the other lines empty.
pub fn status_text(line: OneLine) -> (lines: FourLines)
    ensures
        shows_only(lines, 0, line@),
{
    [Some(line), None, None, None]
}

/// A diagnostic text: `line` at the bottom of the display, the other lines
/// empty.
pub fn diagnostic_text(line: OneLine) -> (lines: FourLines)
    ensures
        shows_only(lines, 3, line@),
{
    [None, None, None, Some(line)]
}

} // verus!
