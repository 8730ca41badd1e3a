use vstd::prelude::*;

verus! {

/// Number of bytes that one message can hold.
pub const LINE_CAPACITY: usize = 256;

/// `heapless::Vec`, a vector in a buffer of fixed size. Nothing is known of
/// what is inside but what the functions below say.
#[verifier::external_type_specification]
#[verifier::external_body]
#[verifier::reject_recursive_types(T)]
pub struct ExHeaplessVec<T, const N: usize>(heapless::Vec<T, N>);

/// The bytes that a `heapless::Vec` of bytes of capacity 256 holds, in order.
pub uninterp spec fn line_bytes(line: heapless::Vec<u8, 256>) -> Seq<u8>;

/// `heapless::Vec::new`: a vector that holds nothing.
#[verifier::external_body]
fn line_new() -> (line: heapless::Vec<u8, 256>)
    ensures
        line_bytes(line) == Seq::<u8>::empty(),
{
    heapless::Vec::new()
}

/// `heapless::Vec::extend_from_slice`: where the bytes still fit into the
/// capacity they are appended in order; where they do not, the call fails and
/// the vector is left as it was.
#[verifier::external_body]
fn line_extend(line: &mut heapless::Vec<u8, 256>, bytes: &[u8]) -> (done: Result<(), ()>)
    ensures
        done is Ok <==> line_bytes(*old(line)).len() + bytes@.len() <= 256,
        done is Ok ==> line_bytes(*final(line)) == line_bytes(*old(line)) + bytes@,
        done is Err ==> line_bytes(*final(line)) == line_bytes(*old(line)),
{
    line.extend_from_slice(bytes)
}

/// `heapless::Vec::as_slice`: the bytes that the vector holds.
#[verifier::external_body]
fn line_as_slice(line: &heapless::Vec<u8, 256>) -> (bytes: &[u8])
    ensures
        bytes@ == line_bytes(*line),
{
    line.as_slice()
}

/// One message for the transport, in a buffer of `LINE_CAPACITY` bytes that
/// needs no allocation.
#[derive(Debug, PartialEq, Eq)]
pub struct YtfLine {
    bytes: heapless::Vec<u8, 256>,
}

impl View for YtfLine {
    type V = Seq<u8>;

    closed spec fn view(&self) -> Seq<u8> {
        line_bytes(self.bytes)
    }
}

impl YtfLine {
    /// The message that holds `text`, where `text` fits into the buffer.
    pub fn new(text: &[u8]) -> (line: Option<YtfLine>)
        ensures
            line is Some <==> text@.len() <= LINE_CAPACITY,
            line matches Some(l) ==> l@ == text@,
    {
        let mut bytes = line_new();
        match line_extend(&mut bytes, text) {
            Ok(_) => Some(YtfLine { bytes }),
            Err(_) => None,
        }
    }

    /// The bytes of the message.
    pub fn as_slice(&self) -> (bytes: &[u8])
        ensures
            bytes@ == self@,
    {
        line_as_slice(&self.bytes)
    }
}

} // verus!
