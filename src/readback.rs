use vstd::prelude::*;

use crate::error::EngineError;
use crate::shape::Dimensions;

verus! {

/// Byte `j` (0 to 3) of `w`, counted from the least significant end.
pub open spec fn byte_of(w: u32, j: int) -> u8 {
    if j == 0 {
        (w % 256) as u8
    } else if j == 1 {
        ((w / 256) % 256) as u8
    } else if j == 2 {
        ((w / 65536) % 256) as u8
    } else {
        (w / 16777216) as u8
    }
}

/// The words laid out four bytes each, least significant byte first.
pub open spec fn le_bytes(words: Seq<u32>) -> Seq<u8> {
    Seq::new(4 * words.len(), |i: int| byte_of(words[i / 4], i % 4))
}

/// The words laid out four bytes each, most significant byte first.
pub open spec fn be_bytes(words: Seq<u32>) -> Seq<u8> {
    Seq::new(4 * words.len(), |i: int| byte_of(words[i / 4], 3 - i % 4))
}

/// The word read from bytes `at..at + 4`, least significant byte first.
pub open spec fn le_word_at(bytes: Seq<u8>, at: int) -> u32 {
    (bytes[at] as int + bytes[at + 1] as int * 256 + bytes[at + 2] as int * 65536 + bytes[at
        + 3] as int * 16777216) as u32
}

/// The word read from bytes `at..at + 4`, most significant byte first.
pub open spec fn be_word_at(bytes: Seq<u8>, at: int) -> u32 {
    (bytes[at + 3] as int + bytes[at + 2] as int * 256 + bytes[at + 1] as int * 65536
        + bytes[at] as int * 16777216) as u32
}

/// The bytes read as consecutive words, least significant byte first.
pub open spec fn le_words(bytes: Seq<u8>) -> Seq<u32> {
    Seq::new(bytes.len() / 4, |i: int| le_word_at(bytes, 4 * i))
}

/// The bytes read as consecutive words, most significant byte first.
pub open spec fn be_words(bytes: Seq<u8>) -> Seq<u32> {
    Seq::new(bytes.len() / 4, |i: int| be_word_at(bytes, 4 * i))
}

/// Relies on bytemuck::cast_slice from `u32` to `u8`: the words' bytes in
/// memory order, four per word, which is the host's byte order (little- or
/// big-endian). The target alignment is one, so it never fails.
#[verifier::external_body]
fn words_as_bytes(words: &[u32]) -> (r: Vec<u8>)
    ensures
        r@.len() == 4 * words@.len(),
        r@ == le_bytes(words@) || r@ == be_bytes(words@),
{
    bytemuck::cast_slice::<u32, u8>(words).to_vec()
}

/// Relies on bytemuck::pod_collect_to_vec from `u8` to `u32`: the bytes copied
/// in memory order into as many words as it takes to hold them, whatever the
/// alignment of the input; each whole group of four bytes is one word in the
/// host's byte order (little- or big-endian).
#[verifier::external_body]
fn bytes_as_words(bytes: &[u8]) -> (r: Vec<u32>)
    ensures
        4 * r@.len() >= bytes@.len(),
        4 * r@.len() < bytes@.len() + 4,
        bytes@.len() % 4 == 0 ==> (r@ == le_words(bytes@) || r@ == be_words(bytes@)),
{
    bytemuck::pod_collect_to_vec::<u8, u32>(bytes)
}

/// What the one-shot completion signal delivered for the mapping request.
#[derive(Clone, Copy, Debug, PartialEq, Eq, Structural)]
pub enum MapStatus {
    /// The staging buffer is mapped for reading.
    Mapped,
    /// The device reported that the mapping failed.
    Failed,
    /// The signal's sender went away without reporting.
    Dropped,
}

/// The uniform parameter block `(m, n, k)` as the bytes the device receives:
/// three 32-bit words in that order, each in the host's byte order.
pub fn param_bytes(d: &Dimensions) -> (r: Vec<u8>)
    ensures
        r@.len() == 12,
        r@ == le_bytes(seq![d.m, d.n, d.k]) || r@ == be_bytes(seq![d.m, d.n, d.k]),
{
    let words = d.param_words();
    words_as_bytes(words.as_slice())
}

/// Turns the outcome of the mapping and the mapped bytes into the result's
/// words, one 32-bit float bit pattern per entry, row-major: word `i` is read
/// from bytes `4 * i .. 4 * i + 4` in the host's byte order. Any failure of the
/// signal, or a mapping of the wrong size, fails the whole readback; what the
/// bytes hold (infinities and NaNs included) never does.
pub fn decode_readback(d: &Dimensions, status: MapStatus, bytes: &[u8]) -> (r: Result<
    Vec<u32>,
    EngineError,
>)
    requires
        d.wf(),
    ensures
        status != MapStatus::Mapped ==> r == Err::<Vec<u32>, EngineError>(
            EngineError::ComputeReadbackFailed,
        ),
        bytes@.len() != d.spec_output_len() * 4 ==> r == Err::<Vec<u32>, EngineError>(
            EngineError::ComputeReadbackFailed,
        ),
        r is Ok <==> status == MapStatus::Mapped && bytes@.len() == d.spec_output_len() * 4,
        r matches Ok(w) ==> w@.len() == d.spec_output_len() && (w@ == le_words(bytes@) || w@
            == be_words(bytes@)),
        r matches Err(e) ==> e == EngineError::ComputeReadbackFailed,
{
    match status {
        MapStatus::Mapped => {},
        _ => {
            return Err(EngineError::ComputeReadbackFailed);
        },
    }
    let expected = d.output_size_bytes();
    if bytes.len() as u64 != expected {
        return Err(EngineError::ComputeReadbackFailed);
    }
    Ok(bytes_as_words(bytes))
}

} // verus!
