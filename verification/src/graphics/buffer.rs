use vstd::endian::{endianness, Endian};
use vstd::prelude::*;

verus! {

/// The byte at `position` (0 for the lowest) of `word`.
pub open spec fn word_digit(word: u32, position: int) -> u8 {
    if position == 0 {
        (word % 256) as u8
    } else if position == 1 {
        (word / 256 % 256) as u8
    } else if position == 2 {
        (word / 65536 % 256) as u8
    } else {
        (word / 16777216 % 256) as u8
    }
}

/// The byte that memory holds at offset `offset` (0 to 3) of `word`, in the
/// byte order of the machine that runs the program.
pub open spec fn word_byte(word: u32, offset: int) -> u8 {
    match endianness() {
        Endian::Little => word_digit(word, offset),
        Endian::Big => word_digit(word, 3 - offset),
    }
}

/// The bytes that memory holds for `words`, one word after the other.
pub open spec fn native_bytes(words: Seq<u32>) -> Seq<u8> {
    Seq::new(4 * words.len(), |i: int| word_byte(words[i / 4], i % 4))
}

/// Calls `bytemuck::cast_slice` to view 32-bit words as bytes, and copies
/// them. The contract claims that the bytes are those of the words as they
/// lie in memory, four for each word, in the machine's byte order.
#[verifier::external_body]
pub(crate) fn cast_words(words: &[u32]) -> (bytes: Vec<u8>)
    ensures
        bytes@ == native_bytes(words@),
{
    bytemuck::cast_slice::<u32, u8>(words).to_vec()
}

} // verus!
