//! Decoding a SPIR-V binary into 32-bit words.
//!
//! A SPIR-V module is stored as a sequence of 32-bit words, each laid out in
//! little-endian byte order. The graphics device wants the words, so the raw
//! bytes of a shader file have to be regrouped four at a time before a shader
//! module can be created from them.

use vstd::prelude::*;

verus! {

/// The value of one 32-bit little-endian word whose bytes, in memory order,
/// are `b0`, `b1`, `b2`, `b3`: `b0` is the least significant byte.
pub open spec fn le_word(b0: u8, b1: u8, b2: u8, b3: u8) -> int {
    b0 + b1 * 0x100 + b2 * 0x1_0000 + b3 * 0x100_0000
}

/// The words of a byte buffer read as consecutive little-endian 32-bit words:
/// word `i` is built from bytes `4 * i` through `4 * i + 3`.
pub open spec fn le_words(bytes: Seq<u8>) -> Seq<u32> {
    Seq::new(
        bytes.len() / 4,
        |i: int| (le_word(bytes[4 * i], bytes[4 * i + 1], bytes[4 * i + 2], bytes[4 * i + 3])) as u32,
    )
}

/// Reads the little-endian word at word index `i` of `bytes`.
pub fn le_word_at(bytes: &[u8], i: usize) -> (w: u32)
    requires
        4 * i + 4 <= bytes@.len(),
    ensures
        w == le_words(bytes@)[i as int],
{
    // Pins the slice length as a usize, so that `4 * i` is known not to overflow.
    let len = bytes.len();
    assert(4 * i + 4 <= len);
    let b0 = bytes[4 * i] as u32;
    let b1 = bytes[4 * i + 1] as u32;
    let b2 = bytes[4 * i + 2] as u32;
    let b3 = bytes[4 * i + 3] as u32;
    b0 + b1 * 0x100 + b2 * 0x1_0000 + b3 * 0x100_0000
}

/// Decodes a SPIR-V binary into its words. The length of a SPIR-V module is
/// always a multiple of four bytes; a caller holding an untrimmed buffer must
/// check that before calling.
pub fn read_le_words(bytes: &[u8]) -> (words: Vec<u32>)
    requires
        bytes@.len() % 4 == 0,
    ensures
        words@ == le_words(bytes@),
{
    let n = bytes.len() / 4;
    let mut words: Vec<u32> = Vec::new();
    let mut i: usize = 0;
    while i < n
        invariant
            4 * n <= bytes@.len(),
            n == bytes@.len() / 4,
            i <= n,
            words@.len() == i,
            forall|j: int| 0 <= j < i ==> words@[j] == le_words(bytes@)[j],
        decreases n - i,
    {
        let w = le_word_at(bytes, i);
        words.push(w);
        i = i + 1;
    }
    proof {
        assert(words@ =~= le_words(bytes@));
    }
    words
}

} // verus!
