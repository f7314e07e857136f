//! Decoding the words of a compiled SPIR-V file.
use vstd::prelude::*;

verus! {

/// The little-endian 32-bit word `i` of `bytes`.
pub open spec fn le_word(bytes: Seq<u8>, i: int) -> int {
    bytes[4 * i] + 0x100 * bytes[4 * i + 1] + 0x1_0000 * bytes[4 * i + 2] + 0x100_0000 * bytes[4 * i + 3]
}

/// The file's bytes read as little-endian 32-bit words; trailing bytes that
/// do not fill a word are dropped.
pub fn words_from_le_bytes(bytes: &[u8]) -> (words: Vec<u32>)
    ensures
        words@.len() == bytes@.len() / 4,
        forall|i: int| 0 <= i < words@.len() ==> words@[i] == le_word(bytes@, i),
{
    let len = bytes.len();
    let count = len / 4;
    let mut words: Vec<u32> = Vec::with_capacity(count);
    let mut i: usize = 0;
    while i < count
        invariant
            len == bytes@.len(),
            count == len / 4,
            i <= count,
            words@.len() == i,
            forall|j: int| 0 <= j < i ==> words@[j] == le_word(bytes@, j),
        decreases count - i,
    {
        assert(4 * i + 3 < bytes@.len()) by (nonlinear_arith)
            requires
                i < count,
                count == bytes@.len() / 4,
        ;
        assert(4 * i + 3 < len);
        let base = 4 * i;
        let b0 = bytes[base] as u32;
        let b1 = bytes[base + 1] as u32;
        let b2 = bytes[base + 2] as u32;
        let b3 = bytes[base + 3] as u32;
        let word = b0 + 0x100 * b1 + 0x1_0000 * b2 + 0x100_0000 * b3;
        words.push(word);
        i = i + 1;
    }
    words
}

} // verus!
