//! Shader binaries as sequences of 32-bit words.

use vstd::prelude::*;

verus! {

/// The first word of every shader binary.
pub const MAGIC_NUMBER: u32 = 0x0723_0203;

/// Word `i` of `bytes`, lowest byte first.
pub open spec fn word_le(bytes: Seq<u8>, i: int) -> u32 {
    (bytes[4 * i] + 0x100 * bytes[4 * i + 1] + 0x1_0000 * bytes[4 * i + 2] + 0x100_0000 * bytes[4
        * i + 3]) as u32
}

/// Word `i` of `bytes`, highest byte first.
pub open spec fn word_be(bytes: Seq<u8>, i: int) -> u32 {
    (0x100_0000 * bytes[4 * i] + 0x1_0000 * bytes[4 * i + 1] + 0x100 * bytes[4 * i + 2] + bytes[4
        * i + 3]) as u32
}

/// Whether `bytes` is a shader binary: a whole, positive number of words, the
/// first of which is the magic number in one of the two byte orders.
pub open spec fn is_spirv(bytes: Seq<u8>) -> bool {
    &&& bytes.len() % 4 == 0
    &&& bytes.len() > 0
    &&& (word_le(bytes, 0) == MAGIC_NUMBER || word_be(bytes, 0) == MAGIC_NUMBER)
}

/// The words of the shader binary `bytes`, read in the byte order in which
/// its first word is the magic number.
pub open spec fn spirv_words(bytes: Seq<u8>) -> Seq<u32> {
    Seq::new(
        bytes.len() / 4,
        |i: int|
            if word_le(bytes, 0) == MAGIC_NUMBER {
                word_le(bytes, i)
            } else {
                word_be(bytes, i)
            },
    )
}

/// `wgpu::read_spirv` on a cursor over `bytes`. Believed of it, from its
/// source: it fails unless the length is a positive multiple of four and the
/// first word is the magic number in one of the two byte orders; otherwise it
/// returns the words, all read in the byte order that makes the first one the
/// magic number.
#[verifier::external_body]
pub(crate) fn read_spirv(bytes: &[u8]) -> (words: Result<Vec<u32>, std::io::Error>)
    ensures
        words is Ok <==> is_spirv(bytes@),
        words matches Ok(w) ==> w@ == spirv_words(bytes@),
{
    wgpu::read_spirv(std::io::Cursor::new(bytes))
}

} // verus!
