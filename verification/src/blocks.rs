//! Byte-stream framing around the cipher: a text becomes whole 64-bit
//! blocks through byte padding, and blocks become bytes again so the
//! padding can be stripped after deciphering.
//!
//! The scheme pads with `n` bytes each holding the value `n`, where `n` is
//! `8 - (len % 8)`: a text whose length is already a multiple of eight
//! gains a full block of eights, so a marker is always present.

use vstd::prelude::*;
use vstd::slice::slice_to_vec;
use vstd::string::StringSliceAdditionalSpecFns;
use vstd::utf8::encode_utf8;

verus! {

/// How many padding bytes a text of `n` bytes receives: always 1 through 8.
pub open spec fn pad_of(n: int) -> int {
    8 - n % 8
}

/// The byte sequence with its padding appended.
pub open spec fn padded(b: Seq<u8>) -> Seq<u8> {
    b + Seq::new(pad_of(b.len() as int) as nat, |i: int| pad_of(b.len() as int) as u8)
}

/// Block `j` of a byte sequence, read most significant byte first.
pub open spec fn block_of(b: Seq<u8>, j: int) -> u64 {
    ((b[8 * j] as u64) << 56) | ((b[8 * j + 1] as u64) << 48) | ((b[8 * j + 2] as u64) << 40)
        | ((b[8 * j + 3] as u64) << 32) | ((b[8 * j + 4] as u64) << 24) | ((b[8 * j + 5] as u64)
        << 16) | ((b[8 * j + 6] as u64) << 8) | (b[8 * j + 7] as u64)
}

/// Every whole block of a byte sequence, in order.
pub open spec fn blocks_of(b: Seq<u8>) -> Seq<u64> {
    Seq::new((b.len() / 8) as nat, |j: int| block_of(b, j))
}

/// Byte `k` (0 is the most significant) of a 64-bit block.
pub open spec fn byte_of(b: u64, k: int) -> u8 {
    ((b >> ((8 * (7 - k)) as u64)) & 0xFF) as u8
}

/// The trailing byte names a count `n` of 1 through 8, and the last `n`
/// bytes all hold `n`.
pub open spec fn valid_padding(b: Seq<u8>) -> bool {
    &&& b.len() >= 1
    &&& 1 <= b.last() <= 8
    &&& b.last() <= b.len()
    &&& forall|i: int| b.len() - b.last() <= i < b.len() ==> b[i] == b.last()
}

/// Pad the text's bytes and pack them into blocks, eight bytes apiece,
/// most significant byte first.
pub fn string_to_blocks(plain_text: &String) -> (blocks: Vec<u64>)
    requires
        encode_utf8(plain_text@).len() + 8 <= usize::MAX,
    ensures
        blocks@ == blocks_of(padded(encode_utf8(plain_text@))),
{
    let text = plain_text.as_str().as_bytes();
    proof {
        assert(text@ == encode_utf8(plain_text@));
    }
    let mut bytes: Vec<u8> = slice_to_vec(text);
    let ghost original = bytes@;
    let pad: u8 = (8 - (bytes.len() % 8)) as u8;
    let mut added: usize = 0;
    while added < pad as usize
        invariant
            1 <= pad <= 8,
            pad as int == pad_of(original.len() as int),
            original.len() + 8 <= usize::MAX,
            added <= pad as usize,
            bytes@ == original + Seq::new(added as nat, |i: int| pad),
        decreases pad as usize - added,
    {
        bytes.push(pad);
        proof {
            assert(bytes@ =~= original + Seq::new((added + 1) as nat, |i: int| pad));
        }
        added += 1;
    }
    proof {
        assert(bytes@ =~= padded(original));
    }
    let mut blocks: Vec<u64> = Vec::new();
    let total = bytes.len() / 8;
    proof {
        assert(bytes@.len() == original.len() + pad_of(original.len() as int));
        assert(bytes@.len() % 8 == 0);
        assert(bytes@.len() == 8 * total);
    }
    let mut j: usize = 0;
    while j < total
        invariant
            total <= usize::MAX / 8,
            bytes@.len() == 8 * total,
            j <= total,
            blocks@.len() == j as int,
            forall|i: int| 0 <= i < j ==> blocks@[i] == block_of(bytes@, i),
        decreases total - j,
    {
        let base = 8 * j;
        let block = ((bytes[base] as u64) << 56) | ((bytes[base + 1] as u64) << 48) | ((bytes[base
            + 2] as u64) << 40) | ((bytes[base + 3] as u64) << 32) | ((bytes[base + 4] as u64)
            << 24) | ((bytes[base + 5] as u64) << 16) | ((bytes[base + 6] as u64) << 8) | (
        bytes[base + 7] as u64);
        blocks.push(block);
        j += 1;
    }
    proof {
        assert(blocks@ =~= blocks_of(padded(original)));
    }
    blocks
}

/// Spill the blocks back into bytes, most significant byte of each block
/// first.
pub fn blocks_to_bytes(blocks: &Vec<u64>) -> (bytes: Vec<u8>)
    requires
        8 * blocks@.len() <= usize::MAX,
    ensures
        bytes@.len() == 8 * blocks@.len(),
        forall|j: int, k: int|
            0 <= j < blocks@.len() && 0 <= k < 8 ==> bytes@[8 * j + k] == #[trigger] byte_of(
                blocks@[j],
                k,
            ),
{
    let mut bytes: Vec<u8> = Vec::new();
    let mut j: usize = 0;
    while j < blocks.len()
        invariant
            8 * blocks@.len() <= usize::MAX,
            j <= blocks@.len(),
            bytes@.len() == 8 * j as int,
            forall|i: int, k: int|
                0 <= i < j && 0 <= k < 8 ==> bytes@[8 * i + k] == #[trigger] byte_of(
                    blocks@[i],
                    k,
                ),
        decreases blocks@.len() - j,
    {
        let b = blocks[j];
        let ghost prev = bytes@;
        bytes.push(((b >> 56) & 0xFF) as u8);
        bytes.push(((b >> 48) & 0xFF) as u8);
        bytes.push(((b >> 40) & 0xFF) as u8);
        bytes.push(((b >> 32) & 0xFF) as u8);
        bytes.push(((b >> 24) & 0xFF) as u8);
        bytes.push(((b >> 16) & 0xFF) as u8);
        bytes.push(((b >> 8) & 0xFF) as u8);
        bytes.push((b & 0xFF) as u8);
        proof {
            assert forall|k: int| 0 <= k < 8 implies bytes@[8 * (j as int) + k] == byte_of(
                blocks@[j as int],
                k,
            ) by {
                assert(bytes@[8 * (j as int) + k] == bytes@[prev.len() + k]);
                if k == 0 {
                    assert(byte_of(b, 0) == ((b >> 56) & 0xFF) as u8);
                } else if k == 1 {
                    assert(byte_of(b, 1) == ((b >> 48) & 0xFF) as u8);
                } else if k == 2 {
                    assert(byte_of(b, 2) == ((b >> 40) & 0xFF) as u8);
                } else if k == 3 {
                    assert(byte_of(b, 3) == ((b >> 32) & 0xFF) as u8);
                } else if k == 4 {
                    assert(byte_of(b, 4) == ((b >> 24) & 0xFF) as u8);
                } else if k == 5 {
                    assert(byte_of(b, 5) == ((b >> 16) & 0xFF) as u8);
                } else if k == 6 {
                    assert(byte_of(b, 6) == ((b >> 8) & 0xFF) as u8);
                } else {
                    assert((b >> 0) & 0xFF == b & 0xFF) by (bit_vector);
                    assert(byte_of(b, 7) == (b & 0xFF) as u8);
                }
            }
        }
        j += 1;
    }
    bytes
}

/// Strip the padding when it is whole: on a well-padded byte vector drop
/// the trailing marker bytes and report success, and on anything else
/// leave the bytes exactly as they came and report the padding invalid.
pub fn unpad(blocks: &mut Vec<u8>) -> (ok: bool)
    requires
        old(blocks)@.len() >= 1,
    ensures
        ok == valid_padding(old(blocks)@),
        ok ==> final(blocks)@ == old(blocks)@.subrange(
            0,
            old(blocks)@.len() - old(blocks)@.last(),
        ),
        !ok ==> final(blocks)@ == old(blocks)@,
{
    let len = blocks.len();
    let pad = blocks[len - 1];
    if pad < 1 || pad > 8 || pad as usize > len {
        return false;
    }
    let start = len - pad as usize;
    let mut i: usize = start;
    while i < len
        invariant
            blocks@ == old(blocks)@,
            len == blocks@.len(),
            1 <= pad <= 8,
            pad == old(blocks)@.last(),
            pad as int <= len,
            start == len - pad,
            start <= i <= len,
            forall|m: int| start <= m < i ==> blocks@[m] == pad,
        decreases len - i,
    {
        if blocks[i] != pad {
            proof {
                assert(old(blocks)@.last() == pad);
                assert(old(blocks)@[i as int] != pad);
                assert(!valid_padding(old(blocks)@));
            }
            return false;
        }
        i += 1;
    }
    blocks.truncate(start);
    true
}

/// A freshly padded text always carries valid padding, and stripping it
/// returns exactly the original bytes: the framing loses nothing.
pub proof fn lemma_padding_round_trip(b: Seq<u8>)
    ensures
        valid_padding(padded(b)),
        padded(b).subrange(0, padded(b).len() - padded(b).last()) == b,
{
    let p = padded(b);
    assert(p.last() == pad_of(b.len() as int));
    assert(p.subrange(0, p.len() - p.last()) =~= b);
}

} // verus!
