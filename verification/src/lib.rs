//! The DES block cipher core: the sixteen-round Feistel network over 64-bit
//! blocks and the key schedule that feeds it, with enciphering and
//! deciphering differing only in the order the round keys are consumed.
//!
//! Every public operation carries a contract that pins its result down to
//! the bit, and the central Feistel property is proved once and for all:
//! deciphering an enciphered block under the same key returns the block.

use vstd::prelude::*;

pub mod blocks;
pub mod key_gen;
pub mod permute;
pub mod s_tables;

use crate::key_gen::key_at;
use crate::key_gen::key_seq;
use crate::key_gen::pc1_c_spec;
use crate::key_gen::pc1_d_spec;
use crate::key_gen::half_state;
use crate::key_gen::KeyGenerator;
use crate::permute::entries_in_range;
use crate::permute::fp_spec;
use crate::permute::ip_spec;
use crate::permute::permute;
use crate::permute::initial_permutation;
use crate::permute::final_permutation;
use crate::permute::lemma_final_inverts_initial;
use crate::permute::lemma_initial_inverts_final;
use crate::s_tables::s_value;
use crate::s_tables::S_BIT_MASK;
use crate::s_tables::S_TABLE;

verus! {

/// Bit `i` of `x` as a numeric value, either 0 or 1.
pub open spec fn bitv(x: u64, i: u64) -> u64 {
    (x >> i) & 1
}

/// True when bit `i` of `x` is set.
pub open spec fn bit64(x: u64, i: u64) -> bool {
    (x >> i) & 1 == 1
}

/// The E expansion: 48 positions within a 32-bit half, sixteen of them
/// listed twice so that the half widens to meet the 48-bit round key.
pub const E_BIT_TABLE: [u64; 48] = [
    32, 1, 2, 3, 4, 5, 4, 5,
    6, 7, 8, 9, 8, 9, 10, 11,
    12, 13, 12, 13, 14, 15, 16, 17,
    16, 17, 18, 19, 20, 21, 20, 21,
    22, 23, 24, 25, 24, 25, 26, 27,
    28, 29, 28, 29, 30, 31, 32, 1,
];

/// The P permutation applied to the 32 bits the substitution boxes
/// produce.
pub const P_TABLE: [u64; 32] = [
    16, 7, 20, 21, 29, 12, 28, 17,
    1, 15, 23, 26, 5, 18, 31, 10,
    2, 8, 24, 14, 32, 27, 3, 9,
    19, 13, 30, 6, 22, 11, 4, 25,
];

const RIGHT_MASK: u64 = 0x00000000FFFFFFFF;

const LEFT_MASK: u64 = 0xFFFFFFFF00000000;

/// The expansion of a 32-bit half to 48 bits, bit by bit.
pub open spec fn e_spec(x: u64) -> u64 {
    (bitv(x, 0) << 47) | (bitv(x, 31) << 46) | (bitv(x, 30) << 45) | (bitv(x, 29) << 44)
        | (bitv(x, 28) << 43) | (bitv(x, 27) << 42) | (bitv(x, 28) << 41) | (bitv(x, 27) << 40)
        | (bitv(x, 26) << 39) | (bitv(x, 25) << 38) | (bitv(x, 24) << 37) | (bitv(x, 23) << 36)
        | (bitv(x, 24) << 35) | (bitv(x, 23) << 34) | (bitv(x, 22) << 33) | (bitv(x, 21) << 32)
        | (bitv(x, 20) << 31) | (bitv(x, 19) << 30) | (bitv(x, 20) << 29) | (bitv(x, 19) << 28)
        | (bitv(x, 18) << 27) | (bitv(x, 17) << 26) | (bitv(x, 16) << 25) | (bitv(x, 15) << 24)
        | (bitv(x, 16) << 23) | (bitv(x, 15) << 22) | (bitv(x, 14) << 21) | (bitv(x, 13) << 20)
        | (bitv(x, 12) << 19) | (bitv(x, 11) << 18) | (bitv(x, 12) << 17) | (bitv(x, 11) << 16)
        | (bitv(x, 10) << 15) | (bitv(x, 9) << 14) | (bitv(x, 8) << 13) | (bitv(x, 7) << 12)
        | (bitv(x, 8) << 11) | (bitv(x, 7) << 10) | (bitv(x, 6) << 9) | (bitv(x, 5) << 8)
        | (bitv(x, 4) << 7) | (bitv(x, 3) << 6) | (bitv(x, 4) << 5) | (bitv(x, 3) << 4)
        | (bitv(x, 2) << 3) | (bitv(x, 1) << 2) | (bitv(x, 0) << 1) | (bitv(x, 31) << 0)
}

/// The P permutation, bit by bit.
pub open spec fn p_spec(x: u64) -> u64 {
    (bitv(x, 16) << 31) | (bitv(x, 25) << 30) | (bitv(x, 12) << 29) | (bitv(x, 11) << 28)
        | (bitv(x, 3) << 27) | (bitv(x, 20) << 26) | (bitv(x, 4) << 25) | (bitv(x, 15) << 24)
        | (bitv(x, 31) << 23) | (bitv(x, 17) << 22) | (bitv(x, 9) << 21) | (bitv(x, 6) << 20)
        | (bitv(x, 27) << 19) | (bitv(x, 14) << 18) | (bitv(x, 1) << 17) | (bitv(x, 22) << 16)
        | (bitv(x, 30) << 15) | (bitv(x, 24) << 14) | (bitv(x, 8) << 13) | (bitv(x, 18) << 12)
        | (bitv(x, 0) << 11) | (bitv(x, 5) << 10) | (bitv(x, 29) << 9) | (bitv(x, 23) << 8)
        | (bitv(x, 13) << 7) | (bitv(x, 19) << 6) | (bitv(x, 2) << 5) | (bitv(x, 26) << 4)
        | (bitv(x, 10) << 3) | (bitv(x, 21) << 2) | (bitv(x, 28) << 1) | (bitv(x, 7) << 0)
}

proof fn lemma_e_bit_table_entries()
    ensures
        entries_in_range(E_BIT_TABLE@, 32, 48),
{
    reveal_with_fuel(entries_in_range, 49);
}

proof fn lemma_p_table_entries()
    ensures
        entries_in_range(P_TABLE@, 32, 32),
{
    reveal_with_fuel(entries_in_range, 33);
}

/// E Generates the 48 bits from 32 bit rhs
fn e_bit_selection(in_block: u64) -> (r: u64)
    ensures
        r == e_spec(in_block),
{
    proof {
        assert(E_BIT_TABLE@[0] == 32 && E_BIT_TABLE@[1] == 1 && E_BIT_TABLE@[2] == 2 && E_BIT_TABLE@[3] == 3 && E_BIT_TABLE@[4] == 4 && E_BIT_TABLE@[5] == 5 && E_BIT_TABLE@[6] == 4 && E_BIT_TABLE@[7] == 5);
        assert(E_BIT_TABLE@[8] == 6 && E_BIT_TABLE@[9] == 7 && E_BIT_TABLE@[10] == 8 && E_BIT_TABLE@[11] == 9 && E_BIT_TABLE@[12] == 8 && E_BIT_TABLE@[13] == 9 && E_BIT_TABLE@[14] == 10 && E_BIT_TABLE@[15] == 11);
        assert(E_BIT_TABLE@[16] == 12 && E_BIT_TABLE@[17] == 13 && E_BIT_TABLE@[18] == 12 && E_BIT_TABLE@[19] == 13 && E_BIT_TABLE@[20] == 14 && E_BIT_TABLE@[21] == 15 && E_BIT_TABLE@[22] == 16 && E_BIT_TABLE@[23] == 17);
        assert(E_BIT_TABLE@[24] == 16 && E_BIT_TABLE@[25] == 17 && E_BIT_TABLE@[26] == 18 && E_BIT_TABLE@[27] == 19 && E_BIT_TABLE@[28] == 20 && E_BIT_TABLE@[29] == 21 && E_BIT_TABLE@[30] == 20 && E_BIT_TABLE@[31] == 21);
        assert(E_BIT_TABLE@[32] == 22 && E_BIT_TABLE@[33] == 23 && E_BIT_TABLE@[34] == 24 && E_BIT_TABLE@[35] == 25 && E_BIT_TABLE@[36] == 24 && E_BIT_TABLE@[37] == 25 && E_BIT_TABLE@[38] == 26 && E_BIT_TABLE@[39] == 27);
        assert(E_BIT_TABLE@[40] == 28 && E_BIT_TABLE@[41] == 29 && E_BIT_TABLE@[42] == 28 && E_BIT_TABLE@[43] == 29 && E_BIT_TABLE@[44] == 30 && E_BIT_TABLE@[45] == 31 && E_BIT_TABLE@[46] == 32 && E_BIT_TABLE@[47] == 1);
        lemma_e_bit_table_entries();
    }
    let r = permute(in_block, E_BIT_TABLE.as_slice(), 32);
    proof {
        assert(r == e_spec(in_block)) by (bit_vector)
            requires
                bit64(r, 47) == bit64(in_block, 0) && bit64(r, 46) == bit64(in_block, 31) && bit64(r, 45) == bit64(in_block, 30) && bit64(r, 44) == bit64(in_block, 29),
                bit64(r, 43) == bit64(in_block, 28) && bit64(r, 42) == bit64(in_block, 27) && bit64(r, 41) == bit64(in_block, 28) && bit64(r, 40) == bit64(in_block, 27),
                bit64(r, 39) == bit64(in_block, 26) && bit64(r, 38) == bit64(in_block, 25) && bit64(r, 37) == bit64(in_block, 24) && bit64(r, 36) == bit64(in_block, 23),
                bit64(r, 35) == bit64(in_block, 24) && bit64(r, 34) == bit64(in_block, 23) && bit64(r, 33) == bit64(in_block, 22) && bit64(r, 32) == bit64(in_block, 21),
                bit64(r, 31) == bit64(in_block, 20) && bit64(r, 30) == bit64(in_block, 19) && bit64(r, 29) == bit64(in_block, 20) && bit64(r, 28) == bit64(in_block, 19),
                bit64(r, 27) == bit64(in_block, 18) && bit64(r, 26) == bit64(in_block, 17) && bit64(r, 25) == bit64(in_block, 16) && bit64(r, 24) == bit64(in_block, 15),
                bit64(r, 23) == bit64(in_block, 16) && bit64(r, 22) == bit64(in_block, 15) && bit64(r, 21) == bit64(in_block, 14) && bit64(r, 20) == bit64(in_block, 13),
                bit64(r, 19) == bit64(in_block, 12) && bit64(r, 18) == bit64(in_block, 11) && bit64(r, 17) == bit64(in_block, 12) && bit64(r, 16) == bit64(in_block, 11),
                bit64(r, 15) == bit64(in_block, 10) && bit64(r, 14) == bit64(in_block, 9) && bit64(r, 13) == bit64(in_block, 8) && bit64(r, 12) == bit64(in_block, 7),
                bit64(r, 11) == bit64(in_block, 8) && bit64(r, 10) == bit64(in_block, 7) && bit64(r, 9) == bit64(in_block, 6) && bit64(r, 8) == bit64(in_block, 5),
                bit64(r, 7) == bit64(in_block, 4) && bit64(r, 6) == bit64(in_block, 3) && bit64(r, 5) == bit64(in_block, 4) && bit64(r, 4) == bit64(in_block, 3),
                bit64(r, 3) == bit64(in_block, 2) && bit64(r, 2) == bit64(in_block, 1) && bit64(r, 1) == bit64(in_block, 0) && bit64(r, 0) == bit64(in_block, 31),
                !bit64(r, 48) && !bit64(r, 49) && !bit64(r, 50) && !bit64(r, 51) && !bit64(r, 52) && !bit64(r, 53),
                !bit64(r, 54) && !bit64(r, 55) && !bit64(r, 56) && !bit64(r, 57) && !bit64(r, 58) && !bit64(r, 59),
                !bit64(r, 60) && !bit64(r, 61) && !bit64(r, 62) && !bit64(r, 63),
        ;
    }
    r
}

/// The 6-bit chunk `i` of the 48-bit round mix, chunks counted from the
/// most significant end.
pub open spec fn s_chunk(x: u64, i: int) -> u64 {
    (x >> ((42 - 6 * i) as u64)) & 0b111111
}

/// The first `n` substituted chunks, packed so that chunk `i` lands in
/// nibble `7 - i`: the least significant chunk fills the least significant
/// nibble.
pub open spec fn s_acc(x: u64, n: int) -> u64
    decreases n,
{
    if n <= 0 {
        0
    } else {
        s_acc(x, n - 1) | (s_value(n - 1, s_chunk(x, n - 1)) << ((28 - 4 * (n - 1)) as u64))
    }
}

/// What one Feistel round adds: expand the half, mix in the round key,
/// substitute chunk by chunk and permute the result.
pub open spec fn round_spec(rhs: u64, key: u64) -> u64 {
    p_spec(s_acc(e_spec(rhs) ^ key, 8))
}

/// Feistel round function
/// Runs E bit selection on rhs
/// Xor result with key
/// Run result through S Table & permute the result with P
fn round_fn(rhs: u64, key: u64) -> (r: u64)
    ensures
        r == round_spec(rhs, key),
{
    // create 48 bits from 32 bit rhs
    let e = e_bit_selection(rhs);
    let k_x_er = e ^ key;

    let mut out_bits: u64 = 0;
    let mut i: usize = 0;
    while i < 8
        invariant
            i <= 8,
            out_bits == s_acc(k_x_er, i as int),
        decreases 8 - i,
    {
        let chunk = (k_x_er >> (42 - 6 * (i as u64))) & S_BIT_MASK;
        // first & last bits concatenated pick the row
        let x = ((chunk >> 4) & 2) | (chunk & 1);
        // middle four bits pick the column
        let y = (chunk >> 1) & 0xF;
        proof {
            assert(x < 4 && y < 16) by (bit_vector)
                requires
                    x == ((chunk >> 4) & 2) | (chunk & 1),
                    y == (chunk >> 1) & 0xF,
            ;
            assert(chunk == s_chunk(k_x_er, i as int));
        }
        let s = S_TABLE[i][x as usize][y as usize];
        out_bits = out_bits | (s << (28 - 4 * (i as u64)));
        proof {
            assert(s == s_value(i as int, chunk));
            assert(out_bits == s_acc(k_x_er, i as int + 1));
        }
        i += 1;
    }
    proof {
        assert(P_TABLE@[0] == 16 && P_TABLE@[1] == 7 && P_TABLE@[2] == 20 && P_TABLE@[3] == 21 && P_TABLE@[4] == 29 && P_TABLE@[5] == 12 && P_TABLE@[6] == 28 && P_TABLE@[7] == 17);
        assert(P_TABLE@[8] == 1 && P_TABLE@[9] == 15 && P_TABLE@[10] == 23 && P_TABLE@[11] == 26 && P_TABLE@[12] == 5 && P_TABLE@[13] == 18 && P_TABLE@[14] == 31 && P_TABLE@[15] == 10);
        assert(P_TABLE@[16] == 2 && P_TABLE@[17] == 8 && P_TABLE@[18] == 24 && P_TABLE@[19] == 14 && P_TABLE@[20] == 32 && P_TABLE@[21] == 27 && P_TABLE@[22] == 3 && P_TABLE@[23] == 9);
        assert(P_TABLE@[24] == 19 && P_TABLE@[25] == 13 && P_TABLE@[26] == 30 && P_TABLE@[27] == 6 && P_TABLE@[28] == 22 && P_TABLE@[29] == 11 && P_TABLE@[30] == 4 && P_TABLE@[31] == 25);
        lemma_p_table_entries();
    }
    let out_block = permute(out_bits, P_TABLE.as_slice(), 32);
    proof {
        assert(out_block == p_spec(out_bits)) by (bit_vector)
            requires
                bit64(out_block, 31) == bit64(out_bits, 16) && bit64(out_block, 30) == bit64(out_bits, 25) && bit64(out_block, 29) == bit64(out_bits, 12) && bit64(out_block, 28) == bit64(out_bits, 11),
                bit64(out_block, 27) == bit64(out_bits, 3) && bit64(out_block, 26) == bit64(out_bits, 20) && bit64(out_block, 25) == bit64(out_bits, 4) && bit64(out_block, 24) == bit64(out_bits, 15),
                bit64(out_block, 23) == bit64(out_bits, 31) && bit64(out_block, 22) == bit64(out_bits, 17) && bit64(out_block, 21) == bit64(out_bits, 9) && bit64(out_block, 20) == bit64(out_bits, 6),
                bit64(out_block, 19) == bit64(out_bits, 27) && bit64(out_block, 18) == bit64(out_bits, 14) && bit64(out_block, 17) == bit64(out_bits, 1) && bit64(out_block, 16) == bit64(out_bits, 22),
                bit64(out_block, 15) == bit64(out_bits, 30) && bit64(out_block, 14) == bit64(out_bits, 24) && bit64(out_block, 13) == bit64(out_bits, 8) && bit64(out_block, 12) == bit64(out_bits, 18),
                bit64(out_block, 11) == bit64(out_bits, 0) && bit64(out_block, 10) == bit64(out_bits, 5) && bit64(out_block, 9) == bit64(out_bits, 29) && bit64(out_block, 8) == bit64(out_bits, 23),
                bit64(out_block, 7) == bit64(out_bits, 13) && bit64(out_block, 6) == bit64(out_bits, 19) && bit64(out_block, 5) == bit64(out_bits, 2) && bit64(out_block, 4) == bit64(out_bits, 26),
                bit64(out_block, 3) == bit64(out_bits, 10) && bit64(out_block, 2) == bit64(out_bits, 21) && bit64(out_block, 1) == bit64(out_bits, 28) && bit64(out_block, 0) == bit64(out_bits, 7),
                !bit64(out_block, 32) && !bit64(out_block, 33) && !bit64(out_block, 34) && !bit64(out_block, 35) && !bit64(out_block, 36) && !bit64(out_block, 37),
                !bit64(out_block, 38) && !bit64(out_block, 39) && !bit64(out_block, 40) && !bit64(out_block, 41) && !bit64(out_block, 42) && !bit64(out_block, 43),
                !bit64(out_block, 44) && !bit64(out_block, 45) && !bit64(out_block, 46) && !bit64(out_block, 47) && !bit64(out_block, 48) && !bit64(out_block, 49),
                !bit64(out_block, 50) && !bit64(out_block, 51) && !bit64(out_block, 52) && !bit64(out_block, 53) && !bit64(out_block, 54) && !bit64(out_block, 55),
                !bit64(out_block, 56) && !bit64(out_block, 57) && !bit64(out_block, 58) && !bit64(out_block, 59) && !bit64(out_block, 60) && !bit64(out_block, 61),
                !bit64(out_block, 62) && !bit64(out_block, 63),
        ;
    }
    out_block
}

/// Denoted enciphering or deciphering
/// Used to determine the key ordering to use
pub enum FeistelMode {
    Encipher,
    Decipher,
}

/// The halves after `n` rounds: each round turns `(l, r)` into
/// `(r, l ^ round_spec(r, k))`, where `k` walks the round keys forwards
/// when enciphering and backwards when deciphering.
pub open spec fn rounds(l: u64, r: u64, ks: Seq<u64>, enc: bool, n: int) -> (u64, u64)
    decreases n,
{
    if n <= 0 {
        (l, r)
    } else {
        let prev = rounds(l, r, ks, enc, n - 1);
        let k = if enc {
            ks[n - 1]
        } else {
            ks[16 - n]
        };
        (prev.1, prev.0 ^ round_spec(prev.1, k))
    }
}

/// A whole cipher pass over `block` with the halves of the schedule
/// starting as `c0` and `d0`: initial permutation, sixteen rounds, the
/// swapped recombination and the final permutation.
pub open spec fn transform_spec(block: u64, c0: u64, d0: u64, enc: bool) -> u64 {
    let y = ip_spec(block);
    let fin = rounds(y >> 32, y & 0xFFFFFFFF, key_seq(c0, d0), enc, 16);
    fp_spec((fin.1 << 32) | fin.0)
}

/// What `encipher` returns for any block and key.
pub open spec fn encipher_spec(block: u64, key: u64) -> u64 {
    transform_spec(block, pc1_c_spec(key), pc1_d_spec(key), true)
}

/// What `decipher` returns for any block and key.
pub open spec fn decipher_spec(block: u64, key: u64) -> u64 {
    transform_spec(block, pc1_c_spec(key), pc1_d_spec(key), false)
}

/// Run one whole cipher pass: collect the sixteen round keys from a fresh
/// schedule, then drive the rounds forwards or backwards as the mode says.
pub fn feistel(in_data: u64, key_gen: &mut KeyGenerator, mode: FeistelMode) -> (r: u64)
    requires
        old(key_gen).wf(),
        old(key_gen).rounds_done() == 0,
    ensures
        r == transform_spec(
            in_data,
            old(key_gen).c_half(),
            old(key_gen).d_half(),
            mode matches FeistelMode::Encipher,
        ),
        final(key_gen).wf(),
        final(key_gen).rounds_done() == 16,
{
    let ghost c0 = key_gen.c_half();
    let ghost d0 = key_gen.d_half();
    let permuted_input = initial_permutation(in_data);

    proof {
        lemma_split_masks(permuted_input);
    }
    let (mut lhs, mut rhs) = ((permuted_input & LEFT_MASK) >> 32, permuted_input & RIGHT_MASK);
    let ghost l0 = lhs;
    let ghost r0 = rhs;

    let mut keys: Vec<u64> = Vec::new();
    let mut kround: usize = 0;
    while kround < 16
        invariant
            key_gen.wf(),
            key_gen.rounds_done() == kround as int,
            kround <= 16,
            key_gen.c_half() == half_state(c0, kround as int),
            key_gen.d_half() == half_state(d0, kround as int),
            keys@.len() == kround as int,
            forall|j: int| 0 <= j < kround ==> keys@[j] == key_at(c0, d0, j),
        decreases 16 - kround,
    {
        match key_gen.next() {
            Some(k) => {
                keys.push(k);
            },
            None => {
                proof {
                    assert(false);
                }
            },
        }
        kround += 1;
    }
    proof {
        assert(keys@ =~= key_seq(c0, d0));
    }

    let enc: bool = match mode {
        FeistelMode::Encipher => true,
        FeistelMode::Decipher => false,
    };
    let mut i: usize = 0;
    while i < 16
        invariant
            keys@ == key_seq(c0, d0),
            keys@.len() == 16,
            i <= 16,
            enc == (mode matches FeistelMode::Encipher),
            lhs == rounds(l0, r0, key_seq(c0, d0), enc, i as int).0,
            rhs == rounds(l0, r0, key_seq(c0, d0), enc, i as int).1,
        decreases 16 - i,
    {
        let key = if enc {
            keys[i]
        } else {
            keys[15 - i]
        };
        let fkr = round_fn(rhs, key);

        let r_1 = lhs ^ fkr;
        let l_1 = rhs;

        rhs = r_1;
        lhs = l_1;
        i += 1;
    }
    let out = (rhs << 32) | lhs;

    final_permutation(out)
}

/// Encipher the 64 bit plain_block with the 64 bit secret
///
/// The result is a function of the two arguments alone, as the contract
/// states: repeated calls on the same inputs return the same block.
pub fn encipher(plain_block: u64, secret: u64) -> (r: u64)
    ensures
        r == encipher_spec(plain_block, secret),
{
    let mut key_gen = KeyGenerator::new(secret);
    feistel(plain_block, &mut key_gen, FeistelMode::Encipher)
}

/// Decipher the 64 bit cipher_block with the 64 bit secret
///
/// Like `encipher`, this is deterministic: the contract pins the result to
/// a function of the block and the key.
pub fn decipher(cipher_block: u64, secret: u64) -> (r: u64)
    ensures
        r == decipher_spec(cipher_block, secret),
{
    let mut key_gen = KeyGenerator::new(secret);
    feistel(cipher_block, &mut key_gen, FeistelMode::Decipher)
}

proof fn lemma_split_masks(y: u64)
    by (bit_vector)
    ensures
        (y & 0xFFFFFFFF00000000) >> 32 == y >> 32,
        ((y >> 32) << 32) | (y & 0xFFFFFFFF) == y,
        y >> 32 < 0x100000000,
        y & 0xFFFFFFFF < 0x100000000,
{
}

proof fn lemma_join_halves(hi: u64, lo: u64)
    by (bit_vector)
    requires
        hi < 0x100000000,
        lo < 0x100000000,
    ensures
        ((hi << 32) | lo) >> 32 == hi,
        ((hi << 32) | lo) & 0xFFFFFFFF == lo,
{
}

proof fn lemma_xor_cancel(a: u64, b: u64)
    by (bit_vector)
    ensures
        (a ^ b) ^ b == a,
{
}

proof fn lemma_xor_keeps_width(a: u64, b: u64)
    by (bit_vector)
    requires
        a < 0x100000000,
        b < 0x100000000,
    ensures
        a ^ b < 0x100000000,
{
}

proof fn lemma_p_spec_bound(x: u64)
    by (bit_vector)
    ensures
        p_spec(x) < 0x100000000,
{
}

/// The halves never outgrow 32 bits, whichever way the rounds run.
proof fn lemma_rounds_bounded(l: u64, r: u64, ks: Seq<u64>, enc: bool, n: int)
    requires
        l < 0x100000000,
        r < 0x100000000,
    ensures
        rounds(l, r, ks, enc, n).0 < 0x100000000,
        rounds(l, r, ks, enc, n).1 < 0x100000000,
    decreases n,
{
    if n > 0 {
        lemma_rounds_bounded(l, r, ks, enc, n - 1);
        let prev = rounds(l, r, ks, enc, n - 1);
        let k = if enc {
            ks[n - 1]
        } else {
            ks[16 - n]
        };
        lemma_p_spec_bound(s_acc(e_spec(prev.1) ^ k, 8));
        lemma_xor_keeps_width(prev.0, round_spec(prev.1, k));
    }
}

/// Running the rounds backwards undoes running them forwards: after `i`
/// backward rounds on the swapped final state, the halves are the swapped
/// state that `16 - i` forward rounds had reached.
proof fn lemma_rounds_invert(l: u64, r: u64, ks: Seq<u64>, i: int)
    requires
        ks.len() == 16,
        0 <= i <= 16,
    ensures
        ({
            let fin = rounds(l, r, ks, true, 16);
            let part = rounds(l, r, ks, true, 16 - i);
            rounds(fin.1, fin.0, ks, false, i) == (part.1, part.0)
        }),
    decreases i,
{
    if i > 0 {
        lemma_rounds_invert(l, r, ks, i - 1);
        let a = rounds(l, r, ks, true, 16 - i);
        let b = rounds(l, r, ks, true, 16 - i + 1);
        lemma_xor_cancel(a.0, round_spec(a.1, ks[16 - i]));
    }
}

/// The Feistel round trip: deciphering an enciphered block under the same
/// key returns the block, whatever the block and key.
pub proof fn lemma_decipher_inverts_encipher(block: u64, key: u64)
    ensures
        decipher_spec(encipher_spec(block, key), key) == block,
{
    let c0 = pc1_c_spec(key);
    let d0 = pc1_d_spec(key);
    let ks = key_seq(c0, d0);
    let y = ip_spec(block);
    let l0 = y >> 32;
    let r0 = y & 0xFFFFFFFF;
    let fin = rounds(l0, r0, ks, true, 16);
    lemma_split_masks(y);
    lemma_rounds_bounded(l0, r0, ks, true, 16);
    lemma_initial_inverts_final((fin.1 << 32) | fin.0);
    lemma_join_halves(fin.1, fin.0);
    lemma_rounds_invert(l0, r0, ks, 16);
    lemma_final_inverts_initial(block);
}

} // verus!
