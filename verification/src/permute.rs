//! The bit-permutation primitive shared by every fixed table of the cipher,
//! together with the initial and final block permutations that frame the
//! sixteen Feistel rounds.
//!
//! Throughout the crate a value is read in the customary DES order: bit 1 of
//! an n-bit pattern is the most significant bit, so bit `j` (1-indexed) of a
//! pattern held in the low `n` bits of a `u64` is machine bit `n - j`.

use vstd::prelude::*;
use crate::{bit64, bitv};

verus! {

/// The initial permutation: output bit `i` (1-indexed from the most
/// significant end) is input bit `IP_TABLE[i - 1]`.
pub const IP_TABLE: [u64; 64] = [
    58, 50, 42, 34, 26, 18, 10, 2,
    60, 52, 44, 36, 28, 20, 12, 4,
    62, 54, 46, 38, 30, 22, 14, 6,
    64, 56, 48, 40, 32, 24, 16, 8,
    57, 49, 41, 33, 25, 17, 9, 1,
    59, 51, 43, 35, 27, 19, 11, 3,
    61, 53, 45, 37, 29, 21, 13, 5,
    63, 55, 47, 39, 31, 23, 15, 7,
];

/// The final permutation, the inverse of `IP_TABLE`.
pub const FP_TABLE: [u64; 64] = [
    40, 8, 48, 16, 56, 24, 64, 32,
    39, 7, 47, 15, 55, 23, 63, 31,
    38, 6, 46, 14, 54, 22, 62, 30,
    37, 5, 45, 13, 53, 21, 61, 29,
    36, 4, 44, 12, 52, 20, 60, 28,
    35, 3, 43, 11, 51, 19, 59, 27,
    34, 2, 42, 10, 50, 18, 58, 26,
    33, 1, 41, 9, 49, 17, 57, 25,
];

/// The first `n` entries of `t` are 1-indexed positions within a `w`-bit
/// pattern, as every permutation table must hold.
pub open spec fn entries_in_range(t: Seq<u64>, w: u64, n: int) -> bool
    decreases n,
{
    n <= 0 || (1 <= t[n - 1] <= w && entries_in_range(t, w, n - 1))
}

proof fn lemma_entries_in_range(t: Seq<u64>, w: u64, n: int)
    requires
        entries_in_range(t, w, n),
    ensures
        forall|i: int| 0 <= i < n ==> 1 <= #[trigger] t[i] <= w,
    decreases n,
{
    if n > 0 {
        lemma_entries_in_range(t, w, n - 1);
    }
}

/// A word of value zero has no bit set.
proof fn lemma_zero_has_no_bits()
    by (bit_vector)
    ensures
        forall|j: u64| !(#[trigger] bit64(0u64, j)),
{
}

/// Setting one bit of a word leaves every other bit as it was.
proof fn lemma_or_sets_bit(x: u64, k: u64, j: u64)
    by (bit_vector)
    requires
        k < 64,
        j < 64,
    ensures
        bit64(x | (1u64 << k), k),
        j != k ==> bit64(x | (1u64 << k), j) == bit64(x, j),
{
}

/// The permutation primitive: output bit `i` (0-indexed from the most
/// significant end of a `table.len()`-bit pattern) is input bit `table[i]`
/// (1-indexed from the most significant end of a `w`-bit pattern).
///
/// Permuted choice 1 and 2, the E expansion, the P permutation and the
/// initial and final block permutations are all this one function driven by
/// their fixed tables.
pub fn permute(input: u64, table: &[u64], w: u64) -> (r: u64)
    requires
        table@.len() <= 64,
        w <= 64,
        entries_in_range(table@, w, table@.len() as int),
    ensures
        forall|i: int|
            0 <= i < table@.len() ==> bit64(r, (table@.len() - 1 - i) as u64) == bit64(
                input,
                (w - #[trigger] table@[i]) as u64,
            ),
        forall|j: u64| table@.len() <= j < 64 ==> !bit64(r, j),
{
    proof {
        lemma_entries_in_range(table@, w, table@.len() as int);
        lemma_zero_has_no_bits();
    }
    let n: usize = table.len();
    let mut out: u64 = 0;
    let mut idx: usize = 0;
    while idx < n
        invariant
            n == table@.len(),
            n <= 64,
            w <= 64,
            idx <= n,
            forall|i: int| 0 <= i < n ==> 1 <= #[trigger] table@[i] <= w,
            forall|i: int|
                0 <= i < idx ==> bit64(out, (n - 1 - i) as u64) == bit64(
                    input,
                    (w - #[trigger] table@[i]) as u64,
                ),
            forall|j: u64| (j < n - idx || n <= j < 64) ==> !bit64(out, j),
        decreases n - idx,
    {
        let pos: u64 = w - table[idx];
        let target: u64 = (n - 1 - idx) as u64;
        if (input >> pos) & 1 == 1 {
            let prev: Ghost<u64> = Ghost(out);
            out = out | (1u64 << target);
            proof {
                assert forall|j: u64| j < 64 && j != target implies bit64(out, j) == bit64(
                    prev@,
                    j,
                ) by {
                    lemma_or_sets_bit(prev@, target, j);
                }
                lemma_or_sets_bit(prev@, target, target);
            }
        }
        idx = idx + 1;
    }
    out
}

proof fn lemma_ip_table_entries()
    ensures
        entries_in_range(IP_TABLE@, 64, 64),
{
    reveal_with_fuel(entries_in_range, 65);
}

proof fn lemma_fp_table_entries()
    ensures
        entries_in_range(FP_TABLE@, 64, 64),
{
    reveal_with_fuel(entries_in_range, 65);
}

/// What the initial permutation returns, bit by bit.
pub open spec fn ip_spec(x: u64) -> u64 {
    (bitv(x, 6) << 63) | (bitv(x, 14) << 62) | (bitv(x, 22) << 61) | (bitv(x, 30) << 60)
        | (bitv(x, 38) << 59) | (bitv(x, 46) << 58) | (bitv(x, 54) << 57) | (bitv(x, 62) << 56)
        | (bitv(x, 4) << 55) | (bitv(x, 12) << 54) | (bitv(x, 20) << 53) | (bitv(x, 28) << 52)
        | (bitv(x, 36) << 51) | (bitv(x, 44) << 50) | (bitv(x, 52) << 49) | (bitv(x, 60) << 48)
        | (bitv(x, 2) << 47) | (bitv(x, 10) << 46) | (bitv(x, 18) << 45) | (bitv(x, 26) << 44)
        | (bitv(x, 34) << 43) | (bitv(x, 42) << 42) | (bitv(x, 50) << 41) | (bitv(x, 58) << 40)
        | (bitv(x, 0) << 39) | (bitv(x, 8) << 38) | (bitv(x, 16) << 37) | (bitv(x, 24) << 36)
        | (bitv(x, 32) << 35) | (bitv(x, 40) << 34) | (bitv(x, 48) << 33) | (bitv(x, 56) << 32)
        | (bitv(x, 7) << 31) | (bitv(x, 15) << 30) | (bitv(x, 23) << 29) | (bitv(x, 31) << 28)
        | (bitv(x, 39) << 27) | (bitv(x, 47) << 26) | (bitv(x, 55) << 25) | (bitv(x, 63) << 24)
        | (bitv(x, 5) << 23) | (bitv(x, 13) << 22) | (bitv(x, 21) << 21) | (bitv(x, 29) << 20)
        | (bitv(x, 37) << 19) | (bitv(x, 45) << 18) | (bitv(x, 53) << 17) | (bitv(x, 61) << 16)
        | (bitv(x, 3) << 15) | (bitv(x, 11) << 14) | (bitv(x, 19) << 13) | (bitv(x, 27) << 12)
        | (bitv(x, 35) << 11) | (bitv(x, 43) << 10) | (bitv(x, 51) << 9) | (bitv(x, 59) << 8)
        | (bitv(x, 1) << 7) | (bitv(x, 9) << 6) | (bitv(x, 17) << 5) | (bitv(x, 25) << 4)
        | (bitv(x, 33) << 3) | (bitv(x, 41) << 2) | (bitv(x, 49) << 1) | (bitv(x, 57) << 0)
}

/// What the final permutation returns, bit by bit.
pub open spec fn fp_spec(x: u64) -> u64 {
    (bitv(x, 24) << 63) | (bitv(x, 56) << 62) | (bitv(x, 16) << 61) | (bitv(x, 48) << 60)
        | (bitv(x, 8) << 59) | (bitv(x, 40) << 58) | (bitv(x, 0) << 57) | (bitv(x, 32) << 56)
        | (bitv(x, 25) << 55) | (bitv(x, 57) << 54) | (bitv(x, 17) << 53) | (bitv(x, 49) << 52)
        | (bitv(x, 9) << 51) | (bitv(x, 41) << 50) | (bitv(x, 1) << 49) | (bitv(x, 33) << 48)
        | (bitv(x, 26) << 47) | (bitv(x, 58) << 46) | (bitv(x, 18) << 45) | (bitv(x, 50) << 44)
        | (bitv(x, 10) << 43) | (bitv(x, 42) << 42) | (bitv(x, 2) << 41) | (bitv(x, 34) << 40)
        | (bitv(x, 27) << 39) | (bitv(x, 59) << 38) | (bitv(x, 19) << 37) | (bitv(x, 51) << 36)
        | (bitv(x, 11) << 35) | (bitv(x, 43) << 34) | (bitv(x, 3) << 33) | (bitv(x, 35) << 32)
        | (bitv(x, 28) << 31) | (bitv(x, 60) << 30) | (bitv(x, 20) << 29) | (bitv(x, 52) << 28)
        | (bitv(x, 12) << 27) | (bitv(x, 44) << 26) | (bitv(x, 4) << 25) | (bitv(x, 36) << 24)
        | (bitv(x, 29) << 23) | (bitv(x, 61) << 22) | (bitv(x, 21) << 21) | (bitv(x, 53) << 20)
        | (bitv(x, 13) << 19) | (bitv(x, 45) << 18) | (bitv(x, 5) << 17) | (bitv(x, 37) << 16)
        | (bitv(x, 30) << 15) | (bitv(x, 62) << 14) | (bitv(x, 22) << 13) | (bitv(x, 54) << 12)
        | (bitv(x, 14) << 11) | (bitv(x, 46) << 10) | (bitv(x, 6) << 9) | (bitv(x, 38) << 8)
        | (bitv(x, 31) << 7) | (bitv(x, 63) << 6) | (bitv(x, 23) << 5) | (bitv(x, 55) << 4)
        | (bitv(x, 15) << 3) | (bitv(x, 47) << 2) | (bitv(x, 7) << 1) | (bitv(x, 39) << 0)
}

/// Reorder the bits of a block as the standard prescribes before the
/// rounds begin.
pub fn initial_permutation(block: u64) -> (r: u64)
    ensures
        r == ip_spec(block),
{
    proof {
        assert(IP_TABLE@[0] == 58 && IP_TABLE@[1] == 50 && IP_TABLE@[2] == 42 && IP_TABLE@[3] == 34 && IP_TABLE@[4] == 26 && IP_TABLE@[5] == 18 && IP_TABLE@[6] == 10 && IP_TABLE@[7] == 2);
        assert(IP_TABLE@[8] == 60 && IP_TABLE@[9] == 52 && IP_TABLE@[10] == 44 && IP_TABLE@[11] == 36 && IP_TABLE@[12] == 28 && IP_TABLE@[13] == 20 && IP_TABLE@[14] == 12 && IP_TABLE@[15] == 4);
        assert(IP_TABLE@[16] == 62 && IP_TABLE@[17] == 54 && IP_TABLE@[18] == 46 && IP_TABLE@[19] == 38 && IP_TABLE@[20] == 30 && IP_TABLE@[21] == 22 && IP_TABLE@[22] == 14 && IP_TABLE@[23] == 6);
        assert(IP_TABLE@[24] == 64 && IP_TABLE@[25] == 56 && IP_TABLE@[26] == 48 && IP_TABLE@[27] == 40 && IP_TABLE@[28] == 32 && IP_TABLE@[29] == 24 && IP_TABLE@[30] == 16 && IP_TABLE@[31] == 8);
        assert(IP_TABLE@[32] == 57 && IP_TABLE@[33] == 49 && IP_TABLE@[34] == 41 && IP_TABLE@[35] == 33 && IP_TABLE@[36] == 25 && IP_TABLE@[37] == 17 && IP_TABLE@[38] == 9 && IP_TABLE@[39] == 1);
        assert(IP_TABLE@[40] == 59 && IP_TABLE@[41] == 51 && IP_TABLE@[42] == 43 && IP_TABLE@[43] == 35 && IP_TABLE@[44] == 27 && IP_TABLE@[45] == 19 && IP_TABLE@[46] == 11 && IP_TABLE@[47] == 3);
        assert(IP_TABLE@[48] == 61 && IP_TABLE@[49] == 53 && IP_TABLE@[50] == 45 && IP_TABLE@[51] == 37 && IP_TABLE@[52] == 29 && IP_TABLE@[53] == 21 && IP_TABLE@[54] == 13 && IP_TABLE@[55] == 5);
        assert(IP_TABLE@[56] == 63 && IP_TABLE@[57] == 55 && IP_TABLE@[58] == 47 && IP_TABLE@[59] == 39 && IP_TABLE@[60] == 31 && IP_TABLE@[61] == 23 && IP_TABLE@[62] == 15 && IP_TABLE@[63] == 7);
        lemma_ip_table_entries();
    }
    let r = permute(block, IP_TABLE.as_slice(), 64);
    proof {
        assert(r == ip_spec(block)) by (bit_vector)
            requires
                bit64(r, 63) == bit64(block, 6) && bit64(r, 62) == bit64(block, 14) && bit64(r, 61) == bit64(block, 22) && bit64(r, 60) == bit64(block, 30),
                bit64(r, 59) == bit64(block, 38) && bit64(r, 58) == bit64(block, 46) && bit64(r, 57) == bit64(block, 54) && bit64(r, 56) == bit64(block, 62),
                bit64(r, 55) == bit64(block, 4) && bit64(r, 54) == bit64(block, 12) && bit64(r, 53) == bit64(block, 20) && bit64(r, 52) == bit64(block, 28),
                bit64(r, 51) == bit64(block, 36) && bit64(r, 50) == bit64(block, 44) && bit64(r, 49) == bit64(block, 52) && bit64(r, 48) == bit64(block, 60),
                bit64(r, 47) == bit64(block, 2) && bit64(r, 46) == bit64(block, 10) && bit64(r, 45) == bit64(block, 18) && bit64(r, 44) == bit64(block, 26),
                bit64(r, 43) == bit64(block, 34) && bit64(r, 42) == bit64(block, 42) && bit64(r, 41) == bit64(block, 50) && bit64(r, 40) == bit64(block, 58),
                bit64(r, 39) == bit64(block, 0) && bit64(r, 38) == bit64(block, 8) && bit64(r, 37) == bit64(block, 16) && bit64(r, 36) == bit64(block, 24),
                bit64(r, 35) == bit64(block, 32) && bit64(r, 34) == bit64(block, 40) && bit64(r, 33) == bit64(block, 48) && bit64(r, 32) == bit64(block, 56),
                bit64(r, 31) == bit64(block, 7) && bit64(r, 30) == bit64(block, 15) && bit64(r, 29) == bit64(block, 23) && bit64(r, 28) == bit64(block, 31),
                bit64(r, 27) == bit64(block, 39) && bit64(r, 26) == bit64(block, 47) && bit64(r, 25) == bit64(block, 55) && bit64(r, 24) == bit64(block, 63),
                bit64(r, 23) == bit64(block, 5) && bit64(r, 22) == bit64(block, 13) && bit64(r, 21) == bit64(block, 21) && bit64(r, 20) == bit64(block, 29),
                bit64(r, 19) == bit64(block, 37) && bit64(r, 18) == bit64(block, 45) && bit64(r, 17) == bit64(block, 53) && bit64(r, 16) == bit64(block, 61),
                bit64(r, 15) == bit64(block, 3) && bit64(r, 14) == bit64(block, 11) && bit64(r, 13) == bit64(block, 19) && bit64(r, 12) == bit64(block, 27),
                bit64(r, 11) == bit64(block, 35) && bit64(r, 10) == bit64(block, 43) && bit64(r, 9) == bit64(block, 51) && bit64(r, 8) == bit64(block, 59),
                bit64(r, 7) == bit64(block, 1) && bit64(r, 6) == bit64(block, 9) && bit64(r, 5) == bit64(block, 17) && bit64(r, 4) == bit64(block, 25),
                bit64(r, 3) == bit64(block, 33) && bit64(r, 2) == bit64(block, 41) && bit64(r, 1) == bit64(block, 49) && bit64(r, 0) == bit64(block, 57),
        ;
    }
    r
}

/// Undo the initial reordering once the rounds are over.
pub fn final_permutation(block: u64) -> (r: u64)
    ensures
        r == fp_spec(block),
{
    proof {
        assert(FP_TABLE@[0] == 40 && FP_TABLE@[1] == 8 && FP_TABLE@[2] == 48 && FP_TABLE@[3] == 16 && FP_TABLE@[4] == 56 && FP_TABLE@[5] == 24 && FP_TABLE@[6] == 64 && FP_TABLE@[7] == 32);
        assert(FP_TABLE@[8] == 39 && FP_TABLE@[9] == 7 && FP_TABLE@[10] == 47 && FP_TABLE@[11] == 15 && FP_TABLE@[12] == 55 && FP_TABLE@[13] == 23 && FP_TABLE@[14] == 63 && FP_TABLE@[15] == 31);
        assert(FP_TABLE@[16] == 38 && FP_TABLE@[17] == 6 && FP_TABLE@[18] == 46 && FP_TABLE@[19] == 14 && FP_TABLE@[20] == 54 && FP_TABLE@[21] == 22 && FP_TABLE@[22] == 62 && FP_TABLE@[23] == 30);
        assert(FP_TABLE@[24] == 37 && FP_TABLE@[25] == 5 && FP_TABLE@[26] == 45 && FP_TABLE@[27] == 13 && FP_TABLE@[28] == 53 && FP_TABLE@[29] == 21 && FP_TABLE@[30] == 61 && FP_TABLE@[31] == 29);
        assert(FP_TABLE@[32] == 36 && FP_TABLE@[33] == 4 && FP_TABLE@[34] == 44 && FP_TABLE@[35] == 12 && FP_TABLE@[36] == 52 && FP_TABLE@[37] == 20 && FP_TABLE@[38] == 60 && FP_TABLE@[39] == 28);
        assert(FP_TABLE@[40] == 35 && FP_TABLE@[41] == 3 && FP_TABLE@[42] == 43 && FP_TABLE@[43] == 11 && FP_TABLE@[44] == 51 && FP_TABLE@[45] == 19 && FP_TABLE@[46] == 59 && FP_TABLE@[47] == 27);
        assert(FP_TABLE@[48] == 34 && FP_TABLE@[49] == 2 && FP_TABLE@[50] == 42 && FP_TABLE@[51] == 10 && FP_TABLE@[52] == 50 && FP_TABLE@[53] == 18 && FP_TABLE@[54] == 58 && FP_TABLE@[55] == 26);
        assert(FP_TABLE@[56] == 33 && FP_TABLE@[57] == 1 && FP_TABLE@[58] == 41 && FP_TABLE@[59] == 9 && FP_TABLE@[60] == 49 && FP_TABLE@[61] == 17 && FP_TABLE@[62] == 57 && FP_TABLE@[63] == 25);
        lemma_fp_table_entries();
    }
    let r = permute(block, FP_TABLE.as_slice(), 64);
    proof {
        assert(r == fp_spec(block)) by (bit_vector)
            requires
                bit64(r, 63) == bit64(block, 24) && bit64(r, 62) == bit64(block, 56) && bit64(r, 61) == bit64(block, 16) && bit64(r, 60) == bit64(block, 48),
                bit64(r, 59) == bit64(block, 8) && bit64(r, 58) == bit64(block, 40) && bit64(r, 57) == bit64(block, 0) && bit64(r, 56) == bit64(block, 32),
                bit64(r, 55) == bit64(block, 25) && bit64(r, 54) == bit64(block, 57) && bit64(r, 53) == bit64(block, 17) && bit64(r, 52) == bit64(block, 49),
                bit64(r, 51) == bit64(block, 9) && bit64(r, 50) == bit64(block, 41) && bit64(r, 49) == bit64(block, 1) && bit64(r, 48) == bit64(block, 33),
                bit64(r, 47) == bit64(block, 26) && bit64(r, 46) == bit64(block, 58) && bit64(r, 45) == bit64(block, 18) && bit64(r, 44) == bit64(block, 50),
                bit64(r, 43) == bit64(block, 10) && bit64(r, 42) == bit64(block, 42) && bit64(r, 41) == bit64(block, 2) && bit64(r, 40) == bit64(block, 34),
                bit64(r, 39) == bit64(block, 27) && bit64(r, 38) == bit64(block, 59) && bit64(r, 37) == bit64(block, 19) && bit64(r, 36) == bit64(block, 51),
                bit64(r, 35) == bit64(block, 11) && bit64(r, 34) == bit64(block, 43) && bit64(r, 33) == bit64(block, 3) && bit64(r, 32) == bit64(block, 35),
                bit64(r, 31) == bit64(block, 28) && bit64(r, 30) == bit64(block, 60) && bit64(r, 29) == bit64(block, 20) && bit64(r, 28) == bit64(block, 52),
                bit64(r, 27) == bit64(block, 12) && bit64(r, 26) == bit64(block, 44) && bit64(r, 25) == bit64(block, 4) && bit64(r, 24) == bit64(block, 36),
                bit64(r, 23) == bit64(block, 29) && bit64(r, 22) == bit64(block, 61) && bit64(r, 21) == bit64(block, 21) && bit64(r, 20) == bit64(block, 53),
                bit64(r, 19) == bit64(block, 13) && bit64(r, 18) == bit64(block, 45) && bit64(r, 17) == bit64(block, 5) && bit64(r, 16) == bit64(block, 37),
                bit64(r, 15) == bit64(block, 30) && bit64(r, 14) == bit64(block, 62) && bit64(r, 13) == bit64(block, 22) && bit64(r, 12) == bit64(block, 54),
                bit64(r, 11) == bit64(block, 14) && bit64(r, 10) == bit64(block, 46) && bit64(r, 9) == bit64(block, 6) && bit64(r, 8) == bit64(block, 38),
                bit64(r, 7) == bit64(block, 31) && bit64(r, 6) == bit64(block, 63) && bit64(r, 5) == bit64(block, 23) && bit64(r, 4) == bit64(block, 55),
                bit64(r, 3) == bit64(block, 15) && bit64(r, 2) == bit64(block, 47) && bit64(r, 1) == bit64(block, 7) && bit64(r, 0) == bit64(block, 39),
        ;
    }
    r
}

/// The final permutation undoes the initial one on every block.
pub proof fn lemma_final_inverts_initial(x: u64)
    ensures
        fp_spec(ip_spec(x)) == x,
{
    assert(fp_spec(ip_spec(x)) == x) by (bit_vector);
}

/// The initial permutation undoes the final one on every block.
pub proof fn lemma_initial_inverts_final(x: u64)
    ensures
        ip_spec(fp_spec(x)) == x,
{
    assert(ip_spec(fp_spec(x)) == x) by (bit_vector);
}

} // verus!
