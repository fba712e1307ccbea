//! The key schedule: permuted choice 1 splits the secret key into two 28-bit
//! halves, and each of the sixteen rounds rotates both halves left within
//! their 28-bit field and emits a 48-bit round key through permuted choice 2.

use vstd::prelude::*;
use crate::bit64;
use crate::bitv;
use crate::permute::entries_in_range;
use crate::permute::permute;

verus! {

/// Permuted choice 1, the half that forms the C block: 28 positions
/// within the 64-bit secret key.  No position is a multiple of eight, so
/// the parity bits of the key never reach the halves.
pub const PC_1_C_TABLE: [u64; 28] = [
    57, 49, 41, 33, 25, 17, 9, 1,
    58, 50, 42, 34, 26, 18, 10, 2,
    59, 51, 43, 35, 27, 19, 11, 3,
    60, 52, 44, 36,
];

/// Permuted choice 1, the half that forms the D block.
pub const PC_1_D_TABLE: [u64; 28] = [
    63, 55, 47, 39, 31, 23, 15, 7,
    62, 54, 46, 38, 30, 22, 14, 6,
    61, 53, 45, 37, 29, 21, 13, 5,
    28, 20, 12, 4,
];

/// Permuted choice 2: 48 positions within the 56-bit concatenation of
/// the C and D halves, forming a round key.
pub const PC_2_TABLE: [u64; 48] = [
    14, 17, 11, 24, 1, 5, 3, 28,
    15, 6, 21, 10, 23, 19, 12, 4,
    26, 8, 16, 7, 27, 20, 13, 2,
    41, 52, 31, 37, 47, 55, 30, 40,
    51, 45, 33, 48, 44, 49, 39, 56,
    34, 53, 46, 42, 50, 36, 29, 32,
];

/// How far both halves rotate on each of the sixteen rounds.
pub enum Shift {
    One,
    Two,
}

/// The standard shift schedule: one position on the first, second, ninth and
/// last round, two positions on every other.
pub const SHIFTS: [Shift; 16] = [
    Shift::One, Shift::One, Shift::Two, Shift::Two,
    Shift::Two, Shift::Two, Shift::Two, Shift::Two,
    Shift::One, Shift::Two, Shift::Two, Shift::Two,
    Shift::Two, Shift::Two, Shift::Two, Shift::One,
];

/// A left rotation of the low 28 bits by one position: the bit leaving at
/// position 27 re-enters at position 0.
pub open spec fn rotl1(x: u64) -> u64 {
    ((x << 1) | (x >> 27)) & 0xFFFFFFF
}

/// A left rotation of the low 28 bits by two positions.
pub open spec fn rotl2(x: u64) -> u64 {
    ((x << 2) | (x >> 26)) & 0xFFFFFFF
}

/// Rotate the lowest 28 bits to the left by one
pub fn left_shift_1(in_block: u64) -> (r: u64)
    requires
        in_block < 0x10000000,
    ensures
        r == rotl1(in_block),
        r < 0x10000000,
{
    let mut out_block = (in_block << 1) & 0xFFFFFFF;
    out_block |= (in_block & (0b1_u64 << 27)) >> 27;
    proof {
        assert(out_block == rotl1(in_block) && out_block < 0x10000000) by (bit_vector)
            requires
                out_block == ((in_block << 1) & 0xFFFFFFF) | ((in_block & (0b1u64 << 27)) >> 27),
                in_block < 0x10000000,
        ;
    }
    out_block
}

/// Rotate the lowest 28 bits to the left by two
pub fn left_shift_2(in_block: u64) -> (r: u64)
    requires
        in_block < 0x10000000,
    ensures
        r == rotl2(in_block),
        r < 0x10000000,
{
    let mut out_block = (in_block << 2) & 0xFFFFFFF;
    out_block |= (in_block & (0b11_u64 << 26)) >> 26;
    proof {
        assert(out_block == rotl2(in_block) && out_block < 0x10000000) by (bit_vector)
            requires
                out_block == ((in_block << 2) & 0xFFFFFFF) | ((in_block & (0b11u64 << 26)) >> 26),
                in_block < 0x10000000,
        ;
    }
    out_block
}

/// The C half that permuted choice 1 draws from the secret key.
pub open spec fn pc1_c_spec(x: u64) -> u64 {
    (bitv(x, 7) << 27) | (bitv(x, 15) << 26) | (bitv(x, 23) << 25) | (bitv(x, 31) << 24)
        | (bitv(x, 39) << 23) | (bitv(x, 47) << 22) | (bitv(x, 55) << 21) | (bitv(x, 63) << 20)
        | (bitv(x, 6) << 19) | (bitv(x, 14) << 18) | (bitv(x, 22) << 17) | (bitv(x, 30) << 16)
        | (bitv(x, 38) << 15) | (bitv(x, 46) << 14) | (bitv(x, 54) << 13) | (bitv(x, 62) << 12)
        | (bitv(x, 5) << 11) | (bitv(x, 13) << 10) | (bitv(x, 21) << 9) | (bitv(x, 29) << 8)
        | (bitv(x, 37) << 7) | (bitv(x, 45) << 6) | (bitv(x, 53) << 5) | (bitv(x, 61) << 4)
        | (bitv(x, 4) << 3) | (bitv(x, 12) << 2) | (bitv(x, 20) << 1) | (bitv(x, 28) << 0)
}

/// The D half that permuted choice 1 draws from the secret key.
pub open spec fn pc1_d_spec(x: u64) -> u64 {
    (bitv(x, 1) << 27) | (bitv(x, 9) << 26) | (bitv(x, 17) << 25) | (bitv(x, 25) << 24)
        | (bitv(x, 33) << 23) | (bitv(x, 41) << 22) | (bitv(x, 49) << 21) | (bitv(x, 57) << 20)
        | (bitv(x, 2) << 19) | (bitv(x, 10) << 18) | (bitv(x, 18) << 17) | (bitv(x, 26) << 16)
        | (bitv(x, 34) << 15) | (bitv(x, 42) << 14) | (bitv(x, 50) << 13) | (bitv(x, 58) << 12)
        | (bitv(x, 3) << 11) | (bitv(x, 11) << 10) | (bitv(x, 19) << 9) | (bitv(x, 27) << 8)
        | (bitv(x, 35) << 7) | (bitv(x, 43) << 6) | (bitv(x, 51) << 5) | (bitv(x, 59) << 4)
        | (bitv(x, 36) << 3) | (bitv(x, 44) << 2) | (bitv(x, 52) << 1) | (bitv(x, 60) << 0)
}

/// The 48-bit round key that permuted choice 2 draws from the 56-bit
/// concatenation of the C and D halves.
pub open spec fn pc2_spec(x: u64) -> u64 {
    (bitv(x, 42) << 47) | (bitv(x, 39) << 46) | (bitv(x, 45) << 45) | (bitv(x, 32) << 44)
        | (bitv(x, 55) << 43) | (bitv(x, 51) << 42) | (bitv(x, 53) << 41) | (bitv(x, 28) << 40)
        | (bitv(x, 41) << 39) | (bitv(x, 50) << 38) | (bitv(x, 35) << 37) | (bitv(x, 46) << 36)
        | (bitv(x, 33) << 35) | (bitv(x, 37) << 34) | (bitv(x, 44) << 33) | (bitv(x, 52) << 32)
        | (bitv(x, 30) << 31) | (bitv(x, 48) << 30) | (bitv(x, 40) << 29) | (bitv(x, 49) << 28)
        | (bitv(x, 29) << 27) | (bitv(x, 36) << 26) | (bitv(x, 43) << 25) | (bitv(x, 54) << 24)
        | (bitv(x, 15) << 23) | (bitv(x, 4) << 22) | (bitv(x, 25) << 21) | (bitv(x, 19) << 20)
        | (bitv(x, 9) << 19) | (bitv(x, 1) << 18) | (bitv(x, 26) << 17) | (bitv(x, 16) << 16)
        | (bitv(x, 5) << 15) | (bitv(x, 11) << 14) | (bitv(x, 23) << 13) | (bitv(x, 8) << 12)
        | (bitv(x, 12) << 11) | (bitv(x, 7) << 10) | (bitv(x, 17) << 9) | (bitv(x, 0) << 8)
        | (bitv(x, 22) << 7) | (bitv(x, 3) << 6) | (bitv(x, 10) << 5) | (bitv(x, 14) << 4)
        | (bitv(x, 6) << 3) | (bitv(x, 20) << 2) | (bitv(x, 27) << 1) | (bitv(x, 24) << 0)
}

/// The round key emitted for halves `c` (high) and `d` (low).
pub open spec fn pc2_of(c: u64, d: u64) -> u64 {
    pc2_spec((c << 28) | d)
}

proof fn lemma_pc_1_c_table_entries()
    ensures
        entries_in_range(PC_1_C_TABLE@, 64, 28),
{
    reveal_with_fuel(entries_in_range, 29);
}

proof fn lemma_pc_1_d_table_entries()
    ensures
        entries_in_range(PC_1_D_TABLE@, 64, 28),
{
    reveal_with_fuel(entries_in_range, 29);
}

proof fn lemma_pc_2_table_entries()
    ensures
        entries_in_range(PC_2_TABLE@, 56, 48),
{
    reveal_with_fuel(entries_in_range, 49);
}

// Permute choice 1
// Generates C and D blocks into the lower 28 bits of the two returned variables
// returns (C, D)
pub fn permuted_choice_1(in_block: u64) -> (r: (u64, u64))
    ensures
        r.0 == pc1_c_spec(in_block),
        r.1 == pc1_d_spec(in_block),
        r.0 < 0x10000000,
        r.1 < 0x10000000,
{
    proof {
        assert(PC_1_C_TABLE@[0] == 57 && PC_1_C_TABLE@[1] == 49 && PC_1_C_TABLE@[2] == 41 && PC_1_C_TABLE@[3] == 33 && PC_1_C_TABLE@[4] == 25 && PC_1_C_TABLE@[5] == 17 && PC_1_C_TABLE@[6] == 9 && PC_1_C_TABLE@[7] == 1);
        assert(PC_1_C_TABLE@[8] == 58 && PC_1_C_TABLE@[9] == 50 && PC_1_C_TABLE@[10] == 42 && PC_1_C_TABLE@[11] == 34 && PC_1_C_TABLE@[12] == 26 && PC_1_C_TABLE@[13] == 18 && PC_1_C_TABLE@[14] == 10 && PC_1_C_TABLE@[15] == 2);
        assert(PC_1_C_TABLE@[16] == 59 && PC_1_C_TABLE@[17] == 51 && PC_1_C_TABLE@[18] == 43 && PC_1_C_TABLE@[19] == 35 && PC_1_C_TABLE@[20] == 27 && PC_1_C_TABLE@[21] == 19 && PC_1_C_TABLE@[22] == 11 && PC_1_C_TABLE@[23] == 3);
        assert(PC_1_C_TABLE@[24] == 60 && PC_1_C_TABLE@[25] == 52 && PC_1_C_TABLE@[26] == 44 && PC_1_C_TABLE@[27] == 36);
        lemma_pc_1_c_table_entries();
    }
    let c_block = permute(in_block, PC_1_C_TABLE.as_slice(), 64);
    proof {
        assert(c_block == pc1_c_spec(in_block) && c_block < 0x10000000) by (bit_vector)
            requires
                bit64(c_block, 27) == bit64(in_block, 7) && bit64(c_block, 26) == bit64(in_block, 15) && bit64(c_block, 25) == bit64(in_block, 23) && bit64(c_block, 24) == bit64(in_block, 31),
                bit64(c_block, 23) == bit64(in_block, 39) && bit64(c_block, 22) == bit64(in_block, 47) && bit64(c_block, 21) == bit64(in_block, 55) && bit64(c_block, 20) == bit64(in_block, 63),
                bit64(c_block, 19) == bit64(in_block, 6) && bit64(c_block, 18) == bit64(in_block, 14) && bit64(c_block, 17) == bit64(in_block, 22) && bit64(c_block, 16) == bit64(in_block, 30),
                bit64(c_block, 15) == bit64(in_block, 38) && bit64(c_block, 14) == bit64(in_block, 46) && bit64(c_block, 13) == bit64(in_block, 54) && bit64(c_block, 12) == bit64(in_block, 62),
                bit64(c_block, 11) == bit64(in_block, 5) && bit64(c_block, 10) == bit64(in_block, 13) && bit64(c_block, 9) == bit64(in_block, 21) && bit64(c_block, 8) == bit64(in_block, 29),
                bit64(c_block, 7) == bit64(in_block, 37) && bit64(c_block, 6) == bit64(in_block, 45) && bit64(c_block, 5) == bit64(in_block, 53) && bit64(c_block, 4) == bit64(in_block, 61),
                bit64(c_block, 3) == bit64(in_block, 4) && bit64(c_block, 2) == bit64(in_block, 12) && bit64(c_block, 1) == bit64(in_block, 20) && bit64(c_block, 0) == bit64(in_block, 28),
                !bit64(c_block, 28) && !bit64(c_block, 29) && !bit64(c_block, 30) && !bit64(c_block, 31) && !bit64(c_block, 32) && !bit64(c_block, 33),
                !bit64(c_block, 34) && !bit64(c_block, 35) && !bit64(c_block, 36) && !bit64(c_block, 37) && !bit64(c_block, 38) && !bit64(c_block, 39),
                !bit64(c_block, 40) && !bit64(c_block, 41) && !bit64(c_block, 42) && !bit64(c_block, 43) && !bit64(c_block, 44) && !bit64(c_block, 45),
                !bit64(c_block, 46) && !bit64(c_block, 47) && !bit64(c_block, 48) && !bit64(c_block, 49) && !bit64(c_block, 50) && !bit64(c_block, 51),
                !bit64(c_block, 52) && !bit64(c_block, 53) && !bit64(c_block, 54) && !bit64(c_block, 55) && !bit64(c_block, 56) && !bit64(c_block, 57),
                !bit64(c_block, 58) && !bit64(c_block, 59) && !bit64(c_block, 60) && !bit64(c_block, 61) && !bit64(c_block, 62) && !bit64(c_block, 63),
        ;
        assert(PC_1_D_TABLE@[0] == 63 && PC_1_D_TABLE@[1] == 55 && PC_1_D_TABLE@[2] == 47 && PC_1_D_TABLE@[3] == 39 && PC_1_D_TABLE@[4] == 31 && PC_1_D_TABLE@[5] == 23 && PC_1_D_TABLE@[6] == 15 && PC_1_D_TABLE@[7] == 7);
        assert(PC_1_D_TABLE@[8] == 62 && PC_1_D_TABLE@[9] == 54 && PC_1_D_TABLE@[10] == 46 && PC_1_D_TABLE@[11] == 38 && PC_1_D_TABLE@[12] == 30 && PC_1_D_TABLE@[13] == 22 && PC_1_D_TABLE@[14] == 14 && PC_1_D_TABLE@[15] == 6);
        assert(PC_1_D_TABLE@[16] == 61 && PC_1_D_TABLE@[17] == 53 && PC_1_D_TABLE@[18] == 45 && PC_1_D_TABLE@[19] == 37 && PC_1_D_TABLE@[20] == 29 && PC_1_D_TABLE@[21] == 21 && PC_1_D_TABLE@[22] == 13 && PC_1_D_TABLE@[23] == 5);
        assert(PC_1_D_TABLE@[24] == 28 && PC_1_D_TABLE@[25] == 20 && PC_1_D_TABLE@[26] == 12 && PC_1_D_TABLE@[27] == 4);
        lemma_pc_1_d_table_entries();
    }
    let d_block = permute(in_block, PC_1_D_TABLE.as_slice(), 64);
    proof {
        assert(d_block == pc1_d_spec(in_block) && d_block < 0x10000000) by (bit_vector)
            requires
                bit64(d_block, 27) == bit64(in_block, 1) && bit64(d_block, 26) == bit64(in_block, 9) && bit64(d_block, 25) == bit64(in_block, 17) && bit64(d_block, 24) == bit64(in_block, 25),
                bit64(d_block, 23) == bit64(in_block, 33) && bit64(d_block, 22) == bit64(in_block, 41) && bit64(d_block, 21) == bit64(in_block, 49) && bit64(d_block, 20) == bit64(in_block, 57),
                bit64(d_block, 19) == bit64(in_block, 2) && bit64(d_block, 18) == bit64(in_block, 10) && bit64(d_block, 17) == bit64(in_block, 18) && bit64(d_block, 16) == bit64(in_block, 26),
                bit64(d_block, 15) == bit64(in_block, 34) && bit64(d_block, 14) == bit64(in_block, 42) && bit64(d_block, 13) == bit64(in_block, 50) && bit64(d_block, 12) == bit64(in_block, 58),
                bit64(d_block, 11) == bit64(in_block, 3) && bit64(d_block, 10) == bit64(in_block, 11) && bit64(d_block, 9) == bit64(in_block, 19) && bit64(d_block, 8) == bit64(in_block, 27),
                bit64(d_block, 7) == bit64(in_block, 35) && bit64(d_block, 6) == bit64(in_block, 43) && bit64(d_block, 5) == bit64(in_block, 51) && bit64(d_block, 4) == bit64(in_block, 59),
                bit64(d_block, 3) == bit64(in_block, 36) && bit64(d_block, 2) == bit64(in_block, 44) && bit64(d_block, 1) == bit64(in_block, 52) && bit64(d_block, 0) == bit64(in_block, 60),
                !bit64(d_block, 28) && !bit64(d_block, 29) && !bit64(d_block, 30) && !bit64(d_block, 31) && !bit64(d_block, 32) && !bit64(d_block, 33),
                !bit64(d_block, 34) && !bit64(d_block, 35) && !bit64(d_block, 36) && !bit64(d_block, 37) && !bit64(d_block, 38) && !bit64(d_block, 39),
                !bit64(d_block, 40) && !bit64(d_block, 41) && !bit64(d_block, 42) && !bit64(d_block, 43) && !bit64(d_block, 44) && !bit64(d_block, 45),
                !bit64(d_block, 46) && !bit64(d_block, 47) && !bit64(d_block, 48) && !bit64(d_block, 49) && !bit64(d_block, 50) && !bit64(d_block, 51),
                !bit64(d_block, 52) && !bit64(d_block, 53) && !bit64(d_block, 54) && !bit64(d_block, 55) && !bit64(d_block, 56) && !bit64(d_block, 57),
                !bit64(d_block, 58) && !bit64(d_block, 59) && !bit64(d_block, 60) && !bit64(d_block, 61) && !bit64(d_block, 62) && !bit64(d_block, 63),
        ;
    }
    (c_block, d_block)
}

/// Permute choice 2
/// Generates the key returned in the lower 48 bits of returned value
pub fn permuted_choice_2(c_block: u64, d_block: u64) -> (r: u64)
    requires
        c_block < 0x10000000,
        d_block < 0x10000000,
    ensures
        r == pc2_of(c_block, d_block),
        r < 0x1000000000000,
{
    let in_block = (c_block << 28) | d_block;
    proof {
        assert(PC_2_TABLE@[0] == 14 && PC_2_TABLE@[1] == 17 && PC_2_TABLE@[2] == 11 && PC_2_TABLE@[3] == 24 && PC_2_TABLE@[4] == 1 && PC_2_TABLE@[5] == 5 && PC_2_TABLE@[6] == 3 && PC_2_TABLE@[7] == 28);
        assert(PC_2_TABLE@[8] == 15 && PC_2_TABLE@[9] == 6 && PC_2_TABLE@[10] == 21 && PC_2_TABLE@[11] == 10 && PC_2_TABLE@[12] == 23 && PC_2_TABLE@[13] == 19 && PC_2_TABLE@[14] == 12 && PC_2_TABLE@[15] == 4);
        assert(PC_2_TABLE@[16] == 26 && PC_2_TABLE@[17] == 8 && PC_2_TABLE@[18] == 16 && PC_2_TABLE@[19] == 7 && PC_2_TABLE@[20] == 27 && PC_2_TABLE@[21] == 20 && PC_2_TABLE@[22] == 13 && PC_2_TABLE@[23] == 2);
        assert(PC_2_TABLE@[24] == 41 && PC_2_TABLE@[25] == 52 && PC_2_TABLE@[26] == 31 && PC_2_TABLE@[27] == 37 && PC_2_TABLE@[28] == 47 && PC_2_TABLE@[29] == 55 && PC_2_TABLE@[30] == 30 && PC_2_TABLE@[31] == 40);
        assert(PC_2_TABLE@[32] == 51 && PC_2_TABLE@[33] == 45 && PC_2_TABLE@[34] == 33 && PC_2_TABLE@[35] == 48 && PC_2_TABLE@[36] == 44 && PC_2_TABLE@[37] == 49 && PC_2_TABLE@[38] == 39 && PC_2_TABLE@[39] == 56);
        assert(PC_2_TABLE@[40] == 34 && PC_2_TABLE@[41] == 53 && PC_2_TABLE@[42] == 46 && PC_2_TABLE@[43] == 42 && PC_2_TABLE@[44] == 50 && PC_2_TABLE@[45] == 36 && PC_2_TABLE@[46] == 29 && PC_2_TABLE@[47] == 32);
        lemma_pc_2_table_entries();
    }
    let r = permute(in_block, PC_2_TABLE.as_slice(), 56);
    proof {
        assert(r == pc2_spec(in_block) && r < 0x1000000000000) by (bit_vector)
            requires
                bit64(r, 47) == bit64(in_block, 42) && bit64(r, 46) == bit64(in_block, 39) && bit64(r, 45) == bit64(in_block, 45) && bit64(r, 44) == bit64(in_block, 32),
                bit64(r, 43) == bit64(in_block, 55) && bit64(r, 42) == bit64(in_block, 51) && bit64(r, 41) == bit64(in_block, 53) && bit64(r, 40) == bit64(in_block, 28),
                bit64(r, 39) == bit64(in_block, 41) && bit64(r, 38) == bit64(in_block, 50) && bit64(r, 37) == bit64(in_block, 35) && bit64(r, 36) == bit64(in_block, 46),
                bit64(r, 35) == bit64(in_block, 33) && bit64(r, 34) == bit64(in_block, 37) && bit64(r, 33) == bit64(in_block, 44) && bit64(r, 32) == bit64(in_block, 52),
                bit64(r, 31) == bit64(in_block, 30) && bit64(r, 30) == bit64(in_block, 48) && bit64(r, 29) == bit64(in_block, 40) && bit64(r, 28) == bit64(in_block, 49),
                bit64(r, 27) == bit64(in_block, 29) && bit64(r, 26) == bit64(in_block, 36) && bit64(r, 25) == bit64(in_block, 43) && bit64(r, 24) == bit64(in_block, 54),
                bit64(r, 23) == bit64(in_block, 15) && bit64(r, 22) == bit64(in_block, 4) && bit64(r, 21) == bit64(in_block, 25) && bit64(r, 20) == bit64(in_block, 19),
                bit64(r, 19) == bit64(in_block, 9) && bit64(r, 18) == bit64(in_block, 1) && bit64(r, 17) == bit64(in_block, 26) && bit64(r, 16) == bit64(in_block, 16),
                bit64(r, 15) == bit64(in_block, 5) && bit64(r, 14) == bit64(in_block, 11) && bit64(r, 13) == bit64(in_block, 23) && bit64(r, 12) == bit64(in_block, 8),
                bit64(r, 11) == bit64(in_block, 12) && bit64(r, 10) == bit64(in_block, 7) && bit64(r, 9) == bit64(in_block, 17) && bit64(r, 8) == bit64(in_block, 0),
                bit64(r, 7) == bit64(in_block, 22) && bit64(r, 6) == bit64(in_block, 3) && bit64(r, 5) == bit64(in_block, 10) && bit64(r, 4) == bit64(in_block, 14),
                bit64(r, 3) == bit64(in_block, 6) && bit64(r, 2) == bit64(in_block, 20) && bit64(r, 1) == bit64(in_block, 27) && bit64(r, 0) == bit64(in_block, 24),
                !bit64(r, 48) && !bit64(r, 49) && !bit64(r, 50) && !bit64(r, 51) && !bit64(r, 52) && !bit64(r, 53),
                !bit64(r, 54) && !bit64(r, 55) && !bit64(r, 56) && !bit64(r, 57) && !bit64(r, 58) && !bit64(r, 59),
                !bit64(r, 60) && !bit64(r, 61) && !bit64(r, 62) && !bit64(r, 63),
        ;
    }
    r
}

/// Whether round `r` (0-indexed) rotates the halves by one position.
pub open spec fn shift_one(r: int) -> bool {
    SHIFTS[r] matches Shift::One
}

/// The half that `h` becomes when round `r` rotates it.
pub open spec fn next_half(h: u64, r: int) -> u64 {
    if shift_one(r) {
        rotl1(h)
    } else {
        rotl2(h)
    }
}

/// A half after the rotations of the first `n` rounds, starting from `h0`.
pub open spec fn half_state(h0: u64, n: int) -> u64
    decreases n,
{
    if n <= 0 {
        h0
    } else {
        next_half(half_state(h0, n - 1), n - 1)
    }
}

/// The round key that round `r` (0-indexed) receives when the halves start
/// as `c0` and `d0`.
pub open spec fn key_at(c0: u64, d0: u64, r: int) -> u64 {
    pc2_of(half_state(c0, r + 1), half_state(d0, r + 1))
}

/// All sixteen round keys, in round order.
pub open spec fn key_seq(c0: u64, d0: u64) -> Seq<u64> {
    Seq::new(16, |r: int| key_at(c0, d0, r))
}

proof fn lemma_pc2_bound(x: u64)
    by (bit_vector)
    ensures
        pc2_spec(x) < 0x1000000000000,
{
}

/// Exactly sixteen round keys come out of a schedule, and each holds only
/// its lowest 48 bits.
pub proof fn lemma_sixteen_round_keys(c0: u64, d0: u64)
    ensures
        key_seq(c0, d0).len() == 16,
        forall|r: int| 0 <= r < 16 ==> #[trigger] key_seq(c0, d0)[r] < 0x1000000000000,
{
    assert forall|r: int| 0 <= r < 16 implies #[trigger] key_seq(c0, d0)[r]
        < 0x1000000000000 by {
        lemma_pc2_bound((half_state(c0, r + 1) << 28) | half_state(d0, r + 1));
    }
}

/// KeyGenerator struct used to generate round keys from a secret key
pub struct KeyGenerator {
    c_block: u64,
    d_block: u64,
    round: usize,
}

impl KeyGenerator {
    /// The C half as it stands now.
    pub closed spec fn c_half(&self) -> u64 {
        self.c_block
    }

    /// The D half as it stands now.
    pub closed spec fn d_half(&self) -> u64 {
        self.d_block
    }

    /// How many round keys have been emitted already.
    pub closed spec fn rounds_done(&self) -> int {
        self.round as int
    }

    /// Both halves fit their 28-bit fields and at most sixteen rounds have
    /// passed.
    pub closed spec fn wf(&self) -> bool {
        self.c_block < 0x10000000 && self.d_block < 0x10000000 && self.round <= 16
    }

    pub fn new(key: u64) -> (g: Self)
        ensures
            g.wf(),
            g.c_half() == pc1_c_spec(key),
            g.d_half() == pc1_d_spec(key),
            g.rounds_done() == 0,
    {
        let (c_block, d_block) = permuted_choice_1(key);
        Self { c_block, d_block, round: 0 }
    }

    /// Advance one round: rotate both halves as the shift schedule says and
    /// emit the round key, or signal exhaustion after the sixteenth.
    pub fn next(&mut self) -> (k: Option<u64>)
        requires
            old(self).wf(),
        ensures
            final(self).wf(),
            old(self).rounds_done() >= 16 ==> k is None && *final(self) == *old(self),
            old(self).rounds_done() < 16 ==> {
                &&& final(self).rounds_done() == old(self).rounds_done() + 1
                &&& final(self).c_half() == next_half(old(self).c_half(), old(self).rounds_done())
                &&& final(self).d_half() == next_half(old(self).d_half(), old(self).rounds_done())
                &&& k == Some(pc2_of(final(self).c_half(), final(self).d_half()))
            },
    {
        if self.round > 15 {
            return None;
        }
        match SHIFTS[self.round] {
            Shift::One => {
                self.c_block = left_shift_1(self.c_block);
                self.d_block = left_shift_1(self.d_block);
            },
            Shift::Two => {
                self.c_block = left_shift_2(self.c_block);
                self.d_block = left_shift_2(self.d_block);
            },
        }
        self.round += 1;
        Some(permuted_choice_2(self.c_block, self.d_block))
    }
}

/// `x` rotated left by one position, `n` times over.
pub open spec fn rotate_once_iter(x: u64, n: nat) -> u64
    decreases n,
{
    if n == 0 {
        x
    } else {
        rotl1(rotate_once_iter(x, (n - 1) as nat))
    }
}

/// `x` rotated left by two positions, `n` times over.
pub open spec fn rotate_twice_iter(x: u64, n: nat) -> u64
    decreases n,
{
    if n == 0 {
        x
    } else {
        rotl2(rotate_twice_iter(x, (n - 1) as nat))
    }
}

/// Rotating a 28-bit field left by one position, 28 times over, returns it to its
/// original value.
pub proof fn lemma_rotate_once_period(x: u64)
    requires
        x < 0x10000000,
    ensures
        rotate_once_iter(x, 28) == x,
{
    let x1 = rotl1(x);
    let x2 = rotl1(x1);
    let x3 = rotl1(x2);
    let x4 = rotl1(x3);
    let x5 = rotl1(x4);
    let x6 = rotl1(x5);
    let x7 = rotl1(x6);
    let x8 = rotl1(x7);
    let x9 = rotl1(x8);
    let x10 = rotl1(x9);
    let x11 = rotl1(x10);
    let x12 = rotl1(x11);
    let x13 = rotl1(x12);
    let x14 = rotl1(x13);
    let x15 = rotl1(x14);
    let x16 = rotl1(x15);
    let x17 = rotl1(x16);
    let x18 = rotl1(x17);
    let x19 = rotl1(x18);
    let x20 = rotl1(x19);
    let x21 = rotl1(x20);
    let x22 = rotl1(x21);
    let x23 = rotl1(x22);
    let x24 = rotl1(x23);
    let x25 = rotl1(x24);
    let x26 = rotl1(x25);
    let x27 = rotl1(x26);
    let x28 = rotl1(x27);
    assert(rotate_once_iter(x, 0) == x);
    assert(rotate_once_iter(x, 1) == x1);
    assert(rotate_once_iter(x, 2) == x2);
    assert(rotate_once_iter(x, 3) == x3);
    assert(rotate_once_iter(x, 4) == x4);
    assert(rotate_once_iter(x, 5) == x5);
    assert(rotate_once_iter(x, 6) == x6);
    assert(rotate_once_iter(x, 7) == x7);
    assert(rotate_once_iter(x, 8) == x8);
    assert(rotate_once_iter(x, 9) == x9);
    assert(rotate_once_iter(x, 10) == x10);
    assert(rotate_once_iter(x, 11) == x11);
    assert(rotate_once_iter(x, 12) == x12);
    assert(rotate_once_iter(x, 13) == x13);
    assert(rotate_once_iter(x, 14) == x14);
    assert(rotate_once_iter(x, 15) == x15);
    assert(rotate_once_iter(x, 16) == x16);
    assert(rotate_once_iter(x, 17) == x17);
    assert(rotate_once_iter(x, 18) == x18);
    assert(rotate_once_iter(x, 19) == x19);
    assert(rotate_once_iter(x, 20) == x20);
    assert(rotate_once_iter(x, 21) == x21);
    assert(rotate_once_iter(x, 22) == x22);
    assert(rotate_once_iter(x, 23) == x23);
    assert(rotate_once_iter(x, 24) == x24);
    assert(rotate_once_iter(x, 25) == x25);
    assert(rotate_once_iter(x, 26) == x26);
    assert(rotate_once_iter(x, 27) == x27);
    assert(rotate_once_iter(x, 28) == x28);
    assert(x28 == x) by (bit_vector)
        requires
            x < 0x10000000,
            x1 == rotl1(x),
            x2 == rotl1(x1),
            x3 == rotl1(x2),
            x4 == rotl1(x3),
            x5 == rotl1(x4),
            x6 == rotl1(x5),
            x7 == rotl1(x6),
            x8 == rotl1(x7),
            x9 == rotl1(x8),
            x10 == rotl1(x9),
            x11 == rotl1(x10),
            x12 == rotl1(x11),
            x13 == rotl1(x12),
            x14 == rotl1(x13),
            x15 == rotl1(x14),
            x16 == rotl1(x15),
            x17 == rotl1(x16),
            x18 == rotl1(x17),
            x19 == rotl1(x18),
            x20 == rotl1(x19),
            x21 == rotl1(x20),
            x22 == rotl1(x21),
            x23 == rotl1(x22),
            x24 == rotl1(x23),
            x25 == rotl1(x24),
            x26 == rotl1(x25),
            x27 == rotl1(x26),
            x28 == rotl1(x27),
    ;
}

/// Rotating a 28-bit field left by two positions, 14 times over, returns it to its
/// original value.
pub proof fn lemma_rotate_twice_period(x: u64)
    requires
        x < 0x10000000,
    ensures
        rotate_twice_iter(x, 14) == x,
{
    let x1 = rotl2(x);
    let x2 = rotl2(x1);
    let x3 = rotl2(x2);
    let x4 = rotl2(x3);
    let x5 = rotl2(x4);
    let x6 = rotl2(x5);
    let x7 = rotl2(x6);
    let x8 = rotl2(x7);
    let x9 = rotl2(x8);
    let x10 = rotl2(x9);
    let x11 = rotl2(x10);
    let x12 = rotl2(x11);
    let x13 = rotl2(x12);
    let x14 = rotl2(x13);
    assert(rotate_twice_iter(x, 0) == x);
    assert(rotate_twice_iter(x, 1) == x1);
    assert(rotate_twice_iter(x, 2) == x2);
    assert(rotate_twice_iter(x, 3) == x3);
    assert(rotate_twice_iter(x, 4) == x4);
    assert(rotate_twice_iter(x, 5) == x5);
    assert(rotate_twice_iter(x, 6) == x6);
    assert(rotate_twice_iter(x, 7) == x7);
    assert(rotate_twice_iter(x, 8) == x8);
    assert(rotate_twice_iter(x, 9) == x9);
    assert(rotate_twice_iter(x, 10) == x10);
    assert(rotate_twice_iter(x, 11) == x11);
    assert(rotate_twice_iter(x, 12) == x12);
    assert(rotate_twice_iter(x, 13) == x13);
    assert(rotate_twice_iter(x, 14) == x14);
    assert(x14 == x) by (bit_vector)
        requires
            x < 0x10000000,
            x1 == rotl2(x),
            x2 == rotl2(x1),
            x3 == rotl2(x2),
            x4 == rotl2(x3),
            x5 == rotl2(x4),
            x6 == rotl2(x5),
            x7 == rotl2(x6),
            x8 == rotl2(x7),
            x9 == rotl2(x8),
            x10 == rotl2(x9),
            x11 == rotl2(x10),
            x12 == rotl2(x11),
            x13 == rotl2(x12),
            x14 == rotl2(x13),
    ;
}

/// A key holding only its parity bits leaves both halves of permuted
/// choice 1 empty: the parity bits never enter the schedule.
pub proof fn lemma_parity_only_key_clears_halves()
    ensures
        pc1_c_spec(0x0101010101010101) == 0,
        pc1_d_spec(0x0101010101010101) == 0,
{
    assert(pc1_c_spec(0x0101010101010101) == 0 && pc1_d_spec(0x0101010101010101) == 0)
        by (bit_vector);
}

} // verus!
