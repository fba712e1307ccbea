use des::key_gen::{left_shift_1, left_shift_2, permuted_choice_1, KeyGenerator};

#[test]
fn test_left_shift_2() {
    let mut result = 3_u64;
    println!("{:028b}", result);
    for _ in 0..14 {
        result = left_shift_2(result);
        println!("{:028b}", result);
    }
    assert!(result == 3_u64);
}

#[test]
fn test_left_shift_1() {
    let mut result = 3_u64;
    println!("{:028b}", result);
    for _ in 0..28 {
        result = left_shift_1(result);
        println!("{:028b}", result);
    }
    assert!(result == 3_u64);
}

#[test]
fn test_perm_choice_1() {
    // set parity bits in the key and ensure both c & d blocks are 0
    // bit 8, 16, ..., 64 of the key is the low bit of each byte -> 0x01
    let key = 0x0101010101010101;
    let (c_block, d_block) = permuted_choice_1(key);
    println!("{:028b}", c_block);
    println!("{:028b}", d_block);
    assert!(c_block == 0);
    assert!(d_block == 0);
}

#[test]
fn test_sixteen_round_keys() {
    let mut key_gen = KeyGenerator::new(0x133457799BBCDFF1);
    let mut count = 0;
    while let Some(k) = key_gen.next() {
        assert!(k < 1 << 48);
        count += 1;
        assert!(count <= 16);
    }
    assert_eq!(count, 16);
    assert!(key_gen.next().is_none());
}

#[test]
fn test_first_and_last_round_keys() {
    // the round keys of the classic worked example
    let mut key_gen = KeyGenerator::new(0x133457799BBCDFF1);
    let mut keys = Vec::new();
    while let Some(k) = key_gen.next() {
        keys.push(k);
    }
    assert_eq!(keys[0], 0x1B02EFFC7072);
    assert_eq!(keys[15], 0xCB3D8B0E17F5);
}

#[test]
fn test_rotation_asymmetric_value() {
    // one full tour of single rotations on a value with no symmetry
    let start = 0x0ABCDEF_u64;
    let mut v = start;
    for _ in 0..28 {
        v = left_shift_1(v);
    }
    assert_eq!(v, start);
    // a single rotation moves the top bit of the field to the bottom
    assert_eq!(left_shift_1(0x8000001), 0x0000003);
    assert_eq!(left_shift_2(0xC000000), 0x0000003);
}
