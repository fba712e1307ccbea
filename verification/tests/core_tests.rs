use des::key_gen::KeyGenerator;
use des::permute::{final_permutation, initial_permutation};
use des::{decipher, encipher, feistel, FeistelMode};

#[test]
fn test_encode_decode() {
    let secret_key = 0xFAF0F2FAFD84B5F4;
    let plain_text = 0xDCA30AF7FDB9F152;
    let cipher_text = encipher(plain_text, secret_key);
    let deciphered_text = decipher(cipher_text, secret_key);
    assert_eq!(plain_text, deciphered_text);
}

#[test]
fn test_feistel() {
    let secret_key = 0xFAF0F2FAFDB9F152;
    let mut key_gen = KeyGenerator::new(secret_key);
    let plain_text = 0xFAF0F2FAFDB9F152;
    println!("--------------------------");
    println!("plain_text: {:016x}", plain_text);
    println!("--------------------------");
    let cipher_text = feistel(plain_text, &mut key_gen, FeistelMode::Encipher);
    println!("--------------------------");
    println!("cipher_text: {:016x}", cipher_text);
    println!("--------------------------");
    let mut key_gen = KeyGenerator::new(secret_key);
    let deciphered = feistel(cipher_text, &mut key_gen, FeistelMode::Decipher);
    println!("--------------------------");
    println!("deciphered: {:016x}", deciphered);
    println!("--------------------------");
    assert!(plain_text == deciphered);
}

#[test]
fn test_known_answer() {
    // the classic published vector
    let key = 0x133457799BBCDFF1;
    let plain = 0x0123456789ABCDEF;
    let cipher = encipher(plain, key);
    assert_eq!(cipher, 0x85E813540F0AB405);
    assert_eq!(decipher(cipher, key), plain);
}

#[test]
fn test_known_answer_weak_key() {
    // a published vector under the all-parity key
    let key = 0x0101010101010101;
    let plain = 0x95F8A5E5DD31D900;
    assert_eq!(encipher(plain, key), 0x8000000000000000);
}

#[test]
fn test_initial_permutation_known_value() {
    // the worked example of the standard
    let permuted = initial_permutation(0x0123456789ABCDEF);
    assert_eq!(permuted, 0xCC00CCFFF0AAF0AA);
    assert_eq!(final_permutation(permuted), 0x0123456789ABCDEF);
}

#[test]
fn test_round_trip_many_blocks() {
    let key = 0xB4B568AB61E07150;
    let mut block = 0x0000000000000001_u64;
    for _ in 0..32 {
        let cipher = encipher(block, key);
        assert_eq!(decipher(cipher, key), block);
        block = block.wrapping_mul(0x9E3779B97F4A7C15).wrapping_add(1);
    }
}

#[test]
fn test_avalanche() {
    // flipping one plaintext bit should flip roughly half the output bits
    let key = 0x133457799BBCDFF1;
    let plain = 0x0123456789ABCDEF;
    let base = encipher(plain, key);
    let low_flip = encipher(plain ^ 1, key);
    let high_flip = encipher(plain ^ (1 << 63), key);
    let low_count = (base ^ low_flip).count_ones();
    let high_count = (base ^ high_flip).count_ones();
    assert!(low_count >= 16 && low_count <= 48, "low flip changed {low_count} bits");
    assert!(high_count >= 16 && high_count <= 48, "high flip changed {high_count} bits");
}

#[test]
fn test_determinism() {
    let key = 0xFAF0F2FAFD84B5F4;
    let plain = 0xDCA30AF7FDB9F152;
    assert_eq!(encipher(plain, key), encipher(plain, key));
    assert_eq!(decipher(plain, key), decipher(plain, key));
}
