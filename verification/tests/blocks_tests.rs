use des::blocks::{blocks_to_bytes, string_to_blocks, unpad};
use des::{decipher, encipher};

#[test]
fn test_string_round_trip() {
    let text = String::from("my secret message");
    let blocks = string_to_blocks(&text);
    assert_eq!(blocks.len(), (text.len() + 8 - text.len() % 8) / 8);
    let key = 0xB4B568AB61E07150;
    let cipher: Vec<u64> = blocks.iter().map(|b| encipher(*b, key)).collect();
    let deciphered: Vec<u64> = cipher.iter().map(|b| decipher(*b, key)).collect();
    let mut bytes = blocks_to_bytes(&deciphered);
    assert!(unpad(&mut bytes));
    assert_eq!(String::from_utf8(bytes).unwrap(), text);
}

#[test]
fn test_padding_values() {
    // five bytes of text gain three bytes of value three
    let text = String::from("HELLO");
    let blocks = string_to_blocks(&text);
    assert_eq!(blocks.len(), 1);
    assert_eq!(blocks[0], 0x48454C4C4F030303);
}

#[test]
fn test_padding_whole_block() {
    // a text of exactly eight bytes gains a full marker block of eights
    let text = String::from("8bytes!!");
    let blocks = string_to_blocks(&text);
    assert_eq!(blocks.len(), 2);
    assert_eq!(blocks[1], 0x0808080808080808);
}

#[test]
fn test_empty_string() {
    let text = String::new();
    let blocks = string_to_blocks(&text);
    assert_eq!(blocks, vec![0x0808080808080808]);
    let mut bytes = blocks_to_bytes(&blocks);
    assert!(unpad(&mut bytes));
    assert!(bytes.is_empty());
}

#[test]
fn test_blocks_to_bytes_order() {
    let bytes = blocks_to_bytes(&vec![0x0011223344556677]);
    assert_eq!(bytes, vec![0x00, 0x11, 0x22, 0x33, 0x44, 0x55, 0x66, 0x77]);
}

#[test]
fn test_unpad_rejects_broken_padding() {
    // the trailing count asks for three threes but only two are there
    let mut bytes = vec![1, 2, 3, 4, 5, 9, 3, 3];
    let kept = bytes.clone();
    assert!(!unpad(&mut bytes));
    assert_eq!(bytes, kept);
    // a zero marker is never valid
    let mut bytes = vec![1, 2, 0];
    assert!(!unpad(&mut bytes));
    assert_eq!(bytes, vec![1, 2, 0]);
    // a count larger than the message is never valid
    let mut bytes = vec![5, 5, 5];
    assert!(!unpad(&mut bytes));
    assert_eq!(bytes, vec![5, 5, 5]);
}
