use cpu_core::utils::{bytes_to_word, test_bit, word_to_bytes};

#[test]
fn bytes_to_word_puts_the_first_byte_high() {
    assert_eq!(bytes_to_word(0x12, 0x34), 0x1234);
    assert_eq!(bytes_to_word(0x00, 0xFF), 0x00FF);
    assert_eq!(bytes_to_word(0xFF, 0x00), 0xFF00);
    assert_eq!(bytes_to_word(0x00, 0x00), 0x0000);
    assert_eq!(bytes_to_word(0xFF, 0xFF), 0xFFFF);
}

#[test]
fn word_to_bytes_returns_high_then_low() {
    assert_eq!(word_to_bytes(0x1234), (0x12, 0x34));
    assert_eq!(word_to_bytes(0x00FF), (0x00, 0xFF));
    assert_eq!(word_to_bytes(0xFF00), (0xFF, 0x00));
}

#[test]
fn word_and_bytes_round_trip() {
    for word in 0..=u16::MAX {
        let (high, low) = word_to_bytes(word);
        assert_eq!(bytes_to_word(high, low), word);
    }
}

#[test]
fn test_bit_reads_the_indexed_bit() {
    for index in 0u8..8 {
        assert!(test_bit(1 << index, index));
        assert!(!test_bit(!(1 << index), index));
        assert!(test_bit(0xFF, index));
        assert!(!test_bit(0x00, index));
    }
    assert!(test_bit(0x80, 7));
    assert!(!test_bit(0x80, 6));
    assert!(test_bit(0x01, 0));
    assert!(!test_bit(0x01, 1));
}
