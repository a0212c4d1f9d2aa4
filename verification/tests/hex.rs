use kad::hex::{decode_hex, HexError};

#[test]
fn digits_of_both_cases_are_read() {
    assert_eq!(decode_hex("00ff7F").unwrap(), vec![0u8, 255, 127]);
    assert_eq!(decode_hex("aBcD").unwrap(), vec![0xab, 0xcd]);
    assert_eq!(decode_hex("").unwrap(), Vec::<u8>::new());
}

#[test]
fn a_lone_digit_is_refused() {
    assert_eq!(decode_hex("abc"), Err(HexError::Length));
}

#[test]
fn other_characters_are_refused() {
    assert_eq!(decode_hex("0g"), Err(HexError::Digit));
    assert_eq!(decode_hex("+f"), Err(HexError::Digit));
    assert_eq!(decode_hex("é"), Err(HexError::Digit));
    assert_eq!(decode_hex("x"), Err(HexError::Digit));
}
