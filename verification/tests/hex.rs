use devserial::hex::{decode, encode, format_dump, has_prefix, HexError};

#[test]
fn decodes_plain_and_prefixed() {
    assert_eq!(decode("414243").unwrap(), b"ABC");
    assert_eq!(decode("0x0D0A").unwrap(), vec![0x0D, 0x0A]);
    assert_eq!(decode("0X0d0a").unwrap(), vec![0x0D, 0x0A]);
}

#[test]
fn ignores_all_whitespace() {
    assert_eq!(decode("41 42\t43\n").unwrap(), b"ABC");
}

#[test]
fn rejects_odd_length() {
    let err = decode("ABC").unwrap_err();
    assert!(err.to_string().contains("even number"));
}

#[test]
fn rejects_invalid_digit_instead_of_dropping_it() {
    let err = decode("41ZZ43").unwrap_err();
    assert!(err.to_string().contains("invalid hex digit 'ZZ'"));
}

#[test]
fn empty_input_is_empty_output() {
    assert!(decode("").unwrap().is_empty());
    assert!(decode("0x").unwrap().is_empty());
}

#[test]
fn encode_roundtrip() {
    let bytes = [0x00, 0x7F, 0xFF, 0xAB];
    assert_eq!(encode(&bytes), "007FFFAB");
    assert_eq!(decode(&encode(&bytes)).unwrap(), bytes);
}

#[test]
fn dump_groups_in_sixteens() {
    let bytes: Vec<u8> = (0..18).collect();
    let dump = format_dump(&bytes);
    assert!(dump.contains("00 01 02"));
    assert!(dump.contains("  10 11"));
}

#[test]
fn non_ascii_is_rejected_without_panicking() {
    assert!(decode("41ü2").is_err());
}

#[test]
fn every_byte_survives_the_round_trip() {
    let bytes: Vec<u8> = (0..=255).collect();
    assert_eq!(decode(&encode(&bytes)).unwrap(), bytes);
    assert_eq!(encode(&bytes).len(), 512);
}

#[test]
fn each_hex_error_has_its_input() {
    assert!(matches!(decode("4"), Err(HexError::OddLength(1))));
    assert!(matches!(decode("4g"), Err(HexError::InvalidDigit { .. })));
    assert!(has_prefix("0x41") && has_prefix("0X41") && !has_prefix("41"));
}
