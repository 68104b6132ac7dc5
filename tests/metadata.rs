use merkleized_metadata_sys::metadata::{
    decode_metadata_bytes, DecodeError, Envelope, RuntimeMetadata, META_RESERVED,
};

// A record: the tag `meta`, then version 8 metadata with no bytes.
const RECORD: &str = "6d6574610800";

fn envelope_of(hex: &str) -> Result<Envelope, DecodeError> {
    RuntimeMetadata::from_hex(hex).map(|m| m.envelope())
}

#[test]
fn unwrapped_record_decodes() {
    let m = RuntimeMetadata::from_hex(RECORD).unwrap();
    assert_eq!(m.envelope(), Envelope::Unwrapped);
    assert_eq!(m.record().0, META_RESERVED);
}

#[test]
fn prefix_0x_is_accepted() {
    assert_eq!(envelope_of("0x6d6574610800"), Ok(Envelope::Unwrapped));
}

#[test]
fn upper_case_prefix_is_not_stripped() {
    assert_eq!(envelope_of("0X6d6574610800"), Err(DecodeError::InvalidHex));
}

#[test]
fn directly_wrapped_record_decodes() {
    assert_eq!(envelope_of("186d6574610800"), Ok(Envelope::DirectlyWrapped));
}

#[test]
fn optional_wrapped_record_decodes() {
    let m = RuntimeMetadata::from_hex("0x01186d6574610800").unwrap();
    assert_eq!(m.envelope(), Envelope::OptionalWrapped);
    assert_eq!(m.record().0, META_RESERVED);
}

#[test]
fn absent_optional_is_no_envelope() {
    assert_eq!(envelope_of("00"), Err(DecodeError::NoEnvelope));
}

#[test]
fn empty_input_is_no_envelope() {
    assert_eq!(envelope_of(""), Err(DecodeError::NoEnvelope));
}

#[test]
fn odd_length_hex_is_rejected() {
    assert_eq!(envelope_of("6d657"), Err(DecodeError::InvalidHex));
}

#[test]
fn non_hex_character_is_rejected() {
    assert_eq!(envelope_of("6d65746g0800"), Err(DecodeError::InvalidHex));
}

#[test]
fn mixed_case_hex_is_accepted() {
    assert_eq!(envelope_of("6D6574610800"), Ok(Envelope::Unwrapped));
}

#[test]
fn wrong_magic_unwrapped_fails() {
    assert_eq!(envelope_of("000000000800"), Err(DecodeError::WrongMagic(0)));
}

#[test]
fn wrong_magic_directly_wrapped_fails() {
    assert_eq!(envelope_of("18010203040800"), Err(DecodeError::WrongMagic(0x04030201)));
}

#[test]
fn wrong_magic_optional_wrapped_fails() {
    assert_eq!(envelope_of("0118000000000800"), Err(DecodeError::WrongMagic(0)));
}

#[test]
fn trailing_byte_after_directly_wrapped_is_rejected() {
    assert_eq!(envelope_of("186d657461080000"), Err(DecodeError::NoEnvelope));
}

#[test]
fn trailing_byte_after_optional_wrapped_is_rejected() {
    assert_eq!(envelope_of("01186d657461080000"), Err(DecodeError::NoEnvelope));
}

#[test]
fn trailing_byte_after_record_is_rejected() {
    assert_eq!(envelope_of("6d657461080000"), Err(DecodeError::NoEnvelope));
}

#[test]
fn short_length_prefix_is_rejected() {
    // The prefix says five bytes where six follow.
    assert_eq!(envelope_of("146d6574610800"), Err(DecodeError::NoEnvelope));
}

#[test]
fn too_short_for_a_tag_is_no_envelope() {
    assert_eq!(envelope_of("6d6574"), Err(DecodeError::NoEnvelope));
}

#[test]
fn two_byte_length_prefix_is_read() {
    // Version 8 metadata of 62 bytes makes a record of 68 bytes: the length
    // prefix takes two bytes.
    let mut hex = String::from("1101");
    hex.push_str("6d657461");
    hex.push_str("08f8");
    for _ in 0..62 {
        hex.push_str("aa");
    }
    assert_eq!(envelope_of(&hex), Ok(Envelope::DirectlyWrapped));
}

#[test]
fn non_canonical_length_prefix_is_rejected() {
    // Six in the two-byte mode, which is kept for 64 and more.
    assert_eq!(envelope_of("19006d6574610800"), Err(DecodeError::NoEnvelope));
}

#[test]
fn bytes_decode_directly() {
    let bytes = [0x01u8, 0x18, 0x6d, 0x65, 0x74, 0x61, 0x08, 0x00];
    let m = decode_metadata_bytes(&bytes).unwrap();
    assert_eq!(m.envelope(), Envelope::OptionalWrapped);
}
