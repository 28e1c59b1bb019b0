use git_audit::codec::full_width_revision;
use git_audit::hex::{hex_decode, hex_encode, HexError};

#[test]
fn hex_encode_known_bytes() {
    assert_eq!(hex_encode(&[0x00, 0x7f, 0xa5, 0xff]), b"007fa5ff".to_vec());
}

#[test]
fn hex_encode_empty() {
    assert_eq!(hex_encode(&[]), Vec::<u8>::new());
}

#[test]
fn hex_decode_mixed_case() {
    assert_eq!(hex_decode(b"00FfA5").unwrap(), vec![0x00, 0xff, 0xa5]);
}

#[test]
fn hex_decode_odd_length_fails() {
    assert_eq!(hex_decode(b"abc").unwrap_err(), HexError::OddLength);
}

#[test]
fn hex_decode_bad_digit_fails() {
    assert_eq!(hex_decode(b"0g").unwrap_err(), HexError::InvalidDigit);
}

#[test]
fn hex_round_trip() {
    let bytes: Vec<u8> = (0u16..=255).map(|b| b as u8).collect();
    assert_eq!(hex_decode(&hex_encode(&bytes)).unwrap(), bytes);
}

#[test]
fn full_width_revision_left_pads_a_short_identifier() {
    let id: Vec<u8> = (1u8..=20).collect();
    let wide = full_width_revision(&id);
    assert_eq!(wide.len(), 32);
    assert_eq!(&wide[..12], &[0u8; 12]);
    assert_eq!(&wide[12..], id.as_slice());
}

#[test]
fn full_width_revision_keeps_a_full_identifier() {
    let id: Vec<u8> = (0u8..32).collect();
    assert_eq!(full_width_revision(&id), id);
}
