use git_audit::hex::hex_decode;
use git_audit::keys::{KeyError, KeyMaterial};

const KEY_OF_ONE: &[u8] =
    b"0000000000000000000000000000000000000000000000000000000000000001";

#[test]
fn derive_matches_known_vector() {
    // the secret 1: its public key is the curve's generator, whose
    // uncompressed serialization hashes to this well-known account
    let km = KeyMaterial::derive(KEY_OF_ONE).unwrap();
    assert_eq!(
        km.account,
        hex_decode(b"7e5f4552091a69125d5dfcb7b8c2659029395bdf").unwrap()
    );
    assert_eq!(km.secret, hex_decode(KEY_OF_ONE).unwrap());
}

#[test]
fn derive_is_deterministic() {
    let secret = b"4646464646464646464646464646464646464646464646464646464646464646";
    let first = KeyMaterial::derive(secret).unwrap();
    let second = KeyMaterial::derive(secret).unwrap();
    assert_eq!(first.account, second.account);
    assert_eq!(first.secret, second.secret);
}

#[test]
fn derive_rejects_malformed_hex() {
    assert_eq!(KeyMaterial::derive(b"zz").unwrap_err(), KeyError::MalformedHex);
    assert_eq!(KeyMaterial::derive(b"abc").unwrap_err(), KeyError::MalformedHex);
}

#[test]
fn derive_rejects_wrong_length() {
    assert_eq!(KeyMaterial::derive(b"deadbeef").unwrap_err(), KeyError::WrongLength);
}

#[test]
fn derive_rejects_zero_secret() {
    let zeros = b"0000000000000000000000000000000000000000000000000000000000000000";
    assert_eq!(KeyMaterial::derive(zeros).unwrap_err(), KeyError::Rejected);
}
