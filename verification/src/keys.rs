//! Derivation of the signing identity from the configured secret.
//!
//! A 32-byte secret, given as hexadecimal text, deterministically yields a
//! public key and, from it, the 20-byte on-chain account identifier: the
//! secret's public key is serialized uncompressed, its tag byte dropped, the
//! remainder hashed, and the first 12 bytes of the digest discarded. The
//! derivation is a pure function of the secret — no randomness enters it.

use crate::hex::{bytes_of_hex, hex_decode, is_hex_digit};
use vstd::prelude::*;
use vstd::slice::{slice_subrange, slice_to_vec};

verus! {

/// The Keccak-256 digest of a byte string; fixed by the hash function alone.
pub uninterp spec fn keccak256_of(data: Seq<u8>) -> Seq<u8>;

/// The 65-byte uncompressed serialization of the public key belonging to a
/// 32-byte secret the curve accepts; fixed by the curve alone.
pub uninterp spec fn secp_pubkey_of(secret: Seq<u8>) -> Seq<u8>;

/// Whether the curve accepts 32 bytes as a secret: nonzero and below the
/// group order when read as a big-endian unsigned integer; fixed by the
/// curve alone, and the exact success condition of key validation wherever
/// the library checks a secret.
pub uninterp spec fn secp_accepts(secret: Seq<u8>) -> bool;

#[verifier::external_type_specification]
#[verifier::external_body]
/// Rejection of a secret by the elliptic-curve library.
pub struct ExSecpError(secp256k1::Error);

/// Relies on tiny_keccak's Keccak-256 hasher: the 32-byte digest is a function
/// of the input bytes alone.
#[verifier::external_body]
fn keccak256(data: &[u8]) -> (r: Vec<u8>)
    ensures
        r@ == keccak256_of(data@),
        r@.len() == 32,
{
    let mut hasher = tiny_keccak::Keccak::v256();
    tiny_keccak::Hasher::update(&mut hasher, data);
    let mut digest = [0u8; 32];
    tiny_keccak::Hasher::finalize(hasher, &mut digest);
    digest.to_vec()
}

/// Relies on secp256k1: `SecretKey::from_secret_bytes` succeeds exactly on
/// the 32-byte strings in the curve's valid range — nonzero and below the
/// group order — and `PublicKey::from_secret_key` followed by
/// `serialize_uncompressed` is the 65-byte uncompressed public key, a
/// function of the secret alone.
#[verifier::external_body]
fn secp_uncompressed_pubkey(secret: &[u8]) -> (r: Result<Vec<u8>, secp256k1::Error>)
    requires
        secret@.len() == 32,
    ensures
        r is Ok <==> secp_accepts(secret@),
        r matches Ok(pk) ==> pk@ == secp_pubkey_of(secret@) && pk@.len() == 65,
{
    let mut raw = [0u8; 32];
    raw.copy_from_slice(secret);
    let sk = secp256k1::SecretKey::from_secret_bytes(raw)?;
    let pk = secp256k1::PublicKey::from_secret_key(&sk);
    Ok(pk.serialize_uncompressed().to_vec())
}

/// The account identifier belonging to an uncompressed public key: the
/// Keccak-256 digest of the key without its tag byte, with the first 12 of
/// its 32 bytes discarded.
pub open spec fn spec_account_of_pubkey(pk: Seq<u8>) -> Seq<u8> {
    keccak256_of(pk.subrange(1, pk.len() as int)).subrange(12, 32)
}

/// The account identifier belonging to a 32-byte secret.
pub open spec fn spec_account_id(secret: Seq<u8>) -> Seq<u8> {
    spec_account_of_pubkey(secp_pubkey_of(secret))
}

/// Hexadecimal text denoting exactly 32 bytes.
pub open spec fn spec_secret_hex_ok(s: Seq<u8>) -> bool {
    s.len() == 64 && forall|i: int| 0 <= i < s.len() ==> is_hex_digit(s[i])
}

/// The derived signing identity: the secret's raw bytes and the on-chain
/// account identifier they yield.
#[derive(Debug)]
pub struct KeyMaterial {
    /// The 20-byte account identifier.
    pub account: Vec<u8>,
    /// The 32-byte secret.
    pub secret: Vec<u8>,
}

/// Rejection of a configured secret.
#[derive(PartialEq, Eq, Structural, Clone, Copy, Debug)]
pub enum KeyError {
    /// The text is not a run of hexadecimal digit pairs.
    MalformedHex,
    /// The text denotes a byte string that is not 32 bytes wide.
    WrongLength,
    /// The curve rejected the 32-byte string as a secret.
    Rejected,
}

impl KeyMaterial {
    /// Derives the signing identity from the secret's hexadecimal text.
    ///
    /// Succeeds exactly on well-formed 64-digit text whose 32 bytes the curve
    /// accepts; the account identifier is then a pure function of the secret.
    pub fn derive(secret_hex: &[u8]) -> (r: Result<KeyMaterial, KeyError>)
        ensures
            r is Ok <==> spec_secret_hex_ok(secret_hex@) && secp_accepts(
                bytes_of_hex(secret_hex@),
            ),
            r matches Ok(km) ==> spec_secret_hex_ok(secret_hex@) && km.secret@ == bytes_of_hex(
                secret_hex@,
            ) && km.account@ == spec_account_id(km.secret@) && km.account@.len() == 20
                && km.secret@.len() == 32,
            !(secret_hex@.len() % 2 == 0 && forall|i: int|
                0 <= i < secret_hex@.len() ==> is_hex_digit(secret_hex@[i])) <==> r == Err::<
                KeyMaterial,
                KeyError,
            >(KeyError::MalformedHex),
            ((secret_hex@.len() % 2 == 0 && forall|i: int|
                0 <= i < secret_hex@.len() ==> is_hex_digit(secret_hex@[i]))
                && secret_hex@.len() != 64) <==> r == Err::<KeyMaterial, KeyError>(
                KeyError::WrongLength,
            ),
            r == Err::<KeyMaterial, KeyError>(KeyError::Rejected) <==> (spec_secret_hex_ok(
                secret_hex@,
            ) && !secp_accepts(bytes_of_hex(secret_hex@))),
    {
        let raw = match hex_decode(secret_hex) {
            Ok(b) => b,
            Err(_) => {
                return Err(KeyError::MalformedHex);
            },
        };
        if raw.len() != 32 {
            return Err(KeyError::WrongLength);
        }
        let pk = match secp_uncompressed_pubkey(raw.as_slice()) {
            Ok(pk) => pk,
            Err(_) => {
                return Err(KeyError::Rejected);
            },
        };
        let hashed = keccak256(slice_subrange(pk.as_slice(), 1, 65));
        let account = slice_to_vec(slice_subrange(hashed.as_slice(), 12, 32));
        proof {
            assert(account@ =~= spec_account_id(raw@));
        }
        Ok(KeyMaterial { account, secret: raw })
    }
}

/// Law: derivation is deterministic. Whether it succeeds and which account
/// identifier it yields are both functions of the secret's text alone — the
/// terms of [`KeyMaterial::derive`]'s contract — so two invocations with the
/// same secret succeed together and yield identical identifiers.
pub proof fn lemma_derive_deterministic(
    secret_hex: Seq<u8>,
    ok1: bool,
    ok2: bool,
    a1: Seq<u8>,
    a2: Seq<u8>,
)
    requires
        ok1 == (spec_secret_hex_ok(secret_hex) && secp_accepts(bytes_of_hex(secret_hex))),
        ok2 == (spec_secret_hex_ok(secret_hex) && secp_accepts(bytes_of_hex(secret_hex))),
        a1 == spec_account_id(bytes_of_hex(secret_hex)),
        a2 == spec_account_id(bytes_of_hex(secret_hex)),
    ensures
        ok1 == ok2,
        a1 == a2,
{
}

} // verus!
