//! Contract call payloads: encoding calls against a loaded ABI description and
//! decoding their return payloads.
//!
//! The engine makes two calls: `anchor`, whose single argument is a 32-byte
//! revision identifier embedded as an unsigned 256-bit big-endian integer, and
//! `commits`, which takes nothing and returns the dynamic array of all anchored
//! integers. The encoding itself is the ABI library's; its results are named
//! here, and the embedding of identifiers into integers is pinned exactly, so
//! that the round-trip law of [`crate::codec`] applies to what travels through
//! the contract.

use crate::bytes::copy_bytes;
use crate::codec::{be_of_uint, lemma_be_of_uint_len, uint_of_be};
use vstd::arithmetic::power2::pow2;
use vstd::prelude::*;

verus! {

/// The call payload that the ABI library builds for the named function of the
/// given ABI description from unsigned 256-bit integer arguments; a function
/// of these alone.
pub uninterp spec fn abi_call_data(abi: Seq<u8>, fname: Seq<char>, args: Seq<nat>) -> Seq<u8>;

/// Whether the ABI library encodes a call at all: the ABI text parses, the
/// named function exists and takes exactly the given unsigned 256-bit
/// integer arguments; a function of these alone.
pub uninterp spec fn abi_call_ok(abi: Seq<u8>, fname: Seq<char>, args: Seq<nat>) -> bool;

/// The unsigned 256-bit integers that the ABI library decodes out of a return
/// payload of the named function, expected to return one dynamic array of
/// them; a function of these alone.
pub uninterp spec fn abi_uint_array_output(abi: Seq<u8>, fname: Seq<char>, raw: Seq<u8>) -> Seq<
    nat,
>;

/// Whether a return payload of the named function decodes as exactly one
/// dynamic array of unsigned 256-bit integers under the given ABI; a
/// function of these alone.
pub uninterp spec fn abi_uint_array_ok(abi: Seq<u8>, fname: Seq<char>, raw: Seq<u8>) -> bool;

#[verifier::external_type_specification]
#[verifier::external_body]
/// Rejection by the ABI library: a malformed description, an unknown function
/// name, an argument mismatch or an undecodable payload.
pub struct ExEthabiError(ethabi::Error);

/// Relies on ethabi: `Contract::load` parses the ABI JSON, `Contract::function`
/// looks the named function up, and `Function::encode_input` builds the call
/// payload, each 32-byte argument read as a big-endian unsigned 256-bit
/// integer by `Uint::from_big_endian`. Whether all three steps succeed, and
/// what the payload is, are functions of the ABI text, the name and the
/// argument integers alone.
#[verifier::external_body]
fn abi_encode_call(abi_json: &[u8], fname: &str, args: &Vec<Vec<u8>>) -> (r: Result<
    Vec<u8>,
    ethabi::Error,
>)
    requires
        forall|i: int| 0 <= i < args@.len() ==> args@[i]@.len() == 32,
    ensures
        r is Ok <==> abi_call_ok(abi_json@, fname@, args@.map_values(|a: Vec<u8>| uint_of_be(a@))),
        r matches Ok(data) ==> data@ == abi_call_data(
            abi_json@,
            fname@,
            args@.map_values(|a: Vec<u8>| uint_of_be(a@)),
        ),
{
    let function = ethabi::Contract::load(abi_json)?.function(fname)?.clone();
    let tokens: Vec<ethabi::Token> = args.iter().map(
        |a| ethabi::Token::Uint(ethabi::Uint::from_big_endian(a.as_slice())),
    ).collect();
    function.encode_input(&tokens)
}

/// Relies on ethabi: `Contract::load` parses the ABI JSON, `Contract::function`
/// looks the named function up, and `Function::decode_output` decodes the
/// return payload against it; one `uint256[]` token is expected, and each
/// element is handed out as its 32-byte big-endian representation, written by
/// `Uint::to_big_endian`. Every decoded integer is below 2^256, and whether
/// the payload decodes at all is a function of the ABI text, the name and
/// the payload alone.
#[verifier::external_body]
fn abi_decode_uint_array(abi_json: &[u8], fname: &str, raw: &[u8]) -> (r: Result<
    Vec<Vec<u8>>,
    ethabi::Error,
>)
    ensures
        r is Ok <==> abi_uint_array_ok(abi_json@, fname@, raw@),
        r matches Ok(items) ==> ({
            let out = abi_uint_array_output(abi_json@, fname@, raw@);
            items@.len() == out.len() && forall|i: int|
                0 <= i < out.len() ==> out[i] < pow2(256) && (#[trigger] items@[i])@ == be_of_uint(
                    out[i],
                    32,
                )
        }),
{
    let tokens = ethabi::Contract::load(abi_json)?.function(fname)?.decode_output(raw)?;
    match &tokens[..] {
        [ethabi::Token::Array(elements)] => elements.iter().map(|t| match t {
            ethabi::Token::Uint(u) => {
                let mut buf = [0u8; 32];
                u.to_big_endian(&mut buf);
                Ok(buf.to_vec())
            },
            _ => Err(ethabi::Error::InvalidData),
        }).collect(),
        _ => Err(ethabi::Error::InvalidData),
    }
}

/// Rejection of a payload operation.
#[derive(PartialEq, Eq, Structural, Clone, Copy, Debug)]
pub enum AbiError {
    /// A call payload could not be encoded.
    Encoding,
    /// A return payload could not be decoded as one `uint256[]`.
    Decoding,
}

/// Encodes the `anchor` call whose single argument embeds the 32-byte revision
/// identifier as an unsigned 256-bit big-endian integer; succeeds exactly
/// when the ABI offers that call.
pub fn anchor_call_data(abi_json: &Vec<u8>, tip: &Vec<u8>) -> (r: Result<Vec<u8>, AbiError>)
    requires
        tip@.len() == 32,
    ensures
        r is Ok <==> abi_call_ok(abi_json@, "anchor"@, seq![uint_of_be(tip@)]),
        r matches Ok(data) ==> data@ == abi_call_data(abi_json@, "anchor"@, seq![uint_of_be(tip@)]),
        r is Err ==> r == Err::<Vec<u8>, AbiError>(AbiError::Encoding),
{
    let mut args: Vec<Vec<u8>> = Vec::new();
    args.push(copy_bytes(tip));
    proof {
        assert(args@.map_values(|a: Vec<u8>| uint_of_be(a@)) =~= seq![uint_of_be(tip@)]);
    }
    match abi_encode_call(abi_json.as_slice(), "anchor", &args) {
        Ok(data) => Ok(data),
        Err(_) => Err(AbiError::Encoding),
    }
}

/// Encodes the argument-less `commits` call; succeeds exactly when the ABI
/// offers that call.
pub fn commits_call_data(abi_json: &Vec<u8>) -> (r: Result<Vec<u8>, AbiError>)
    ensures
        r is Ok <==> abi_call_ok(abi_json@, "commits"@, Seq::<nat>::empty()),
        r matches Ok(data) ==> data@ == abi_call_data(abi_json@, "commits"@, Seq::<nat>::empty()),
        r is Err ==> r == Err::<Vec<u8>, AbiError>(AbiError::Encoding),
{
    let args: Vec<Vec<u8>> = Vec::new();
    proof {
        assert(args@.map_values(|a: Vec<u8>| uint_of_be(a@)) =~= Seq::<nat>::empty());
    }
    match abi_encode_call(abi_json.as_slice(), "commits", &args) {
        Ok(data) => Ok(data),
        Err(_) => Err(AbiError::Encoding),
    }
}

/// Decodes the `commits` return payload into the anchored revision
/// identifiers: each returned integer's full 32-byte big-endian
/// representation, nothing truncated. Succeeds exactly when the payload
/// decodes as one dynamic array of unsigned 256-bit integers — a malformed
/// response is always the decoding error, never a commit set.
pub fn decode_commit_set(abi_json: &Vec<u8>, raw: &[u8]) -> (r: Result<Vec<Vec<u8>>, AbiError>)
    ensures
        r is Ok <==> abi_uint_array_ok(abi_json@, "commits"@, raw@),
        r matches Ok(items) ==> ({
            let out = abi_uint_array_output(abi_json@, "commits"@, raw@);
            items@.len() == out.len() && forall|i: int|
                0 <= i < out.len() ==> (#[trigger] items@[i])@ == be_of_uint(out[i], 32)
                    && items@[i]@.len() == 32
        }),
        r is Err ==> r == Err::<Vec<Vec<u8>>, AbiError>(AbiError::Decoding),
{
    match abi_decode_uint_array(abi_json.as_slice(), "commits", raw) {
        Ok(items) => {
            proof {
                let out = abi_uint_array_output(abi_json@, "commits"@, raw@);
                assert forall|i: int| 0 <= i < out.len() implies (#[trigger] items@[i])@
                    == be_of_uint(out[i], 32) && items@[i]@.len() == 32 by {
                    lemma_be_of_uint_len(out[i], 32);
                }
            }
            Ok(items)
        },
        Err(_) => Err(AbiError::Decoding),
    }
}

/// Law: a 32-byte revision identifier embedded as an unsigned 256-bit
/// big-endian integer — as the `anchor` call does — and decoded back from that
/// integer's 32-byte representation — as the `commits` decoding does — comes
/// back unchanged.
pub proof fn lemma_embedded_identifier_round_trip(id: Seq<u8>)
    requires
        id.len() == 32,
    ensures
        be_of_uint(uint_of_be(id), 32) == id,
{
    crate::codec::lemma_be_round_trip(id);
}

} // verus!
