use git_audit::abi::{anchor_call_data, commits_call_data, decode_commit_set, AbiError};
use tiny_keccak::Hasher;

const ABI_JSON: &str = "[{\"type\":\"function\",\"name\":\"anchor\",\
\"inputs\":[{\"name\":\"commit\",\"type\":\"uint256\"}],\"outputs\":[]},\
{\"type\":\"function\",\"name\":\"commits\",\"inputs\":[],\
\"outputs\":[{\"name\":\"\",\"type\":\"uint256[]\"}]}]";

fn selector(signature: &str) -> [u8; 4] {
    let mut hasher = tiny_keccak::Keccak::v256();
    hasher.update(signature.as_bytes());
    let mut digest = [0u8; 32];
    hasher.finalize(&mut digest);
    [digest[0], digest[1], digest[2], digest[3]]
}

fn abi_bytes() -> Vec<u8> {
    ABI_JSON.as_bytes().to_vec()
}

#[test]
fn anchor_call_embeds_identifier_untruncated() {
    let id: Vec<u8> = (0u8..32).collect();
    let data = anchor_call_data(&abi_bytes(), &id).unwrap();
    assert_eq!(data.len(), 36);
    assert_eq!(&data[0..4], &selector("anchor(uint256)"));
    // the full 32-byte identifier is the argument's big-endian representation
    assert_eq!(&data[4..36], id.as_slice());
}

#[test]
fn commits_call_is_selector_only() {
    let data = commits_call_data(&abi_bytes()).unwrap();
    assert_eq!(data, selector("commits()").to_vec());
}

#[test]
fn decode_commit_set_reads_dynamic_array() {
    let first: Vec<u8> = (100u8..132).collect();
    let mut second = vec![0u8; 32];
    second[31] = 7;
    // offset of the array data, its length, then the two elements
    let mut raw = vec![0u8; 32];
    raw[31] = 0x20;
    let mut len_word = vec![0u8; 32];
    len_word[31] = 2;
    raw.extend_from_slice(&len_word);
    raw.extend_from_slice(&first);
    raw.extend_from_slice(&second);
    let decoded = decode_commit_set(&abi_bytes(), &raw).unwrap();
    assert_eq!(decoded, vec![first, second]);
}

#[test]
fn anchored_identifier_round_trips_through_payloads() {
    // what anchoring embeds, decoding hands back unchanged
    let id: Vec<u8> = (0u8..32).rev().collect();
    let call = anchor_call_data(&abi_bytes(), &id).unwrap();
    let embedded = &call[4..36];
    let mut raw = vec![0u8; 32];
    raw[31] = 0x20;
    let mut len_word = vec![0u8; 32];
    len_word[31] = 1;
    raw.extend_from_slice(&len_word);
    raw.extend_from_slice(embedded);
    let decoded = decode_commit_set(&abi_bytes(), &raw).unwrap();
    assert_eq!(decoded, vec![id]);
}

#[test]
fn encode_unknown_function_fails() {
    let without_anchor =
        b"[{\"type\":\"function\",\"name\":\"other\",\"inputs\":[],\"outputs\":[]}]".to_vec();
    let id = vec![0u8; 32];
    assert_eq!(anchor_call_data(&without_anchor, &id).unwrap_err(), AbiError::Encoding);
}

#[test]
fn encode_against_malformed_abi_fails() {
    assert_eq!(commits_call_data(&b"not json".to_vec()).unwrap_err(), AbiError::Encoding);
}

#[test]
fn decode_truncated_payload_fails() {
    assert_eq!(
        decode_commit_set(&abi_bytes(), &[0u8; 7]).unwrap_err(),
        AbiError::Decoding
    );
}
