//! Workflow decisions of the three operations: initialize, anchor, validate.
//!
//! Each operation's decisions are functions from the settings and plain
//! event values to plans, errors and exit codes; the caller performs the
//! ledger and repository work between them, strictly sequentially, and hands
//! the results back. Refusals happen here, before any ledger request: an
//! initialize against an initialized repository, and an anchor or a
//! validation against an uninitialized one, never reach the ledger.

use crate::abi::{abi_call_data, abi_call_ok, anchor_call_data, commits_call_data, AbiError};
use crate::bytes::append_bytes;
use crate::codec::uint_of_be;
use crate::hex::{bytes_of_hex, hex_decode, hex_encode, hex_of_bytes, is_hex_digit};
use crate::keys::{secp_accepts, spec_account_id, spec_secret_hex_ok, KeyError, KeyMaterial};
use crate::settings::{json_text_ok, ConfigError, ContractView, DocView, Settings, SettingsView};
use vstd::prelude::*;

verus! {

/// A failure of a workflow step, before or after the ledger work.
#[derive(PartialEq, Eq, Structural, Clone, Copy, Debug)]
pub enum WorkflowError {
    /// Initialize refused: a contract address is already configured.
    AlreadyInitialized,
    /// Anchor or validate refused: no contract address is configured.
    NotInitialized,
    /// A required field of the merged settings is missing.
    Config(ConfigError),
    /// The configured secret was rejected.
    Key(KeyError),
    /// A call payload could not be encoded or decoded.
    Abi(AbiError),
    /// The configured contract address is not 40 hexadecimal digits.
    BadContractAddress,
    /// The confirmation receipt of a deployment names no contract address:
    /// an unrecoverable inconsistency, to be aborted on loudly.
    ReceiptWithoutContractAddress,
}

/// The signing secret's hexadecimal text in the merged view, where present.
pub open spec fn merged_private_key(v: SettingsView) -> Option<Seq<u8>> {
    match v.merged.ethereum {
        Some(e) => e.private_key,
        None => None,
    }
}

/// The chain identifier in the merged view, where present.
pub open spec fn merged_chain_id(v: SettingsView) -> Option<u64> {
    match v.merged.ethereum {
        Some(e) => e.chain_id,
        None => None,
    }
}

/// Text made of hexadecimal digit pairs.
pub open spec fn hex_pairs_ok(s: Seq<u8>) -> bool {
    s.len() % 2 == 0 && forall|i: int| 0 <= i < s.len() ==> is_hex_digit(s[i])
}

/// A configured contract address of the right shape: 40 hexadecimal digits,
/// denoting 20 bytes.
pub open spec fn contract_address_ok(c: ContractView) -> bool {
    hex_pairs_ok(c.address) && c.address.len() == 40
}

/// The refusal, if any, that key derivation gives for the configured
/// secret's hexadecimal text.
pub open spec fn spec_key_refusal(pk: Seq<u8>) -> Option<KeyError> {
    if !hex_pairs_ok(pk) {
        Some(KeyError::MalformedHex)
    } else if pk.len() != 64 {
        Some(KeyError::WrongLength)
    } else if !secp_accepts(bytes_of_hex(pk)) {
        Some(KeyError::Rejected)
    } else {
        None
    }
}

/// The refusal, if any, with which an initialize ends before any ledger
/// request: none exactly when a plan is handed out.
pub open spec fn spec_init_refusal(v: SettingsView) -> Option<WorkflowError> {
    if v.merged.contract is Some {
        Some(WorkflowError::AlreadyInitialized)
    } else if merged_private_key(v) is None {
        Some(WorkflowError::Config(ConfigError::MissingPrivateKey))
    } else if merged_chain_id(v) is None {
        Some(WorkflowError::Config(ConfigError::MissingChainId))
    } else {
        match spec_key_refusal(merged_private_key(v).unwrap()) {
            Some(e) => Some(WorkflowError::Key(e)),
            None => None,
        }
    }
}

/// The refusal, if any, with which an anchor of the given 32-byte tip ends
/// before any ledger request: none exactly when a plan is handed out.
pub open spec fn spec_anchor_refusal(v: SettingsView, tip: Seq<u8>) -> Option<WorkflowError> {
    match v.merged.contract {
        Option::None => Some(WorkflowError::NotInitialized),
        Option::Some(c) => if !contract_address_ok(c) {
            Some(WorkflowError::BadContractAddress)
        } else if merged_private_key(v) is None {
            Some(WorkflowError::Config(ConfigError::MissingPrivateKey))
        } else if merged_chain_id(v) is None {
            Some(WorkflowError::Config(ConfigError::MissingChainId))
        } else {
            match spec_key_refusal(merged_private_key(v).unwrap()) {
                Some(e) => Some(WorkflowError::Key(e)),
                None => if !abi_call_ok(c.abi, "anchor"@, seq![uint_of_be(tip)]) {
                    Some(WorkflowError::Abi(AbiError::Encoding))
                } else {
                    None
                },
            }
        },
    }
}

/// The refusal, if any, with which a validation ends before any ledger
/// request: none exactly when a plan is handed out.
pub open spec fn spec_validation_refusal(v: SettingsView) -> Option<WorkflowError> {
    match v.merged.contract {
        Option::None => Some(WorkflowError::NotInitialized),
        Option::Some(c) => if !contract_address_ok(c) {
            Some(WorkflowError::BadContractAddress)
        } else if !abi_call_ok(c.abi, "commits"@, Seq::<nat>::empty()) {
            Some(WorkflowError::Abi(AbiError::Encoding))
        } else {
            None
        },
    }
}

/// What the initialize operation needs before it touches the ledger.
#[derive(Debug)]
pub struct InitPlan {
    /// The derived signing identity; its account is the future contract owner.
    pub identity: KeyMaterial,
    /// The chain identifier that the deployment is signed for.
    pub chain_id: u64,
}

/// Decides the start of an initialize: refused outright — before any ledger
/// request — when a contract address is already configured; otherwise the
/// signing identity and the chain identifier, or the configuration error
/// that prevents them.
pub fn plan_initialization(s: &Settings) -> (r: Result<InitPlan, WorkflowError>)
    ensures
        r is Ok <==> spec_init_refusal(s@) is None,
        r matches Err(e) ==> spec_init_refusal(s@) == Some(e),
        r matches Ok(p) ==> ({
            &&& s@.merged.contract is None
            &&& merged_private_key(s@) matches Some(pk) && spec_secret_hex_ok(pk)
                && p.identity.secret@ == bytes_of_hex(pk)
            &&& p.identity.account@ == spec_account_id(p.identity.secret@)
            &&& p.identity.account@.len() == 20
            &&& p.identity.secret@.len() == 32
            &&& secp_accepts(p.identity.secret@)
            &&& merged_chain_id(s@) == Some(p.chain_id)
        }),
{
    match s.contract_address() {
        Some(_) => {
            return Err(WorkflowError::AlreadyInitialized);
        },
        None => {},
    }
    let pk = match s.ethereum_private_key() {
        Ok(p) => p,
        Err(e) => {
            return Err(WorkflowError::Config(e));
        },
    };
    let chain_id = match s.ethereum_chain_id() {
        Ok(c) => c,
        Err(e) => {
            return Err(WorkflowError::Config(e));
        },
    };
    let identity = match KeyMaterial::derive(pk.as_slice()) {
        Ok(k) => k,
        Err(e) => {
            return Err(WorkflowError::Key(e));
        },
    };
    Ok(InitPlan { identity, chain_id })
}

/// The confirmation record of a submitted transaction, as plain values.
pub struct Receipt {
    /// The inclusion status: success, failure, or something unrecognized.
    pub status: Option<u64>,
    /// The created contract's address, present after a deployment.
    pub contract_address: Option<Vec<u8>>,
    /// The 32-byte transaction hash.
    pub transaction_hash: Vec<u8>,
}

/// Finishes an initialize after the deployment was confirmed: the created
/// contract's address and the deployer's account are recorded — as
/// hexadecimal text — together with the ABI, in the repository layer and the
/// merged view. A receipt without a contract address is an unrecoverable
/// inconsistency, an ABI that is not JSON text is refused, and in either
/// case nothing changes.
pub fn complete_initialization(
    s: &mut Settings,
    receipt: &Receipt,
    deployer: &Vec<u8>,
    abi_json: &Vec<u8>,
) -> (r: Result<(), WorkflowError>)
    ensures
        r is Ok <==> (receipt.contract_address is Some && json_text_ok(abi_json@)),
        receipt.contract_address is None ==> r == Err::<(), WorkflowError>(
            WorkflowError::ReceiptWithoutContractAddress,
        ) && final(s)@ == old(s)@,
        (receipt.contract_address is Some && !json_text_ok(abi_json@)) ==> r == Err::<
            (),
            WorkflowError,
        >(WorkflowError::Config(ConfigError::MalformedAbi)) && final(s)@ == old(s)@,
        r is Ok ==> ({
            &&& receipt.contract_address matches Some(ca) && final(s)@.repository == (DocView {
                contract: Some(
                    ContractView {
                        address: hex_of_bytes(ca@),
                        owner: hex_of_bytes(deployer@),
                        abi: abi_json@,
                    },
                ),
                ..old(s)@.repository
            }) && final(s)@.merged == (DocView {
                contract: Some(
                    ContractView {
                        address: hex_of_bytes(ca@),
                        owner: hex_of_bytes(deployer@),
                        abi: abi_json@,
                    },
                ),
                ..old(s)@.merged
            })
        }),
{
    match &receipt.contract_address {
        None => Err(WorkflowError::ReceiptWithoutContractAddress),
        Some(ca) => {
            let address_hex = hex_encode(ca.as_slice());
            let owner_hex = hex_encode(deployer.as_slice());
            match s.set_contract(&address_hex, &owner_hex, abi_json) {
                Ok(()) => Ok(()),
                Err(_) => Err(WorkflowError::Config(ConfigError::MalformedAbi)),
            }
        },
    }
}

/// What the anchor operation needs before it touches the ledger.
#[derive(Debug)]
pub struct AnchorPlan {
    /// The 20-byte contract address the call is sent to.
    pub to: Vec<u8>,
    /// The encoded `anchor` call payload embedding the tip identifier.
    pub data: Vec<u8>,
    /// The derived signing identity.
    pub identity: KeyMaterial,
    /// The chain identifier that the transaction is signed for.
    pub chain_id: u64,
}

/// Decides the start of an anchor of the 32-byte tip identifier: refused
/// outright — before any ledger request — when no contract address is
/// configured; otherwise the recipient, the call payload embedding the tip
/// as a 256-bit big-endian integer, the signing identity and the chain
/// identifier, or the error that prevents them.
pub fn plan_anchor(s: &Settings, tip: &Vec<u8>) -> (r: Result<AnchorPlan, WorkflowError>)
    requires
        tip@.len() == 32,
    ensures
        r is Ok <==> spec_anchor_refusal(s@, tip@) is None,
        r matches Err(e) ==> spec_anchor_refusal(s@, tip@) == Some(e),
        r matches Ok(p) ==> ({
            &&& s@.merged.contract matches Some(c) && contract_address_ok(c) && p.to@
                == bytes_of_hex(c.address) && p.data@ == abi_call_data(
                c.abi,
                "anchor"@,
                seq![uint_of_be(tip@)],
            )
            &&& p.to@.len() == 20
            &&& merged_private_key(s@) matches Some(pk) && spec_secret_hex_ok(pk)
                && p.identity.secret@ == bytes_of_hex(pk)
            &&& p.identity.account@ == spec_account_id(p.identity.secret@)
            &&& p.identity.account@.len() == 20
            &&& secp_accepts(p.identity.secret@)
            &&& merged_chain_id(s@) == Some(p.chain_id)
        }),
{
    let address_text = match s.contract_address() {
        None => {
            return Err(WorkflowError::NotInitialized);
        },
        Some(a) => a,
    };
    let to = match hex_decode(address_text.as_slice()) {
        Ok(b) => b,
        Err(_) => {
            return Err(WorkflowError::BadContractAddress);
        },
    };
    if to.len() != 20 {
        return Err(WorkflowError::BadContractAddress);
    }
    let pk = match s.ethereum_private_key() {
        Ok(p) => p,
        Err(e) => {
            return Err(WorkflowError::Config(e));
        },
    };
    let chain_id = match s.ethereum_chain_id() {
        Ok(c) => c,
        Err(e) => {
            return Err(WorkflowError::Config(e));
        },
    };
    let identity = match KeyMaterial::derive(pk.as_slice()) {
        Ok(k) => k,
        Err(e) => {
            return Err(WorkflowError::Key(e));
        },
    };
    let abi_json = match s.contract_abi_json() {
        Ok(a) => a,
        Err(e) => {
            return Err(WorkflowError::Config(e));
        },
    };
    let data = match anchor_call_data(abi_json, tip) {
        Ok(d) => d,
        Err(_) => {
            return Err(WorkflowError::Abi(AbiError::Encoding));
        },
    };
    Ok(AnchorPlan { to, data, identity, chain_id })
}

/// What the validate operation needs before it queries the ledger.
#[derive(Debug)]
pub struct ValidationPlan {
    /// The 20-byte contract address the read-only call is sent to.
    pub to: Vec<u8>,
    /// The encoded argument-less `commits` call payload.
    pub data: Vec<u8>,
}

/// Decides the start of a validation: refused outright — before any ledger
/// request — when no contract address is configured; otherwise the recipient
/// and the `commits` call payload. No identity is derived and nothing is
/// signed: the call is read-only.
pub fn plan_validation(s: &Settings) -> (r: Result<ValidationPlan, WorkflowError>)
    ensures
        r is Ok <==> spec_validation_refusal(s@) is None,
        r matches Err(e) ==> spec_validation_refusal(s@) == Some(e),
        r matches Ok(p) ==> ({
            &&& s@.merged.contract matches Some(c) && contract_address_ok(c) && p.to@
                == bytes_of_hex(c.address) && p.data@ == abi_call_data(
                c.abi,
                "commits"@,
                Seq::<nat>::empty(),
            )
            &&& p.to@.len() == 20
        }),
{
    let address_text = match s.contract_address() {
        None => {
            return Err(WorkflowError::NotInitialized);
        },
        Some(a) => a,
    };
    let to = match hex_decode(address_text.as_slice()) {
        Ok(b) => b,
        Err(_) => {
            return Err(WorkflowError::BadContractAddress);
        },
    };
    if to.len() != 20 {
        return Err(WorkflowError::BadContractAddress);
    }
    let abi_json = match s.contract_abi_json() {
        Ok(a) => a,
        Err(e) => {
            return Err(WorkflowError::Config(e));
        },
    };
    let data = match commits_call_data(abi_json) {
        Ok(d) => d,
        Err(_) => {
            return Err(WorkflowError::Abi(AbiError::Encoding));
        },
    };
    Ok(ValidationPlan { to, data })
}

/// The meaning of a receipt's status.
#[derive(PartialEq, Eq, Structural, Clone, Copy, Debug)]
pub enum ReceiptOutcome {
    /// Status one: the transaction took effect.
    Confirmed,
    /// Status zero: the transaction was included but marked failed.
    Rejected,
    /// Any other status, or none: an unrecoverable inconsistency, to be
    /// aborted on loudly, never treated as success.
    Inconsistent,
}

/// Classifies a receipt's status: one is success, zero is a rejection, and
/// anything else — a missing status included — is an inconsistency.
pub fn classify_receipt_status(status: Option<u64>) -> (r: ReceiptOutcome)
    ensures
        r == ReceiptOutcome::Confirmed <==> status == Some(1u64),
        r == ReceiptOutcome::Rejected <==> status == Some(0u64),
        r == ReceiptOutcome::Inconsistent <==> !(status == Some(1u64) || status == Some(0u64)),
{
    match status {
        Some(1) => ReceiptOutcome::Confirmed,
        Some(0) => ReceiptOutcome::Rejected,
        _ => ReceiptOutcome::Inconsistent,
    }
}

/// The workflow exit code for a classified receipt: zero for a confirmed
/// transaction, one for a rejected one, and none at all for an inconsistent
/// receipt — the caller must abort rather than report anything.
pub fn receipt_exit_code(outcome: ReceiptOutcome) -> (r: Option<i32>)
    ensures
        outcome == ReceiptOutcome::Confirmed <==> r == Some(0i32),
        outcome == ReceiptOutcome::Rejected <==> r == Some(1i32),
        outcome == ReceiptOutcome::Inconsistent <==> r is None,
{
    match outcome {
        ReceiptOutcome::Confirmed => Some(0),
        ReceiptOutcome::Rejected => Some(1),
        ReceiptOutcome::Inconsistent => None,
    }
}

/// The workflow exit code for a planning failure. The two refusals that are
/// reported rather than crashed on — an initialize against an initialized
/// repository, an anchor or a validation against an uninitialized one — exit
/// one; every other failure gets no exit code at all, and the caller must
/// abort loudly.
pub fn refusal_exit_code(e: WorkflowError) -> (r: Option<i32>)
    ensures
        r == Some(1i32) <==> (e == WorkflowError::AlreadyInitialized || e
            == WorkflowError::NotInitialized),
        r is Some ==> r == Some(1i32),
{
    match e {
        WorkflowError::AlreadyInitialized => Some(1),
        WorkflowError::NotInitialized => Some(1),
        _ => None,
    }
}

/// Exit code of a validation run: zero when every on-chain entry was found
/// locally, one as soon as at least one entry is missing.
pub fn validation_exit_code(bad: usize) -> (r: i32)
    ensures
        r == if bad > 0 { 1int } else { 0int },
{
    if bad > 0 {
        1
    } else {
        0
    }
}

/// The bytes of `anchor transaction call failed: `.
pub open spec fn warning_prefix() -> Seq<u8> {
    seq![97u8, 110u8, 99u8, 104u8, 111u8, 114u8, 32u8, 116u8, 114u8, 97u8, 110u8, 115u8, 97u8, 99u8, 116u8, 105u8, 111u8, 110u8, 32u8, 99u8, 97u8, 108u8, 108u8, 32u8, 102u8, 97u8, 105u8, 108u8, 101u8, 100u8, 58u8, 32u8]
}

/// The bytes of `unable to anchor commit in contract: 0x`.
pub open spec fn failure_prefix() -> Seq<u8> {
    seq![117u8, 110u8, 97u8, 98u8, 108u8, 101u8, 32u8, 116u8, 111u8, 32u8, 97u8, 110u8, 99u8, 104u8, 111u8, 114u8, 32u8, 99u8, 111u8, 109u8, 109u8, 105u8, 116u8, 32u8, 105u8, 110u8, 32u8, 99u8, 111u8, 110u8, 116u8, 114u8, 97u8, 99u8, 116u8, 58u8, 32u8, 48u8, 120u8]
}

/// Law: the contract address that a completed initialization records — the
/// deployed contract's 20 bytes as hexadecimal text — is a well-formed
/// configured address, and a later anchor or validation planned against it
/// decodes it back to exactly the deployed contract's bytes.
pub proof fn lemma_recorded_address_is_readable(ca: Seq<u8>)
    requires
        ca.len() == 20,
    ensures
        hex_pairs_ok(hex_of_bytes(ca)),
        hex_of_bytes(ca).len() == 40,
        bytes_of_hex(hex_of_bytes(ca)) == ca,
{
    let h = hex_of_bytes(ca);
    assert forall|i: int| 0 <= i < h.len() implies is_hex_digit(h[i]) by {
        assert(ca[i / 2] / 16 < 16 && ca[i / 2] % 16 < 16);
    }
    crate::hex::lemma_hex_round_trip(ca);
}

/// The warning to log when a confirmed anchor transaction was marked failed:
/// it names the transaction by its hash, in hexadecimal.
pub fn anchor_rejection_warning(transaction_hash: &Vec<u8>) -> (r: Vec<u8>)
    ensures
        r@ == warning_prefix() + hex_of_bytes(transaction_hash@),
{
    let mut out: Vec<u8> = vec![
        97, 110, 99, 104, 111, 114, 32, 116, 114, 97, 110, 115, 97, 99, 116, 105, 111, 110, 32,
        99, 97, 108, 108, 32, 102, 97, 105, 108, 101, 100, 58, 32,
    ];
    proof {
        assert(out@ =~= warning_prefix());
    }
    let h = hex_encode(transaction_hash.as_slice());
    append_bytes(&mut out, &h);
    out
}

/// The user-facing message for a rejected anchor: it names the contract by
/// its address, in hexadecimal.
pub fn anchor_failure_message(to: &Vec<u8>) -> (r: Vec<u8>)
    ensures
        r@ == failure_prefix() + hex_of_bytes(to@),
{
    let mut out: Vec<u8> = vec![
        117, 110, 97, 98, 108, 101, 32, 116, 111, 32, 97, 110, 99, 104, 111, 114, 32, 99, 111,
        109, 109, 105, 116, 32, 105, 110, 32, 99, 111, 110, 116, 114, 97, 99, 116, 58, 32, 48,
        120,
    ];
    proof {
        assert(out@ =~= failure_prefix());
    }
    let h = hex_encode(to.as_slice());
    append_bytes(&mut out, &h);
    out
}

} // verus!
