//! Assembly and signing of ledger transactions.
//!
//! A transaction is built fresh for each call and signed once, bound to the
//! configured chain identifier. The gas-limit policy is asymmetric on
//! purpose: a contract creation uses a conservative fixed floor — the
//! intrinsic transaction cost, a creation surcharge, a per-byte cost of the
//! deployed code and a safety margin — because estimation is unreliable
//! before the code exists on-chain, while a contract call uses the ledger's
//! just-obtained estimate directly, with no margin.

use crate::settings::view_opt_bytes;
use vstd::prelude::*;

verus! {

/// Intrinsic cost of any transaction.
pub const INTRINSIC_GAS: u128 = 21000;

/// Surcharge of a contract-creation transaction.
pub const CREATION_GAS: u128 = 32000;

/// Cost per byte of deployed code.
pub const CODE_BYTE_GAS: u128 = 68;

/// Safety margin on top of the computed creation floor.
pub const CREATION_GAS_MARGIN: u128 = 123757;

/// The widest chain identifier a transaction can be signed for: the signing
/// library computes the replay-protected recovery value `2·chain + 35` plus
/// the recovery id in 64 bits, so wider identifiers would overflow it.
pub const MAX_CHAIN_ID: u64 = 0x7fff_ffff_ffff_ffdc;

/// An unsigned transaction: constructed fresh per call, signed once, never
/// mutated after signing.
pub struct UnsignedTransaction {
    /// The sender's transaction count at submission time.
    pub nonce: u128,
    /// The 20-byte recipient; absent for a contract creation.
    pub to: Option<Vec<u8>>,
    /// The transferred value.
    pub value: u128,
    /// The gas price the sender offers.
    pub gas_price: u128,
    /// The gas limit.
    pub gas: u128,
    /// The call payload, or the code to deploy.
    pub data: Vec<u8>,
}

/// Mathematical image of [`UnsignedTransaction`].
#[verifier::ext_equal]
pub struct TransactionView {
    pub nonce: u128,
    pub to: Option<Seq<u8>>,
    pub value: u128,
    pub gas_price: u128,
    pub gas: u128,
    pub data: Seq<u8>,
}

impl View for UnsignedTransaction {
    type V = TransactionView;

    open spec fn view(&self) -> TransactionView {
        TransactionView {
            nonce: self.nonce,
            to: view_opt_bytes(self.to),
            value: self.value,
            gas_price: self.gas_price,
            gas: self.gas,
            data: self.data@,
        }
    }
}

/// The fixed gas floor of a contract creation deploying `code_len` bytes.
pub open spec fn spec_deploy_gas_limit(code_len: nat) -> nat {
    (INTRINSIC_GAS + CREATION_GAS + CODE_BYTE_GAS * code_len + CREATION_GAS_MARGIN) as nat
}

/// Computes the fixed gas floor of a contract creation.
pub fn deploy_gas_limit(code_len: usize) -> (r: u128)
    ensures
        r == spec_deploy_gas_limit(code_len as nat),
{
    let len = code_len as u128;
    proof {
        assert(len <= 0xffff_ffff_ffff_ffffu128);
        assert(CODE_BYTE_GAS * len <= CODE_BYTE_GAS * 0xffff_ffff_ffff_ffffu128)
            by (nonlinear_arith)
            requires
                len <= 0xffff_ffff_ffff_ffffu128,
        ;
    }
    INTRINSIC_GAS + CREATION_GAS + CODE_BYTE_GAS * len + CREATION_GAS_MARGIN
}

/// Assembles an unsigned transaction from its parts.
pub fn build_transaction(
    nonce: u128,
    to: Option<Vec<u8>>,
    value: u128,
    gas_price: u128,
    gas: u128,
    data: Vec<u8>,
) -> (tx: UnsignedTransaction)
    ensures
        tx@ == (TransactionView {
            nonce,
            to: view_opt_bytes(to),
            value,
            gas_price,
            gas,
            data: data@,
        }),
{
    UnsignedTransaction { nonce, to, value, gas_price, gas, data }
}

/// Assembles the contract-creation transaction: no recipient, no value, and
/// the fixed gas floor computed from the code's length.
pub fn build_deploy_transaction(nonce: u128, gas_price: u128, code: Vec<u8>) -> (tx:
    UnsignedTransaction)
    ensures
        tx@ == (TransactionView {
            nonce,
            to: None,
            value: 0,
            gas_price,
            gas: spec_deploy_gas_limit(code@.len()) as u128,
            data: code@,
        }),
{
    let gas = deploy_gas_limit(code.len());
    UnsignedTransaction { nonce, to: None, value: 0, gas_price, gas, data: code }
}

/// Assembles a contract-call transaction: no value, and the ledger's gas
/// estimate used directly, with no margin.
pub fn build_call_transaction(
    nonce: u128,
    to: Vec<u8>,
    gas_price: u128,
    gas_estimate: u128,
    data: Vec<u8>,
) -> (tx: UnsignedTransaction)
    ensures
        tx@ == (TransactionView {
            nonce,
            to: Some(to@),
            value: 0,
            gas_price,
            gas: gas_estimate,
            data: data@,
        }),
{
    UnsignedTransaction { nonce, to: Some(to), value: 0, gas_price, gas: gas_estimate, data }
}

/// The wire bytes of the transaction signed for the given chain with the
/// given 32-byte secret; deterministic — a function of these alone.
pub uninterp spec fn signed_legacy_tx(chain_id: u64, tx: TransactionView, secret: Seq<u8>) -> Seq<
    u8,
>;

#[verifier::external_type_specification]
#[verifier::external_body]
/// Rejection of a signing attempt by the transaction-signing library.
pub struct ExTxSignError(ethereum_tx_sign::Error);

/// Relies on ethereum_tx_sign: `LegacyTransaction::ecdsa` computes the
/// deterministic (RFC 6979), chain-bound ECDSA signature of the transaction's
/// hash, and fails exactly when the curve rejects the secret — 32 bytes,
/// nonzero, below the group order; `Transaction::sign` encodes the fields
/// with that signature. The wire bytes are a function of the chain
/// identifier, the fields and the secret alone. The chain-identifier bound
/// keeps the library's 64-bit recovery value `2·chain + 35` plus the
/// recovery id from overflowing.
#[verifier::external_body]
fn sign_legacy(tx: &UnsignedTransaction, chain_id: u64, secret: &[u8]) -> (r: Result<
    Vec<u8>,
    ethereum_tx_sign::Error,
>)
    requires
        tx.to matches Some(a) ==> a@.len() == 20,
        chain_id <= MAX_CHAIN_ID,
    ensures
        r is Ok <==> (secret@.len() == 32 && crate::keys::secp_accepts(secret@)),
        r matches Ok(bytes) ==> bytes@ == signed_legacy_tx(chain_id, tx@, secret@),
{
    let to = match &tx.to {
        Some(a) => { let mut buf = [0u8; 20]; buf.copy_from_slice(a.as_slice()); Some(buf) },
        None => None,
    };
    let raw = ethereum_tx_sign::LegacyTransaction {
        chain: chain_id, nonce: tx.nonce, to, value: tx.value,
        gas_price: tx.gas_price, gas: tx.gas, data: tx.data.clone(),
    };
    let ecdsa = ethereum_tx_sign::Transaction::ecdsa(&raw, secret)?;
    Ok(ethereum_tx_sign::Transaction::sign(&raw, &ecdsa))
}

/// Rejection of a signing attempt.
#[derive(PartialEq, Eq, Structural, Clone, Copy, Debug)]
pub enum SignError {
    /// The curve rejected the secret.
    Rejected,
}

/// Signs an unsigned transaction for the given chain; the result is the
/// deterministic wire encoding, ready for submission. Succeeds exactly when
/// the curve accepts the secret. The chain identifier must stay within
/// [`MAX_CHAIN_ID`], the widest the signing library can bind replay
/// protection to.
pub fn sign_transaction(tx: &UnsignedTransaction, chain_id: u64, secret: &Vec<u8>) -> (r: Result<
    Vec<u8>,
    SignError,
>)
    requires
        tx.to matches Some(a) ==> a@.len() == 20,
        chain_id <= MAX_CHAIN_ID,
    ensures
        r is Ok <==> (secret@.len() == 32 && crate::keys::secp_accepts(secret@)),
        r matches Ok(bytes) ==> bytes@ == signed_legacy_tx(chain_id, tx@, secret@),
        r is Err ==> r == Err::<Vec<u8>, SignError>(SignError::Rejected),
{
    match sign_legacy(tx, chain_id, secret.as_slice()) {
        Ok(bytes) => Ok(bytes),
        Err(_) => Err(SignError::Rejected),
    }
}

} // verus!
