use git_audit::transaction::{
    build_call_transaction, build_deploy_transaction, build_transaction, deploy_gas_limit,
    sign_transaction, SignError, UnsignedTransaction, MAX_CHAIN_ID,
};

#[test]
fn deploy_gas_limit_formula() {
    // intrinsic cost, creation surcharge, 68 per code byte, fixed margin
    assert_eq!(deploy_gas_limit(0), 21000 + 32000 + 123757);
    assert_eq!(deploy_gas_limit(100), 21000 + 32000 + 6800 + 123757);
}

#[test]
fn deploy_transaction_has_no_recipient_and_fixed_gas() {
    let code = vec![0xfe; 10];
    let tx = build_deploy_transaction(3, 1_000_000_000, code.clone());
    assert_eq!(tx.nonce, 3);
    assert!(tx.to.is_none());
    assert_eq!(tx.value, 0);
    assert_eq!(tx.gas_price, 1_000_000_000);
    assert_eq!(tx.gas, 21000 + 32000 + 680 + 123757);
    assert_eq!(tx.data, code);
}

#[test]
fn call_transaction_uses_estimate_directly() {
    let tx = build_call_transaction(9, vec![0x45; 20], 77, 31415, vec![1, 2, 3]);
    assert_eq!(tx.nonce, 9);
    assert_eq!(tx.to.as_deref(), Some(&[0x45; 20][..]));
    assert_eq!(tx.value, 0);
    assert_eq!(tx.gas_price, 77);
    assert_eq!(tx.gas, 31415);
    assert_eq!(tx.data, vec![1, 2, 3]);
}

#[test]
fn build_transaction_keeps_every_field() {
    let tx = build_transaction(1, Some(vec![2; 20]), 3, 4, 5, vec![6]);
    assert_eq!(tx.nonce, 1);
    assert_eq!(tx.to, Some(vec![2; 20]));
    assert_eq!(tx.value, 3);
    assert_eq!(tx.gas_price, 4);
    assert_eq!(tx.gas, 5);
    assert_eq!(tx.data, vec![6]);
}

fn sample_transaction() -> UnsignedTransaction {
    build_transaction(
        0,
        Some(vec![0x45; 20]),
        1000,
        20 * 10u128.pow(9),
        21000,
        vec![],
    )
}

#[test]
fn signing_matches_the_signing_library() {
    let secret = vec![0x35u8; 32];
    let signed = sign_transaction(&sample_transaction(), 1, &secret).unwrap();
    let raw = ethereum_tx_sign::LegacyTransaction {
        chain: 1,
        nonce: 0,
        to: Some([0x45; 20]),
        value: 1000,
        gas_price: 20 * 10u128.pow(9),
        gas: 21000,
        data: vec![],
    };
    let ecdsa = ethereum_tx_sign::Transaction::ecdsa(&raw, &secret).unwrap();
    let expected = ethereum_tx_sign::Transaction::sign(&raw, &ecdsa);
    assert_eq!(signed, expected);
}

#[test]
fn signing_is_deterministic() {
    let secret = vec![0x35u8; 32];
    let first = sign_transaction(&sample_transaction(), 5, &secret).unwrap();
    let second = sign_transaction(&sample_transaction(), 5, &secret).unwrap();
    assert_eq!(first, second);
    assert!(!first.is_empty());
}

#[test]
fn signing_binds_the_chain_id() {
    let secret = vec![0x35u8; 32];
    let for_one = sign_transaction(&sample_transaction(), 1, &secret).unwrap();
    let for_two = sign_transaction(&sample_transaction(), 2, &secret).unwrap();
    assert_ne!(for_one, for_two);
}

#[test]
fn signing_at_the_widest_admitted_chain_id() {
    // the replay-protection value 2·chain + 35 plus the recovery id still
    // fits 64 bits at the bound
    let secret = vec![0x35u8; 32];
    let signed = sign_transaction(&sample_transaction(), MAX_CHAIN_ID, &secret).unwrap();
    assert!(!signed.is_empty());
}

#[test]
fn signing_rejects_an_invalid_secret() {
    let zeros = vec![0u8; 32];
    assert_eq!(
        sign_transaction(&sample_transaction(), 1, &zeros).unwrap_err(),
        SignError::Rejected
    );
}
