use git_audit::hex::hex_encode;
use git_audit::reconcile::reconcile;
use git_audit::settings::{
    ConfigError, ContractSettings, EthereumSettings, Settings, SettingsDoc,
};
use git_audit::workflow::{
    anchor_failure_message, anchor_rejection_warning, classify_receipt_status,
    complete_initialization, plan_anchor, plan_initialization, plan_validation,
    receipt_exit_code, refusal_exit_code, validation_exit_code, Receipt, ReceiptOutcome,
    WorkflowError,
};

const ABI_JSON: &str = "[{\"type\":\"function\",\"name\":\"anchor\",\
\"inputs\":[{\"name\":\"commit\",\"type\":\"uint256\"}],\"outputs\":[]},\
{\"type\":\"function\",\"name\":\"commits\",\"inputs\":[],\
\"outputs\":[{\"name\":\"\",\"type\":\"uint256[]\"}]}]";

const SECRET_HEX: &[u8] =
    b"0000000000000000000000000000000000000000000000000000000000000001";

fn empty_doc() -> SettingsDoc {
    SettingsDoc { ethereum: None, logging: None, contract: None }
}

fn configured(with_contract: bool) -> Settings {
    let contract = if with_contract {
        Some(ContractSettings {
            address: b"00112233445566778899aabbccddeeff00112233".to_vec(),
            owner: b"7e5f4552091a69125d5dfcb7b8c2659029395bdf".to_vec(),
            abi: ABI_JSON.as_bytes().to_vec(),
        })
    } else {
        None
    };
    let global = SettingsDoc {
        ethereum: Some(EthereumSettings {
            private_key: Some(SECRET_HEX.to_vec()),
            rpc_target: Some(b"http://localhost:8545".to_vec()),
            chain_id: Some(5),
        }),
        logging: None,
        contract: None,
    };
    let repository = SettingsDoc { ethereum: None, logging: None, contract };
    Settings::new(global, repository)
}

#[test]
fn initialization_refused_when_already_initialized() {
    let s = configured(true);
    assert_eq!(
        plan_initialization(&s).unwrap_err(),
        WorkflowError::AlreadyInitialized
    );
}

#[test]
fn initialization_plan_carries_identity_and_chain() {
    let s = configured(false);
    let plan = plan_initialization(&s).unwrap();
    assert_eq!(plan.chain_id, 5);
    assert_eq!(plan.identity.account.len(), 20);
    assert_eq!(plan.identity.secret.len(), 32);
}

#[test]
fn initialization_requires_a_private_key() {
    let s = Settings::new(empty_doc(), empty_doc());
    assert_eq!(
        plan_initialization(&s).unwrap_err(),
        WorkflowError::Config(ConfigError::MissingPrivateKey)
    );
}

#[test]
fn initialization_rejects_a_malformed_secret() {
    let global = SettingsDoc {
        ethereum: Some(EthereumSettings {
            private_key: Some(b"not hex".to_vec()),
            rpc_target: None,
            chain_id: Some(5),
        }),
        logging: None,
        contract: None,
    };
    let s = Settings::new(global, empty_doc());
    assert_eq!(
        plan_initialization(&s).unwrap_err(),
        WorkflowError::Key(git_audit::keys::KeyError::MalformedHex)
    );
}

#[test]
fn anchor_plan_reports_an_abi_without_the_anchor_function() {
    let mut s = configured(true);
    s.merged.contract.as_mut().unwrap().abi =
        b"[{\"type\":\"function\",\"name\":\"other\",\"inputs\":[],\"outputs\":[]}]".to_vec();
    assert_eq!(
        plan_anchor(&s, &vec![1u8; 32]).unwrap_err(),
        WorkflowError::Abi(git_audit::abi::AbiError::Encoding)
    );
}

#[test]
fn anchor_against_uninitialized_repository_is_refused() {
    // refused before any ledger request: no plan means nothing to submit
    let s = configured(false);
    assert_eq!(
        plan_anchor(&s, &vec![9u8; 32]).unwrap_err(),
        WorkflowError::NotInitialized
    );
}

#[test]
fn anchor_plan_addresses_the_configured_contract() {
    let s = configured(true);
    let tip = vec![0xabu8; 32];
    let plan = plan_anchor(&s, &tip).unwrap();
    assert_eq!(
        plan.to,
        git_audit::hex::hex_decode(b"00112233445566778899aabbccddeeff00112233").unwrap()
    );
    assert_eq!(plan.data.len(), 36);
    assert_eq!(&plan.data[4..36], tip.as_slice());
    assert_eq!(plan.chain_id, 5);
}

#[test]
fn anchor_plan_rejects_a_malformed_contract_address() {
    let mut s = configured(true);
    s.merged.contract.as_mut().unwrap().address = b"nonsense".to_vec();
    assert_eq!(
        plan_anchor(&s, &vec![1u8; 32]).unwrap_err(),
        WorkflowError::BadContractAddress
    );
}

#[test]
fn validation_against_uninitialized_repository_is_refused() {
    let s = configured(false);
    assert_eq!(plan_validation(&s).unwrap_err(), WorkflowError::NotInitialized);
}

#[test]
fn validation_plan_holds_the_commits_call() {
    let s = configured(true);
    let plan = plan_validation(&s).unwrap();
    assert_eq!(plan.to.len(), 20);
    assert_eq!(plan.data.len(), 4);
}

#[test]
fn completing_initialization_records_the_contract() {
    let mut s = configured(false);
    let receipt = Receipt {
        status: Some(1),
        contract_address: Some(vec![0xcd; 20]),
        transaction_hash: vec![0x11; 32],
    };
    let deployer = vec![0xef; 20];
    complete_initialization(&mut s, &receipt, &deployer, &ABI_JSON.as_bytes().to_vec())
        .unwrap();
    assert_eq!(s.contract_address().unwrap(), &hex_encode(&[0xcd; 20]));
    assert_eq!(s.contract_owner().unwrap(), &hex_encode(&[0xef; 20]));
    assert_eq!(s.contract_abi_json().unwrap(), &ABI_JSON.as_bytes().to_vec());
    let repo = s.repository.contract.as_ref().unwrap();
    assert_eq!(repo.address, hex_encode(&[0xcd; 20]));
}

#[test]
fn completing_initialization_without_an_address_changes_nothing() {
    let mut s = configured(false);
    let receipt = Receipt {
        status: Some(1),
        contract_address: None,
        transaction_hash: vec![0x11; 32],
    };
    assert_eq!(
        complete_initialization(&mut s, &receipt, &vec![0xef; 20], &b"[]".to_vec())
            .unwrap_err(),
        WorkflowError::ReceiptWithoutContractAddress
    );
    assert!(s.contract_address().is_none());
    assert!(s.repository.contract.is_none());
}

#[test]
fn completing_initialization_rejects_a_malformed_abi() {
    let mut s = configured(false);
    let receipt = Receipt {
        status: Some(1),
        contract_address: Some(vec![0xcd; 20]),
        transaction_hash: vec![0x11; 32],
    };
    assert_eq!(
        complete_initialization(&mut s, &receipt, &vec![0xef; 20], &b"not json".to_vec())
            .unwrap_err(),
        WorkflowError::Config(ConfigError::MalformedAbi)
    );
    assert!(s.contract_address().is_none());
    assert!(s.repository.contract.is_none());
}

#[test]
fn receipt_success_exits_zero() {
    let outcome = classify_receipt_status(Some(1));
    assert_eq!(outcome, ReceiptOutcome::Confirmed);
    assert_eq!(receipt_exit_code(outcome), Some(0));
}

#[test]
fn receipt_failure_exits_one_and_warns_with_the_hash() {
    let outcome = classify_receipt_status(Some(0));
    assert_eq!(outcome, ReceiptOutcome::Rejected);
    assert_eq!(receipt_exit_code(outcome), Some(1));
    let hash = vec![0x5au8; 32];
    let warning = anchor_rejection_warning(&hash);
    let text = String::from_utf8(warning).unwrap();
    assert!(text.starts_with("anchor transaction call failed: "));
    assert!(text.ends_with(&String::from_utf8(hex_encode(&hash)).unwrap()));
}

#[test]
fn receipt_without_status_is_a_fatal_inconsistency() {
    assert_eq!(classify_receipt_status(None), ReceiptOutcome::Inconsistent);
    assert_eq!(classify_receipt_status(Some(2)), ReceiptOutcome::Inconsistent);
    // no exit code at all: the caller must abort, never report success
    assert_eq!(receipt_exit_code(ReceiptOutcome::Inconsistent), None);
}

#[test]
fn anchor_failure_message_names_the_contract() {
    let to = vec![0x01u8; 20];
    let text = String::from_utf8(anchor_failure_message(&to)).unwrap();
    assert_eq!(
        text,
        format!(
            "unable to anchor commit in contract: 0x{}",
            String::from_utf8(hex_encode(&to)).unwrap()
        )
    );
}

#[test]
fn reconcile_counts_and_reports_missing_entries() {
    let a = vec![0xaa; 32];
    let b = vec![0xbb; 32];
    let c = vec![0xcc; 32];
    let d = vec![0xdd; 32];
    let onchain = vec![a.clone(), b.clone(), c.clone()];
    let local = vec![a, c, d];
    let report = reconcile(&onchain, &local);
    assert_eq!(report.good, 2);
    assert_eq!(report.bad, 1);
    assert_eq!(report.missing, vec![b]);
}

#[test]
fn reconcile_of_empty_onchain_set_is_clean() {
    let report = reconcile(&vec![], &vec![vec![1u8; 32]]);
    assert_eq!(report.good, 0);
    assert_eq!(report.bad, 0);
    assert!(report.missing.is_empty());
}

#[test]
fn refusal_exit_codes() {
    // the two reported refusals exit one; everything else is an abort
    assert_eq!(refusal_exit_code(WorkflowError::NotInitialized), Some(1));
    assert_eq!(refusal_exit_code(WorkflowError::AlreadyInitialized), Some(1));
    assert_eq!(refusal_exit_code(WorkflowError::BadContractAddress), None);
    assert_eq!(
        refusal_exit_code(WorkflowError::Config(ConfigError::MissingChainId)),
        None
    );
}

#[test]
fn validation_exit_codes() {
    assert_eq!(validation_exit_code(0), 0);
    assert_eq!(validation_exit_code(1), 1);
    assert_eq!(validation_exit_code(7), 1);
}
