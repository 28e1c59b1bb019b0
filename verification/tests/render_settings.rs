use git_audit::render::StoreError;
use git_audit::settings::{
    ContractSettings, EthereumSettings, LoggingSettings, Settings, SettingsDoc,
};

fn empty_doc() -> SettingsDoc {
    SettingsDoc { ethereum: None, logging: None, contract: None }
}

fn settings_with_repository(repository: SettingsDoc) -> Settings {
    Settings::new(empty_doc(), repository)
}

#[test]
fn render_empty_repository_layer() {
    let s = settings_with_repository(empty_doc());
    let content = s.write_repository_settings(false).unwrap();
    assert_eq!(content, b"{\"contract\":null}".to_vec());
}

#[test]
fn render_full_repository_layer() {
    let repository = SettingsDoc {
        ethereum: Some(EthereumSettings {
            private_key: Some(b"deadbeef".to_vec()),
            rpc_target: Some(b"http://localhost:8545".to_vec()),
            chain_id: Some(42),
        }),
        logging: Some(LoggingSettings { file: Some(b"/var/run/log.sock".to_vec()) }),
        contract: Some(ContractSettings {
            address: b"00aa".to_vec(),
            owner: b"11bb".to_vec(),
            abi: b"[{\"x\":1}]".to_vec(),
        }),
    };
    let s = settings_with_repository(repository);
    let content = s.write_repository_settings(false).unwrap();
    // the private key is never written; the ABI is spliced in verbatim
    let expected = "{\"ethereum\":{\"rpc_target\":\"http://localhost:8545\",\"chain_id\":42},\
\"logging\":{\"file\":\"/var/run/log.sock\"},\
\"contract\":{\"address\":\"00aa\",\"owner\":\"11bb\",\"abi\":[{\"x\":1}]}}";
    assert_eq!(String::from_utf8(content).unwrap(), expected);
}

#[test]
fn render_skips_absent_optional_fields() {
    let repository = SettingsDoc {
        ethereum: Some(EthereumSettings {
            private_key: None,
            rpc_target: None,
            chain_id: Some(5),
        }),
        logging: Some(LoggingSettings { file: None }),
        contract: None,
    };
    let s = settings_with_repository(repository);
    let content = s.write_repository_settings(false).unwrap();
    assert_eq!(
        String::from_utf8(content).unwrap(),
        "{\"ethereum\":{\"chain_id\":5},\"logging\":{},\"contract\":null}"
    );
}

#[test]
fn render_escapes_string_contents() {
    let repository = SettingsDoc {
        ethereum: Some(EthereumSettings {
            private_key: None,
            rpc_target: Some(b"a\"b\\c\nd\x01e".to_vec()),
            chain_id: None,
        }),
        logging: None,
        contract: None,
    };
    let s = settings_with_repository(repository);
    let content = s.write_repository_settings(false).unwrap();
    assert_eq!(
        String::from_utf8(content).unwrap(),
        "{\"ethereum\":{\"rpc_target\":\"a\\\"b\\\\c\\nd\\u0001e\"},\"contract\":null}"
    );
}

#[test]
fn render_output_is_what_serde_reads_back() {
    let repository = SettingsDoc {
        ethereum: Some(EthereumSettings {
            private_key: None,
            rpc_target: Some(b"http://x".to_vec()),
            chain_id: Some(250),
        }),
        logging: None,
        contract: Some(ContractSettings {
            address: b"ab".to_vec(),
            owner: b"cd".to_vec(),
            abi: b"[]".to_vec(),
        }),
    };
    let s = settings_with_repository(repository);
    let content = s.write_repository_settings(false).unwrap();
    let value: serde_json::Value = serde_json::from_slice(&content).unwrap();
    assert_eq!(value["ethereum"]["rpc_target"].as_str().unwrap(), "http://x");
    assert_eq!(value["ethereum"]["chain_id"].as_u64().unwrap(), 250);
    assert_eq!(value["contract"]["address"].as_str().unwrap(), "ab");
    assert_eq!(value["contract"]["abi"].as_array().unwrap().len(), 0);
}

#[test]
fn write_repository_settings_is_write_once() {
    let s = settings_with_repository(empty_doc());
    // first write: the target does not exist yet, content is handed out
    let first = s.write_repository_settings(false);
    assert!(first.is_ok());
    // second write against the same, now existing, target: refused, and no
    // content comes back that could overwrite the first write
    let second = s.write_repository_settings(true);
    assert_eq!(second.unwrap_err(), StoreError::RepositorySettingsExist);
}
