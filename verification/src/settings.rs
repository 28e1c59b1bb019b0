//! Layered configuration: a global document and a repository-scoped document,
//! merged field by field with the repository layer taking precedence.
//!
//! Text-valued fields are carried as raw bytes; the callers read and write the
//! surrounding files and hand the library their contents as plain values.

use crate::bytes::copy_bytes;
use vstd::prelude::*;

verus! {

/// Ledger-related settings of one configuration layer.
pub struct EthereumSettings {
    /// Hexadecimal text of the signing secret.
    pub private_key: Option<Vec<u8>>,
    /// URI of the ledger's request endpoint.
    pub rpc_target: Option<Vec<u8>>,
    /// Chain identifier that signatures are bound to.
    pub chain_id: Option<u64>,
}

/// Record of the deployed contract, present only after initialization.
pub struct ContractSettings {
    /// Hexadecimal text of the contract's 20-byte address.
    pub address: Vec<u8>,
    /// Hexadecimal text of the deployer's 20-byte account identifier.
    pub owner: Vec<u8>,
    /// The contract's ABI description, as JSON text.
    pub abi: Vec<u8>,
}

/// Diagnostic settings of one configuration layer.
pub struct LoggingSettings {
    /// Path of a datagram socket that receives log records.
    pub file: Option<Vec<u8>>,
}

/// One configuration layer, or the merged view of the two.
pub struct SettingsDoc {
    pub ethereum: Option<EthereumSettings>,
    pub logging: Option<LoggingSettings>,
    pub contract: Option<ContractSettings>,
}

/// The settings store: the repository layer as loaded, and the merged view
/// of the global and repository layers.
pub struct Settings {
    pub repository: SettingsDoc,
    pub merged: SettingsDoc,
}

/// Mathematical image of [`EthereumSettings`].
#[verifier::ext_equal]
pub struct EthereumView {
    pub private_key: Option<Seq<u8>>,
    pub rpc_target: Option<Seq<u8>>,
    pub chain_id: Option<u64>,
}

/// Mathematical image of [`ContractSettings`].
#[verifier::ext_equal]
pub struct ContractView {
    pub address: Seq<u8>,
    pub owner: Seq<u8>,
    pub abi: Seq<u8>,
}

/// Mathematical image of [`LoggingSettings`].
#[verifier::ext_equal]
pub struct LoggingView {
    pub file: Option<Seq<u8>>,
}

/// Mathematical image of [`SettingsDoc`].
#[verifier::ext_equal]
pub struct DocView {
    pub ethereum: Option<EthereumView>,
    pub logging: Option<LoggingView>,
    pub contract: Option<ContractView>,
}

/// Mathematical image of [`Settings`].
#[verifier::ext_equal]
pub struct SettingsView {
    pub repository: DocView,
    pub merged: DocView,
}

/// The image of an optional byte string.
pub open spec fn view_opt_bytes(o: Option<Vec<u8>>) -> Option<Seq<u8>> {
    match o {
        Some(v) => Some(v@),
        None => None,
    }
}

impl View for EthereumSettings {
    type V = EthereumView;

    open spec fn view(&self) -> EthereumView {
        EthereumView {
            private_key: view_opt_bytes(self.private_key),
            rpc_target: view_opt_bytes(self.rpc_target),
            chain_id: self.chain_id,
        }
    }
}

impl View for ContractSettings {
    type V = ContractView;

    open spec fn view(&self) -> ContractView {
        ContractView { address: self.address@, owner: self.owner@, abi: self.abi@ }
    }
}

impl View for LoggingSettings {
    type V = LoggingView;

    open spec fn view(&self) -> LoggingView {
        LoggingView { file: view_opt_bytes(self.file) }
    }
}

impl View for SettingsDoc {
    type V = DocView;

    open spec fn view(&self) -> DocView {
        DocView {
            ethereum: match self.ethereum {
                Some(e) => Some(e@),
                None => None,
            },
            logging: match self.logging {
                Some(l) => Some(l@),
                None => None,
            },
            contract: match self.contract {
                Some(c) => Some(c@),
                None => None,
            },
        }
    }
}

impl View for Settings {
    type V = SettingsView;

    open spec fn view(&self) -> SettingsView {
        SettingsView { repository: self.repository@, merged: self.merged@ }
    }
}

/// Relative path of the repository-scoped settings file, fixed with respect
/// to the repository root.
pub fn repository_config_file() -> (r: &'static str)
    ensures
        r@ == ".git-audit.json"@,
{
    ".git-audit.json"
}

/// A configuration error: a required field of the merged view is missing, or
/// a contract record was handed an ABI that is not JSON text.
#[derive(PartialEq, Eq, Structural, Clone, Copy, Debug)]
pub enum ConfigError {
    MissingPrivateKey,
    MissingRpcTarget,
    MissingChainId,
    MissingContract,
    MalformedAbi,
}

/// Whether a byte string is one well-formed JSON document; fixed by the JSON
/// grammar alone.
pub uninterp spec fn json_text_ok(s: Seq<u8>) -> bool;

/// Relies on serde_json's `from_slice::<Value>`: whether bytes parse as one
/// JSON document is a function of the bytes alone.
#[verifier::external_body]
fn is_json_text(b: &[u8]) -> (r: bool)
    ensures
        r == json_text_ok(b@),
{
    serde_json::from_slice::<serde_json::Value>(b).is_ok()
}

/// Merged value of one field: the repository layer's value where present,
/// else the global layer's.
pub open spec fn spec_merge_field<T>(g: Option<T>, r: Option<T>) -> Option<T> {
    if r is Some {
        r
    } else {
        g
    }
}

/// Field-by-field merge of the ledger sections of the two layers.
pub open spec fn spec_merge_ethereum(g: Option<EthereumView>, r: Option<EthereumView>) -> Option<
    EthereumView,
> {
    match (g, r) {
        (Option::None, re) => re,
        (ge, Option::None) => ge,
        (Option::Some(ge), Option::Some(re)) => Some(
            EthereumView {
                private_key: spec_merge_field(ge.private_key, re.private_key),
                rpc_target: spec_merge_field(ge.rpc_target, re.rpc_target),
                chain_id: spec_merge_field(ge.chain_id, re.chain_id),
            },
        ),
    }
}

/// Field-by-field merge of the diagnostic sections of the two layers.
pub open spec fn spec_merge_logging(g: Option<LoggingView>, r: Option<LoggingView>) -> Option<
    LoggingView,
> {
    match (g, r) {
        (Option::None, re) => re,
        (ge, Option::None) => ge,
        (Option::Some(ge), Option::Some(re)) => Some(
            LoggingView { file: spec_merge_field(ge.file, re.file) },
        ),
    }
}

/// Merge of whole documents: sections merge field by field; the contract
/// record, whose fields are required together, is taken from the repository
/// layer whenever it is present there.
pub open spec fn spec_merge_doc(g: DocView, r: DocView) -> DocView {
    DocView {
        ethereum: spec_merge_ethereum(g.ethereum, r.ethereum),
        logging: spec_merge_logging(g.logging, r.logging),
        contract: spec_merge_field(g.contract, r.contract),
    }
}

/// Copies an optional byte string.
fn copy_opt_bytes(v: &Option<Vec<u8>>) -> (r: Option<Vec<u8>>)
    ensures
        view_opt_bytes(r) == view_opt_bytes(*v),
{
    match v {
        Some(b) => Some(copy_bytes(b)),
        None => None,
    }
}

/// Merged value of one optional byte-string field.
fn merge_opt_bytes(g: &Option<Vec<u8>>, r: &Option<Vec<u8>>) -> (m: Option<Vec<u8>>)
    ensures
        view_opt_bytes(m) == spec_merge_field(view_opt_bytes(*g), view_opt_bytes(*r)),
{
    match r {
        Some(b) => Some(copy_bytes(b)),
        None => copy_opt_bytes(g),
    }
}

/// Merges the ledger sections of the two layers.
fn merge_ethereum(g: &Option<EthereumSettings>, r: &Option<EthereumSettings>) -> (m: Option<
    EthereumSettings,
>)
    ensures
        (match m {
            Some(e) => Some(e@),
            None => None,
        }) == spec_merge_ethereum(
            match *g {
                Some(e) => Some(e@),
                None => None,
            },
            match *r {
                Some(e) => Some(e@),
                None => None,
            },
        ),
{
    match (g, r) {
        (None, None) => None,
        (None, Some(re)) => Some(
            EthereumSettings {
                private_key: copy_opt_bytes(&re.private_key),
                rpc_target: copy_opt_bytes(&re.rpc_target),
                chain_id: re.chain_id,
            },
        ),
        (Some(ge), None) => Some(
            EthereumSettings {
                private_key: copy_opt_bytes(&ge.private_key),
                rpc_target: copy_opt_bytes(&ge.rpc_target),
                chain_id: ge.chain_id,
            },
        ),
        (Some(ge), Some(re)) => Some(
            EthereumSettings {
                private_key: merge_opt_bytes(&ge.private_key, &re.private_key),
                rpc_target: merge_opt_bytes(&ge.rpc_target, &re.rpc_target),
                chain_id: match re.chain_id {
                    Some(c) => Some(c),
                    None => ge.chain_id,
                },
            },
        ),
    }
}

/// Merges the diagnostic sections of the two layers.
fn merge_logging(g: &Option<LoggingSettings>, r: &Option<LoggingSettings>) -> (m: Option<
    LoggingSettings,
>)
    ensures
        (match m {
            Some(l) => Some(l@),
            None => None,
        }) == spec_merge_logging(
            match *g {
                Some(l) => Some(l@),
                None => None,
            },
            match *r {
                Some(l) => Some(l@),
                None => None,
            },
        ),
{
    match (g, r) {
        (None, None) => None,
        (None, Some(rl)) => Some(LoggingSettings { file: copy_opt_bytes(&rl.file) }),
        (Some(gl), None) => Some(LoggingSettings { file: copy_opt_bytes(&gl.file) }),
        (Some(gl), Some(rl)) => Some(LoggingSettings { file: merge_opt_bytes(&gl.file, &rl.file) }),
    }
}

/// Copies a contract record.
fn copy_contract(c: &ContractSettings) -> (r: ContractSettings)
    ensures
        r@ == c@,
{
    ContractSettings {
        address: copy_bytes(&c.address),
        owner: copy_bytes(&c.owner),
        abi: copy_bytes(&c.abi),
    }
}

/// Merges the contract records of the two layers.
fn merge_contract(g: &Option<ContractSettings>, r: &Option<ContractSettings>) -> (m: Option<
    ContractSettings,
>)
    ensures
        (match m {
            Some(c) => Some(c@),
            None => None,
        }) == spec_merge_field(
            match *g {
                Some(c) => Some(c@),
                None => None,
            },
            match *r {
                Some(c) => Some(c@),
                None => None,
            },
        ),
{
    match (g, r) {
        (_, Some(rc)) => Some(copy_contract(rc)),
        (Some(gc), None) => Some(copy_contract(gc)),
        (None, None) => None,
    }
}

/// Merges two whole documents, the repository layer taking precedence.
pub fn merge_docs(g: &SettingsDoc, r: &SettingsDoc) -> (m: SettingsDoc)
    ensures
        m@ == spec_merge_doc(g@, r@),
{
    let m = SettingsDoc {
        ethereum: merge_ethereum(&g.ethereum, &r.ethereum),
        logging: merge_logging(&g.logging, &r.logging),
        contract: merge_contract(&g.contract, &r.contract),
    };
    proof {
        assert(m@ =~= spec_merge_doc(g@, r@));
    }
    m
}

impl Settings {
    /// Builds the store from the two loaded layers: the repository layer is
    /// kept as given, and the merged view overrides the global layer with it
    /// field by field.
    pub fn new(global: SettingsDoc, repository: SettingsDoc) -> (r: Settings)
        ensures
            r@.repository == repository@,
            r@.merged == spec_merge_doc(global@, repository@),
    {
        let merged = merge_docs(&global, &repository);
        Settings { repository, merged }
    }

    /// The ledger endpoint of the merged view; a configuration error when absent.
    pub fn ethereum_rpc_target(&self) -> (r: Result<&Vec<u8>, ConfigError>)
        ensures
            r is Ok <==> (self@.merged.ethereum matches Some(e) && e.rpc_target is Some),
            r matches Ok(v) ==> self@.merged.ethereum matches Some(e) && e.rpc_target == Some(v@),
            r is Err ==> r == Err::<&Vec<u8>, ConfigError>(ConfigError::MissingRpcTarget),
    {
        match &self.merged.ethereum {
            Some(e) => match &e.rpc_target {
                Some(t) => Ok(t),
                None => Err(ConfigError::MissingRpcTarget),
            },
            None => Err(ConfigError::MissingRpcTarget),
        }
    }

    /// The signing secret's hexadecimal text in the merged view; a
    /// configuration error when absent.
    pub fn ethereum_private_key(&self) -> (r: Result<&Vec<u8>, ConfigError>)
        ensures
            r is Ok <==> (self@.merged.ethereum matches Some(e) && e.private_key is Some),
            r matches Ok(v) ==> self@.merged.ethereum matches Some(e) && e.private_key == Some(v@),
            r is Err ==> r == Err::<&Vec<u8>, ConfigError>(ConfigError::MissingPrivateKey),
    {
        match &self.merged.ethereum {
            Some(e) => match &e.private_key {
                Some(k) => Ok(k),
                None => Err(ConfigError::MissingPrivateKey),
            },
            None => Err(ConfigError::MissingPrivateKey),
        }
    }

    /// The chain identifier of the merged view; a configuration error when absent.
    pub fn ethereum_chain_id(&self) -> (r: Result<u64, ConfigError>)
        ensures
            r is Ok <==> (self@.merged.ethereum matches Some(e) && e.chain_id is Some),
            r matches Ok(c) ==> self@.merged.ethereum matches Some(e) && e.chain_id == Some(c),
            r is Err ==> r == Err::<u64, ConfigError>(ConfigError::MissingChainId),
    {
        match &self.merged.ethereum {
            Some(e) => match e.chain_id {
                Some(c) => Ok(c),
                None => Err(ConfigError::MissingChainId),
            },
            None => Err(ConfigError::MissingChainId),
        }
    }

    /// The recorded contract address of the merged view, when initialized.
    pub fn contract_address(&self) -> (r: Option<&Vec<u8>>)
        ensures
            r is Some <==> self@.merged.contract is Some,
            r matches Some(a) ==> self@.merged.contract matches Some(c) && c.address == a@,
    {
        match &self.merged.contract {
            Some(c) => Some(&c.address),
            None => None,
        }
    }

    /// The recorded contract owner of the merged view, when initialized.
    pub fn contract_owner(&self) -> (r: Option<&Vec<u8>>)
        ensures
            r is Some <==> self@.merged.contract is Some,
            r matches Some(o) ==> self@.merged.contract matches Some(c) && c.owner == o@,
    {
        match &self.merged.contract {
            Some(c) => Some(&c.owner),
            None => None,
        }
    }

    /// The recorded contract ABI of the merged view; a configuration error
    /// when the repository was never initialized.
    pub fn contract_abi_json(&self) -> (r: Result<&Vec<u8>, ConfigError>)
        ensures
            r is Ok <==> self@.merged.contract is Some,
            r matches Ok(a) ==> self@.merged.contract matches Some(c) && c.abi == a@,
            r is Err ==> r == Err::<&Vec<u8>, ConfigError>(ConfigError::MissingContract),
    {
        match &self.merged.contract {
            Some(c) => Ok(&c.abi),
            None => Err(ConfigError::MissingContract),
        }
    }

    /// The diagnostic socket path of the merged view, where configured.
    pub fn log_file_path(&self) -> (r: Option<&Vec<u8>>)
        ensures
            r is Some <==> (self@.merged.logging matches Some(l) && l.file is Some),
            r matches Some(f) ==> self@.merged.logging matches Some(l) && l.file == Some(f@),
    {
        match &self.merged.logging {
            Some(l) => match &l.file {
                Some(f) => Some(f),
                None => None,
            },
            None => None,
        }
    }

    /// Records the deployed contract in the repository layer and in the merged
    /// view; the global layer is untouched, and every other field keeps its
    /// value. An ABI that is not JSON text is refused and nothing changes: the
    /// record is later spliced verbatim into the persisted settings document,
    /// which must stay well-formed.
    pub fn set_contract(&mut self, address: &Vec<u8>, owner: &Vec<u8>, abi: &Vec<u8>) -> (r:
        Result<(), ConfigError>)
        ensures
            r is Ok <==> json_text_ok(abi@),
            r is Err ==> r == Err::<(), ConfigError>(ConfigError::MalformedAbi) && final(self)@
                == old(self)@,
            r is Ok ==> final(self)@.repository == (DocView {
                contract: Some(ContractView { address: address@, owner: owner@, abi: abi@ }),
                ..old(self)@.repository
            }),
            r is Ok ==> final(self)@.merged == (DocView {
                contract: Some(ContractView { address: address@, owner: owner@, abi: abi@ }),
                ..old(self)@.merged
            }),
    {
        if !is_json_text(abi.as_slice()) {
            return Err(ConfigError::MalformedAbi);
        }
        self.repository.contract = Some(
            ContractSettings {
                address: copy_bytes(address),
                owner: copy_bytes(owner),
                abi: copy_bytes(abi),
            },
        );
        self.merged.contract = Some(
            ContractSettings {
                address: copy_bytes(address),
                owner: copy_bytes(owner),
                abi: copy_bytes(abi),
            },
        );
        proof {
            assert(final(self)@.repository =~= (DocView {
                contract: Some(ContractView { address: address@, owner: owner@, abi: abi@ }),
                ..old(self)@.repository
            }));
            assert(final(self)@.merged =~= (DocView {
                contract: Some(ContractView { address: address@, owner: owner@, abi: abi@ }),
                ..old(self)@.merged
            }));
        }
        Ok(())
    }
}

/// Law: the merged view takes every field from the repository layer where the
/// repository layer has it, and from the global layer otherwise.
pub proof fn lemma_merge_overrides(g: DocView, r: DocView)
    ensures
        (r.ethereum matches Some(re) && re.private_key is Some) ==> (spec_merge_doc(g, r).ethereum
            matches Some(e) && e.private_key == r.ethereum.unwrap().private_key),
        (r.ethereum matches Some(re) && re.rpc_target is Some) ==> (spec_merge_doc(g, r).ethereum
            matches Some(e) && e.rpc_target == r.ethereum.unwrap().rpc_target),
        (r.ethereum matches Some(re) && re.chain_id is Some) ==> (spec_merge_doc(g, r).ethereum
            matches Some(e) && e.chain_id == r.ethereum.unwrap().chain_id),
        (g.ethereum matches Some(ge) && ge.private_key is Some && (r.ethereum matches Some(re)
            ==> re.private_key is None)) ==> (spec_merge_doc(g, r).ethereum matches Some(e)
            && e.private_key == g.ethereum.unwrap().private_key),
        (g.ethereum matches Some(ge) && ge.rpc_target is Some && (r.ethereum matches Some(re)
            ==> re.rpc_target is None)) ==> (spec_merge_doc(g, r).ethereum matches Some(e)
            && e.rpc_target == g.ethereum.unwrap().rpc_target),
        (g.ethereum matches Some(ge) && ge.chain_id is Some && (r.ethereum matches Some(re)
            ==> re.chain_id is None)) ==> (spec_merge_doc(g, r).ethereum matches Some(e)
            && e.chain_id == g.ethereum.unwrap().chain_id),
        (r.logging matches Some(rl) && rl.file is Some) ==> (spec_merge_doc(g, r).logging
            matches Some(l) && l.file == r.logging.unwrap().file),
        (g.logging matches Some(gl) && gl.file is Some && (r.logging matches Some(rl)
            ==> rl.file is None)) ==> (spec_merge_doc(g, r).logging matches Some(l)
            && l.file == g.logging.unwrap().file),
        r.contract is Some ==> spec_merge_doc(g, r).contract == r.contract,
        r.contract is None ==> spec_merge_doc(g, r).contract == g.contract,
{
}

} // verus!
