//! Rendering of the repository settings document as JSON text.
//!
//! The repository layer is persisted as a compact JSON document: sections in
//! declaration order, absent optional fields left out, the signing secret
//! never written, the contract record spliced in verbatim where its ABI
//! already is JSON text. The spec functions here fix the output byte by byte.

use crate::bytes::append_bytes;
use crate::hex::hex_digit_of;
use crate::settings::{ContractView, DocView, EthereumView, LoggingView, Settings};
use vstd::prelude::*;

verus! {

/// The expansion of one byte inside a JSON string literal: quote and backslash
/// get a two-character escape, as do backspace, tab, line feed, form feed and
/// carriage return; any other control byte becomes a six-character `\u00..`
/// escape with lower-case digits; everything else stands for itself.
pub open spec fn escaped_byte(b: u8) -> Seq<u8> {
    if b == 34 {
        seq![92u8, 34u8]
    } else if b == 92 {
        seq![92u8, 92u8]
    } else if b == 8 {
        seq![92u8, 98u8]
    } else if b == 9 {
        seq![92u8, 116u8]
    } else if b == 10 {
        seq![92u8, 110u8]
    } else if b == 12 {
        seq![92u8, 102u8]
    } else if b == 13 {
        seq![92u8, 114u8]
    } else if b < 32 {
        seq![92u8, 117u8, 48u8, 48u8, hex_digit_of(b / 16), hex_digit_of(b % 16)]
    } else {
        seq![b]
    }
}

/// A byte string with every byte expanded for a JSON string literal.
pub open spec fn json_escaped(s: Seq<u8>) -> Seq<u8>
    decreases s.len(),
{
    if s.len() == 0 {
        Seq::empty()
    } else {
        json_escaped(s.drop_last()) + escaped_byte(s.last())
    }
}

/// A JSON string literal: the escaped bytes between quotes.
pub open spec fn json_string(s: Seq<u8>) -> Seq<u8> {
    seq![34u8] + json_escaped(s) + seq![34u8]
}

/// The decimal digits of an unsigned integer, most significant first.
pub open spec fn dec_digits(n: nat) -> Seq<u8>
    decreases n,
{
    if n < 10 {
        seq![(48 + n) as u8]
    } else {
        dec_digits(n / 10) + seq![(48 + n % 10) as u8]
    }
}

/// The bytes of `"ethereum":`.
pub open spec fn key_ethereum() -> Seq<u8> {
    seq![34u8, 101u8, 116u8, 104u8, 101u8, 114u8, 101u8, 117u8, 109u8, 34u8, 58u8]
}

/// The bytes of `"logging":`.
pub open spec fn key_logging() -> Seq<u8> {
    seq![34u8, 108u8, 111u8, 103u8, 103u8, 105u8, 110u8, 103u8, 34u8, 58u8]
}

/// The bytes of `"contract":`.
pub open spec fn key_contract() -> Seq<u8> {
    seq![34u8, 99u8, 111u8, 110u8, 116u8, 114u8, 97u8, 99u8, 116u8, 34u8, 58u8]
}

/// The bytes of `"rpc_target":`.
pub open spec fn key_rpc_target() -> Seq<u8> {
    seq![34u8, 114u8, 112u8, 99u8, 95u8, 116u8, 97u8, 114u8, 103u8, 101u8, 116u8, 34u8, 58u8]
}

/// The bytes of `"chain_id":`.
pub open spec fn key_chain_id() -> Seq<u8> {
    seq![34u8, 99u8, 104u8, 97u8, 105u8, 110u8, 95u8, 105u8, 100u8, 34u8, 58u8]
}

/// The bytes of `"file":`.
pub open spec fn key_file() -> Seq<u8> {
    seq![34u8, 102u8, 105u8, 108u8, 101u8, 34u8, 58u8]
}

/// The bytes of `"address":`.
pub open spec fn key_address() -> Seq<u8> {
    seq![34u8, 97u8, 100u8, 100u8, 114u8, 101u8, 115u8, 115u8, 34u8, 58u8]
}

/// The bytes of `"owner":`.
pub open spec fn key_owner() -> Seq<u8> {
    seq![34u8, 111u8, 119u8, 110u8, 101u8, 114u8, 34u8, 58u8]
}

/// The bytes of `"abi":`.
pub open spec fn key_abi() -> Seq<u8> {
    seq![34u8, 97u8, 98u8, 105u8, 34u8, 58u8]
}

/// The bytes of `null`.
pub open spec fn null_literal() -> Seq<u8> {
    seq![110u8, 117u8, 108u8, 108u8]
}

/// The rendered ledger section. The signing secret is never written; the
/// endpoint and the chain identifier appear when present, in that order.
pub open spec fn spec_render_ethereum(e: EthereumView) -> Seq<u8> {
    seq![123u8] + (match (e.rpc_target, e.chain_id) {
        (Option::None, Option::None) => Seq::<u8>::empty(),
        (Option::Some(t), Option::None) => key_rpc_target() + json_string(t),
        (Option::None, Option::Some(c)) => key_chain_id() + dec_digits(c as nat),
        (Option::Some(t), Option::Some(c)) => key_rpc_target() + json_string(t) + seq![44u8]
            + key_chain_id() + dec_digits(c as nat),
    }) + seq![125u8]
}

/// The rendered diagnostic section.
pub open spec fn spec_render_logging(l: LoggingView) -> Seq<u8> {
    seq![123u8] + (match l.file {
        Option::None => Seq::<u8>::empty(),
        Option::Some(f) => key_file() + json_string(f),
    }) + seq![125u8]
}

/// The rendered contract record; the ABI is already JSON text and is spliced
/// in verbatim.
pub open spec fn spec_render_contract(c: ContractView) -> Seq<u8> {
    seq![123u8] + key_address() + json_string(c.address) + seq![44u8] + key_owner() + json_string(
        c.owner,
    ) + seq![44u8] + key_abi() + c.abi + seq![125u8]
}

/// The rendered document: the ledger and diagnostic sections only when
/// present, the contract record always, `null` when the repository was never
/// initialized.
pub open spec fn spec_render_doc(d: DocView) -> Seq<u8> {
    seq![123u8] + (match d.ethereum {
        Option::Some(e) => key_ethereum() + spec_render_ethereum(e) + seq![44u8],
        Option::None => Seq::<u8>::empty(),
    }) + (match d.logging {
        Option::Some(l) => key_logging() + spec_render_logging(l) + seq![44u8],
        Option::None => Seq::<u8>::empty(),
    }) + key_contract() + (match d.contract {
        Option::Some(c) => spec_render_contract(c),
        Option::None => null_literal(),
    }) + seq![125u8]
}

/// The expansion of one byte inside a JSON string literal.
fn escape_byte(b: u8) -> (r: Vec<u8>)
    ensures
        r@ == escaped_byte(b),
{
    let r: Vec<u8> = if b == 34 {
        vec![92, 34]
    } else if b == 92 {
        vec![92, 92]
    } else if b == 8 {
        vec![92, 98]
    } else if b == 9 {
        vec![92, 116]
    } else if b == 10 {
        vec![92, 110]
    } else if b == 12 {
        vec![92, 102]
    } else if b == 13 {
        vec![92, 114]
    } else if b < 32 {
        let hi = b / 16;
        let lo = b % 16;
        let hi_d = if hi < 10 {
            hi + 48
        } else {
            hi + 87
        };
        let lo_d = if lo < 10 {
            lo + 48
        } else {
            lo + 87
        };
        vec![92, 117, 48, 48, hi_d, lo_d]
    } else {
        vec![b]
    };
    proof {
        assert(r@ =~= escaped_byte(b));
    }
    r
}

/// Appends a JSON string literal holding the given bytes.
fn push_json_string(out: &mut Vec<u8>, s: &Vec<u8>)
    ensures
        final(out)@ == old(out)@ + json_string(s@),
{
    out.push(34);
    let mut i: usize = 0;
    while i < s.len()
        invariant
            i <= s@.len(),
            out@ == old(out)@ + seq![34u8] + json_escaped(s@.take(i as int)),
        decreases s@.len() - i,
    {
        let e = escape_byte(s[i]);
        append_bytes(out, &e);
        proof {
            let t = s@.take(i + 1);
            assert(t.drop_last() =~= s@.take(i as int));
            assert(out@ =~= old(out)@ + seq![34u8] + json_escaped(s@.take(i + 1)));
        }
        i = i + 1;
    }
    out.push(34);
    proof {
        assert(s@.take(s@.len() as int) =~= s@);
        assert(out@ =~= old(out)@ + json_string(s@));
    }
}

/// Appends the decimal digits of an unsigned integer.
fn push_decimal(out: &mut Vec<u8>, n: u64)
    ensures
        final(out)@ == old(out)@ + dec_digits(n as nat),
    decreases n,
{
    if n < 10 {
        out.push((n as u8) + 48);
        proof {
            assert(out@ =~= old(out)@ + dec_digits(n as nat));
        }
    } else {
        push_decimal(out, n / 10);
        out.push(((n % 10) as u8) + 48);
        proof {
            assert(out@ =~= old(out)@ + dec_digits(n as nat));
        }
    }
}

/// Renders the ledger section.
fn render_ethereum(e: &crate::settings::EthereumSettings) -> (r: Vec<u8>)
    ensures
        r@ == spec_render_ethereum(e@),
{
    let mut out: Vec<u8> = Vec::new();
    out.push(123);
    match (&e.rpc_target, &e.chain_id) {
        (None, None) => {},
        (Some(t), None) => {
            let k: Vec<u8> = vec![34, 114, 112, 99, 95, 116, 97, 114, 103, 101, 116, 34, 58];
            proof {
                assert(k@ =~= key_rpc_target());
            }
            append_bytes(&mut out, &k);
            push_json_string(&mut out, t);
        },
        (None, Some(c)) => {
            let k: Vec<u8> = vec![34, 99, 104, 97, 105, 110, 95, 105, 100, 34, 58];
            proof {
                assert(k@ =~= key_chain_id());
            }
            append_bytes(&mut out, &k);
            push_decimal(&mut out, *c);
        },
        (Some(t), Some(c)) => {
            let k: Vec<u8> = vec![34, 114, 112, 99, 95, 116, 97, 114, 103, 101, 116, 34, 58];
            proof {
                assert(k@ =~= key_rpc_target());
            }
            append_bytes(&mut out, &k);
            push_json_string(&mut out, t);
            out.push(44);
            let k2: Vec<u8> = vec![34, 99, 104, 97, 105, 110, 95, 105, 100, 34, 58];
            proof {
                assert(k2@ =~= key_chain_id());
            }
            append_bytes(&mut out, &k2);
            push_decimal(&mut out, *c);
        },
    }
    out.push(125);
    proof {
        assert(out@ =~= spec_render_ethereum(e@));
    }
    out
}

/// Renders the diagnostic section.
fn render_logging(l: &crate::settings::LoggingSettings) -> (r: Vec<u8>)
    ensures
        r@ == spec_render_logging(l@),
{
    let mut out: Vec<u8> = Vec::new();
    out.push(123);
    match &l.file {
        None => {},
        Some(f) => {
            let k: Vec<u8> = vec![34, 102, 105, 108, 101, 34, 58];
            proof {
                assert(k@ =~= key_file());
            }
            append_bytes(&mut out, &k);
            push_json_string(&mut out, f);
        },
    }
    out.push(125);
    proof {
        assert(out@ =~= spec_render_logging(l@));
    }
    out
}

/// Renders the contract record.
fn render_contract(c: &crate::settings::ContractSettings) -> (r: Vec<u8>)
    ensures
        r@ == spec_render_contract(c@),
{
    let mut out: Vec<u8> = Vec::new();
    out.push(123);
    let ka: Vec<u8> = vec![34, 97, 100, 100, 114, 101, 115, 115, 34, 58];
    proof {
        assert(ka@ =~= key_address());
    }
    append_bytes(&mut out, &ka);
    push_json_string(&mut out, &c.address);
    out.push(44);
    let ko: Vec<u8> = vec![34, 111, 119, 110, 101, 114, 34, 58];
    proof {
        assert(ko@ =~= key_owner());
    }
    append_bytes(&mut out, &ko);
    push_json_string(&mut out, &c.owner);
    out.push(44);
    let kb: Vec<u8> = vec![34, 97, 98, 105, 34, 58];
    proof {
        assert(kb@ =~= key_abi());
    }
    append_bytes(&mut out, &kb);
    append_bytes(&mut out, &c.abi);
    out.push(125);
    proof {
        assert(out@ =~= spec_render_contract(c@));
    }
    out
}

/// Renders a whole settings document as compact JSON text.
#[verifier::rlimit(60)]
pub fn render_doc(d: &crate::settings::SettingsDoc) -> (r: Vec<u8>)
    ensures
        r@ == spec_render_doc(d@),
{
    let mut out: Vec<u8> = Vec::new();
    out.push(123);
    match &d.ethereum {
        Some(e) => {
            let k: Vec<u8> = vec![34, 101, 116, 104, 101, 114, 101, 117, 109, 34, 58];
            proof {
                assert(k@ =~= key_ethereum());
            }
            append_bytes(&mut out, &k);
            let body = render_ethereum(e);
            append_bytes(&mut out, &body);
            out.push(44);
        },
        None => {},
    }
    match &d.logging {
        Some(l) => {
            let k: Vec<u8> = vec![34, 108, 111, 103, 103, 105, 110, 103, 34, 58];
            proof {
                assert(k@ =~= key_logging());
            }
            append_bytes(&mut out, &k);
            let body = render_logging(l);
            append_bytes(&mut out, &body);
            out.push(44);
        },
        None => {},
    }
    let kc: Vec<u8> = vec![34, 99, 111, 110, 116, 114, 97, 99, 116, 34, 58];
    proof {
        assert(kc@ =~= key_contract());
    }
    append_bytes(&mut out, &kc);
    match &d.contract {
        Some(c) => {
            let body = render_contract(c);
            append_bytes(&mut out, &body);
        },
        None => {
            let k: Vec<u8> = vec![110, 117, 108, 108];
            proof {
                assert(k@ =~= null_literal());
            }
            append_bytes(&mut out, &k);
        },
    }
    out.push(125);
    proof {
        assert(out@ =~= spec_render_doc(d@));
    }
    out
}

/// Rejection of an attempt to persist over an existing settings file.
#[derive(PartialEq, Eq, Structural, Clone, Copy, Debug)]
pub enum StoreError {
    /// The repository settings file already exists: persistence is write-once,
    /// so that re-initialization is an explicit, detectable event.
    RepositorySettingsExist,
}

impl Settings {
    /// Decides the persistence of the repository layer: refused outright when
    /// the target already exists — never any content to write over the first
    /// record — and otherwise exactly the rendered repository document. A
    /// second call against the same target therefore fails, and hands the
    /// caller nothing that could overwrite the first write.
    pub fn write_repository_settings(&self, target_exists: bool) -> (r: Result<
        Vec<u8>,
        StoreError,
    >)
        ensures
            r is Err <==> target_exists,
            r matches Ok(content) ==> content@ == spec_render_doc(self@.repository),
            r is Err ==> r == Err::<Vec<u8>, StoreError>(StoreError::RepositorySettingsExist),
    {
        if target_exists {
            Err(StoreError::RepositorySettingsExist)
        } else {
            Ok(render_doc(&self.repository))
        }
    }
}

} // verus!
