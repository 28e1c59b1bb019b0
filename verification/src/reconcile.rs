//! Reconciliation of the contract-held commit set against local history.
//!
//! Every on-chain entry is classified as present in or absent from the local
//! ancestry; order and counts need not agree, only membership per entry. The
//! reconciler is pure: it mutates neither input and reports the absent
//! entries for the caller to warn about.

use crate::bytes::{contains_bytes, spec_contains_bytes};
use vstd::prelude::*;

verus! {

/// How many entries of `onchain` occur in `local`.
pub open spec fn spec_good_count(onchain: Seq<Vec<u8>>, local: Seq<Vec<u8>>) -> nat
    decreases onchain.len(),
{
    if onchain.len() == 0 {
        0
    } else {
        spec_good_count(onchain.drop_last(), local) + (if spec_contains_bytes(
            local,
            onchain.last()@,
        ) {
            1nat
        } else {
            0nat
        })
    }
}

/// The entries of `onchain` that are absent from `local`, in order.
pub open spec fn spec_missing(onchain: Seq<Vec<u8>>, local: Seq<Vec<u8>>) -> Seq<Seq<u8>>
    decreases onchain.len(),
{
    if onchain.len() == 0 {
        Seq::empty()
    } else {
        spec_missing(onchain.drop_last(), local) + (if spec_contains_bytes(
            local,
            onchain.last()@,
        ) {
            Seq::<Seq<u8>>::empty()
        } else {
            seq![onchain.last()@]
        })
    }
}

/// The outcome of a reconciliation: how many on-chain entries were found
/// locally, how many were not, and which ones were not.
pub struct ReconcileReport {
    /// Entries present in the local ancestry.
    pub good: usize,
    /// Entries absent from the local ancestry.
    pub bad: usize,
    /// The absent entries, in on-chain order.
    pub missing: Vec<Vec<u8>>,
}

/// Classifies every on-chain entry as present in or absent from the local
/// ancestry. Each entry counts once toward `good` or `bad`, and exactly the
/// absent ones are reported back.
pub fn reconcile(onchain: &Vec<Vec<u8>>, local: &Vec<Vec<u8>>) -> (r: ReconcileReport)
    ensures
        r.good == spec_good_count(onchain@, local@),
        r.good + r.bad == onchain@.len(),
        r.missing@.map_values(|v: Vec<u8>| v@) == spec_missing(onchain@, local@),
{
    let mut good: usize = 0;
    let mut bad: usize = 0;
    let mut missing: Vec<Vec<u8>> = Vec::new();
    let mut i: usize = 0;
    while i < onchain.len()
        invariant
            i <= onchain@.len(),
            good == spec_good_count(onchain@.take(i as int), local@),
            good + bad == i,
            missing@.map_values(|v: Vec<u8>| v@) == spec_missing(onchain@.take(i as int), local@),
        decreases onchain@.len() - i,
    {
        proof {
            assert(onchain@.take(i + 1).drop_last() =~= onchain@.take(i as int));
            assert(onchain@.take(i + 1).last() == onchain@[i as int]);
        }
        if contains_bytes(local, &onchain[i]) {
            good = good + 1;
        } else {
            bad = bad + 1;
            missing.push(crate::bytes::copy_bytes(&onchain[i]));
            proof {
                assert(missing@.map_values(|v: Vec<u8>| v@) =~= spec_missing(
                    onchain@.take(i + 1),
                    local@,
                ));
            }
        }
        i = i + 1;
    }
    proof {
        assert(onchain@.take(onchain@.len() as int) =~= onchain@);
    }
    ReconcileReport { good, bad, missing }
}

} // verus!
