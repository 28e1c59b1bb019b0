//! Big-endian embedding of revision identifiers into 256-bit unsigned integers.
//!
//! An anchored revision identifier is 32 bytes wide and travels through the
//! contract as one unsigned 256-bit integer: the integer whose big-endian
//! representation is the identifier itself. These spec functions fix that
//! correspondence, and the round-trip law shows that embedding an identifier
//! and reading the integer's representation back loses nothing — in
//! particular, nothing is truncated.

use vstd::prelude::*;

verus! {

/// The unsigned integer that a byte string denotes in big-endian order.
pub open spec fn uint_of_be(s: Seq<u8>) -> nat
    decreases s.len(),
{
    if s.len() == 0 {
        0
    } else {
        (uint_of_be(s.drop_last()) * 256 + s.last()) as nat
    }
}

/// The big-endian representation of an unsigned integer in `w` bytes
/// (the integer reduced modulo 256^w).
pub open spec fn be_of_uint(n: nat, w: nat) -> Seq<u8>
    decreases w,
{
    if w == 0 {
        Seq::empty()
    } else {
        be_of_uint(n / 256, (w - 1) as nat) + seq![(n % 256) as u8]
    }
}

/// The representation in `w` bytes is `w` bytes wide.
pub proof fn lemma_be_of_uint_len(n: nat, w: nat)
    ensures
        be_of_uint(n, w).len() == w,
    decreases w,
{
    if w > 0 {
        lemma_be_of_uint_len(n / 256, (w - 1) as nat);
    }
}

/// Zero bytes alone denote zero.
proof fn lemma_zeros_denote_zero(z: nat)
    ensures
        uint_of_be(Seq::new(z, |i: int| 0u8)) == 0,
    decreases z,
{
    if z > 0 {
        let s = Seq::new(z, |i: int| 0u8);
        assert(s.drop_last() =~= Seq::new((z - 1) as nat, |i: int| 0u8));
        lemma_zeros_denote_zero((z - 1) as nat);
    }
}

/// Left-padding with zero bytes does not change the integer a byte string
/// denotes.
proof fn lemma_zero_padding_preserves_uint(z: nat, s: Seq<u8>)
    ensures
        uint_of_be(Seq::new(z, |i: int| 0u8) + s) == uint_of_be(s),
    decreases s.len(),
{
    let zeros = Seq::new(z, |i: int| 0u8);
    if s.len() == 0 {
        assert(zeros + s =~= zeros);
        lemma_zeros_denote_zero(z);
    } else {
        assert((zeros + s).drop_last() =~= zeros + s.drop_last());
        assert((zeros + s).last() == s.last());
        lemma_zero_padding_preserves_uint(z, s.drop_last());
    }
}

/// A revision identifier widened to the 32 bytes the embedding carries:
/// itself when already that wide, else left-padded with zero bytes.
pub open spec fn spec_full_width(id: Seq<u8>) -> Seq<u8> {
    if id.len() >= 32 {
        id
    } else {
        Seq::new((32 - id.len()) as nat, |i: int| 0u8) + id
    }
}

/// Widens a revision identifier to 32 bytes by left-padding with zero bytes.
/// The denoted integer — what anchoring embeds and validation reads back —
/// is unchanged by the padding.
pub fn full_width_revision(id: &[u8]) -> (r: Vec<u8>)
    requires
        id@.len() <= 32,
    ensures
        r@ == spec_full_width(id@),
        r@.len() == 32,
        uint_of_be(r@) == uint_of_be(id@),
{
    let mut out: Vec<u8> = Vec::new();
    let mut i: usize = id.len();
    while i < 32
        invariant
            id@.len() <= i <= 32,
            out@ == Seq::new((i - id@.len()) as nat, |k: int| 0u8),
        decreases 32 - i,
    {
        out.push(0);
        proof {
            assert(out@ =~= Seq::new((i + 1 - id@.len()) as nat, |k: int| 0u8));
        }
        i = i + 1;
    }
    let mut j: usize = 0;
    while j < id.len()
        invariant
            j <= id@.len(),
            out@ == Seq::new((32 - id@.len()) as nat, |k: int| 0u8) + id@.take(j as int),
        decreases id@.len() - j,
    {
        out.push(id[j]);
        proof {
            assert(out@ =~= Seq::new((32 - id@.len()) as nat, |k: int| 0u8) + id@.take(j + 1));
        }
        j = j + 1;
    }
    proof {
        assert(id@.take(id@.len() as int) =~= id@);
        assert(out@ =~= spec_full_width(id@));
        lemma_zero_padding_preserves_uint((32 - id@.len()) as nat, id@);
    }
    out
}

/// Law: for a byte string of exactly `w` bytes, taking the big-endian
/// representation of the integer it denotes gives the byte string back
/// unchanged. Embedding a 32-byte revision identifier as a 256-bit integer
/// and decoding that integer is therefore the identity.
pub proof fn lemma_be_round_trip(s: Seq<u8>)
    ensures
        be_of_uint(uint_of_be(s), s.len()) =~= s,
    decreases s.len(),
{
    if s.len() == 0 {
    } else {
        let prefix = s.drop_last();
        let n = uint_of_be(s);
        assert(n == uint_of_be(prefix) * 256 + s.last());
        assert(n % 256 == s.last() && n / 256 == uint_of_be(prefix)) by (nonlinear_arith)
            requires
                n == uint_of_be(prefix) * 256 + s.last(),
                s.last() < 256,
        ;
        lemma_be_round_trip(prefix);
        assert(be_of_uint(n, s.len()) =~= be_of_uint(uint_of_be(prefix), prefix.len()) + seq![s.last()]);
        assert(prefix + seq![s.last()] =~= s);
    }
}

} // verus!
