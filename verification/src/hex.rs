//! Hexadecimal encoding and decoding of byte strings.
//!
//! Secrets, account identifiers and contract addresses travel through the
//! settings file as hexadecimal text; these routines convert between that text
//! and raw bytes, and their contracts pin the conversion digit by digit.

use vstd::prelude::*;

verus! {

/// True for the ASCII code of a hexadecimal digit, upper or lower case.
pub open spec fn is_hex_digit(b: u8) -> bool {
    (48 <= b <= 57) || (97 <= b <= 102) || (65 <= b <= 70)
}

/// Numeric value of a hexadecimal digit's ASCII code.
pub open spec fn hex_digit_value(b: u8) -> u8 {
    if 48 <= b <= 57 {
        (b - 48) as u8
    } else if 97 <= b <= 102 {
        (b - 87) as u8
    } else {
        (b - 55) as u8
    }
}

/// Lower-case ASCII digit for a value below sixteen.
pub open spec fn hex_digit_of(v: u8) -> u8 {
    if v < 10 {
        (v + 48) as u8
    } else {
        (v + 87) as u8
    }
}

/// The bytes that a run of hexadecimal digit pairs denotes.
pub open spec fn bytes_of_hex(s: Seq<u8>) -> Seq<u8> {
    Seq::new(s.len() / 2, |i: int| (hex_digit_value(s[2 * i]) * 16 + hex_digit_value(s[2 * i + 1])) as u8)
}

/// The lower-case hexadecimal text that denotes the given bytes, two digits a byte.
pub open spec fn hex_of_bytes(b: Seq<u8>) -> Seq<u8> {
    Seq::new(
        2 * b.len(),
        |i: int|
            if i % 2 == 0 {
                hex_digit_of(b[i / 2] / 16)
            } else {
                hex_digit_of(b[i / 2] % 16)
            },
    )
}

/// Rejection of text that is not a run of hexadecimal digit pairs.
#[derive(PartialEq, Eq, Structural, Clone, Copy, Debug)]
pub enum HexError {
    /// The text's length is odd.
    OddLength,
    /// A character is not a hexadecimal digit.
    InvalidDigit,
}

/// Decodes hexadecimal text to bytes; accepts upper and lower case.
pub fn hex_decode(s: &[u8]) -> (r: Result<Vec<u8>, HexError>)
    ensures
        r is Ok <==> (s@.len() % 2 == 0 && forall|i: int| 0 <= i < s@.len() ==> is_hex_digit(s@[i])),
        r matches Ok(b) ==> b@ == bytes_of_hex(s@),
        r == Err::<Vec<u8>, HexError>(HexError::OddLength) <==> s@.len() % 2 != 0,
{
    if s.len() % 2 != 0 {
        return Err(HexError::OddLength);
    }
    let mut out: Vec<u8> = Vec::new();
    let mut i: usize = 0;
    while i < s.len()
        invariant
            s@.len() % 2 == 0,
            i % 2 == 0,
            i <= s@.len(),
            forall|j: int| 0 <= j < i ==> is_hex_digit(s@[j]),
            out@ == bytes_of_hex(s@.take(i as int)),
        decreases s@.len() - i,
    {
        let hi = s[i];
        let lo = s[i + 1];
        if !hex_digit_ok(hi) || !hex_digit_ok(lo) {
            return Err(HexError::InvalidDigit);
        }
        let b = hex_digit_val(hi) * 16 + hex_digit_val(lo);
        out.push(b);
        proof {
            assert(out@ =~= bytes_of_hex(s@.take(i + 2)));
        }
        i = i + 2;
    }
    proof {
        assert(s@.take(s@.len() as int) =~= s@);
    }
    Ok(out)
}

/// Encodes bytes as lower-case hexadecimal text.
pub fn hex_encode(b: &[u8]) -> (r: Vec<u8>)
    ensures
        r@ == hex_of_bytes(b@),
        r@.len() == 2 * b@.len(),
{
    let mut out: Vec<u8> = Vec::new();
    let mut i: usize = 0;
    while i < b.len()
        invariant
            i <= b@.len(),
            out@ == hex_of_bytes(b@.take(i as int)),
        decreases b@.len() - i,
    {
        let v = b[i];
        out.push(hex_digit_enc(v / 16));
        out.push(hex_digit_enc(v % 16));
        proof {
            assert(out@ =~= hex_of_bytes(b@.take(i + 1)));
        }
        i = i + 1;
    }
    proof {
        assert(b@.take(b@.len() as int) =~= b@);
    }
    out
}

/// Recognizes a hexadecimal digit's ASCII code.
fn hex_digit_ok(b: u8) -> (r: bool)
    ensures
        r == is_hex_digit(b),
{
    (48 <= b && b <= 57) || (97 <= b && b <= 102) || (65 <= b && b <= 70)
}

/// Numeric value of a hexadecimal digit's ASCII code.
fn hex_digit_val(b: u8) -> (r: u8)
    requires
        is_hex_digit(b),
    ensures
        r == hex_digit_value(b),
        r < 16,
{
    if 48 <= b && b <= 57 {
        b - 48
    } else if 97 <= b && b <= 102 {
        b - 87
    } else {
        b - 55
    }
}

/// Lower-case ASCII digit for a value below sixteen.
fn hex_digit_enc(v: u8) -> (r: u8)
    requires
        v < 16,
    ensures
        r == hex_digit_of(v),
{
    if v < 10 {
        v + 48
    } else {
        v + 87
    }
}

/// Law: decoding inverts encoding — the hexadecimal text of any byte string
/// denotes exactly that byte string.
pub proof fn lemma_hex_round_trip(b: Seq<u8>)
    ensures
        bytes_of_hex(hex_of_bytes(b)) =~= b,
{
    let h = hex_of_bytes(b);
    assert forall|i: int| 0 <= i < b.len() implies bytes_of_hex(h)[i] == b[i] by {
        assert(h[2 * i] == hex_digit_of(b[i] / 16));
        assert(h[2 * i + 1] == hex_digit_of(b[i] % 16));
        assert(hex_digit_value(hex_digit_of(b[i] / 16)) == b[i] / 16);
        assert(hex_digit_value(hex_digit_of(b[i] % 16)) == b[i] % 16);
    }
}

} // verus!
