//! Lowercase hexadecimal rendering of byte strings, the alphabet record keys
//! are written in. The rendering is specified character by character, so its
//! injectivity — what makes derived keys collision-free — is proved, not
//! assumed.

use vstd::prelude::*;

verus! {

/// The lowercase hexadecimal digit for a value below sixteen.
pub open spec fn hex_digit(n: u8) -> char {
    if n == 0 {
        '0'
    } else if n == 1 {
        '1'
    } else if n == 2 {
        '2'
    } else if n == 3 {
        '3'
    } else if n == 4 {
        '4'
    } else if n == 5 {
        '5'
    } else if n == 6 {
        '6'
    } else if n == 7 {
        '7'
    } else if n == 8 {
        '8'
    } else if n == 9 {
        '9'
    } else if n == 10 {
        'a'
    } else if n == 11 {
        'b'
    } else if n == 12 {
        'c'
    } else if n == 13 {
        'd'
    } else if n == 14 {
        'e'
    } else {
        'f'
    }
}

/// Hexadecimal rendering of a byte string: two digits per byte, high nibble
/// first.
pub open spec fn hex_of(b: Seq<u8>) -> Seq<char> {
    Seq::new(
        b.len() * 2,
        |i: int|
            if i % 2 == 0 {
                hex_digit((b[i / 2] / 16) as u8)
            } else {
                hex_digit((b[i / 2] % 16) as u8)
            },
    )
}

/// On values below sixteen, distinct values have distinct digit characters.
pub proof fn lemma_hex_digit_injective(a: u8, b: u8)
    requires
        a < 16,
        b < 16,
        hex_digit(a) == hex_digit(b),
    ensures
        a == b,
{
}

/// Distinct byte strings render to distinct hexadecimal strings.
pub proof fn lemma_hex_of_injective(x: Seq<u8>, y: Seq<u8>)
    requires
        hex_of(x) == hex_of(y),
    ensures
        x == y,
{
    assert(hex_of(x).len() == x.len() * 2);
    assert(hex_of(y).len() == y.len() * 2);
    assert(x.len() == y.len());
    assert forall|i: int| 0 <= i < x.len() implies x[i] == y[i] by {
        assert(hex_of(x)[2 * i] == hex_digit((x[i] / 16) as u8));
        assert(hex_of(y)[2 * i] == hex_digit((y[i] / 16) as u8));
        assert(hex_of(x)[2 * i + 1] == hex_digit((x[i] % 16) as u8));
        assert(hex_of(y)[2 * i + 1] == hex_digit((y[i] % 16) as u8));
        lemma_hex_digit_injective((x[i] / 16) as u8, (y[i] / 16) as u8);
        lemma_hex_digit_injective((x[i] % 16) as u8, (y[i] % 16) as u8);
        assert(x[i] == (x[i] / 16) * 16 + x[i] % 16);
        assert(y[i] == (y[i] / 16) * 16 + y[i] % 16);
    }
    assert(x =~= y);
}

/// Relies on hex::encode: it renders each byte as two lowercase hexadecimal
/// digits, high nibble first.
#[verifier::external_body]
pub(crate) fn hex_encode(b: &[u8]) -> (r: String)
    ensures
        r@ == hex_of(b@),
{
    hex::encode(b)
}

} // verus!
