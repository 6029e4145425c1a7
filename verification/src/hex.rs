//! Lowercase hexadecimal rendering of byte strings.
//!
//! The session identifier crosses the boundary as a stable lowercase-hex
//! string of its bytes; this module renders it, two ASCII digits per byte.

use vstd::prelude::*;

verus! {

/// The ASCII code of the lowercase hexadecimal digit for a value below 16.
pub open spec fn spec_hex_digit(v: int) -> u8 {
    if v < 10 {
        (0x30 + v) as u8
    } else {
        (0x57 + v) as u8
    }
}

/// The lowercase-hex rendering of a byte string: for each byte, the digit
/// of its high nibble then the digit of its low nibble.
pub open spec fn spec_hex_encoding(bytes: Seq<u8>) -> Seq<u8> {
    Seq::new(
        2 * bytes.len(),
        |i: int|
            if i % 2 == 0 {
                spec_hex_digit(bytes[i / 2] as int / 16)
            } else {
                spec_hex_digit(bytes[i / 2] as int % 16)
            },
    )
}

/// Renders a byte string in lowercase hexadecimal, as ASCII bytes.
pub fn hex_of_bytes(bytes: &[u8]) -> (r: Vec<u8>)
    ensures
        r@ == spec_hex_encoding(bytes@),
{
    let n = bytes.len();
    let mut out: Vec<u8> = Vec::new();
    let mut i: usize = 0;
    while i < n
        invariant
            0 <= i <= n,
            n == bytes@.len(),
            out@ == spec_hex_encoding(bytes@.take(i as int)),
        decreases n - i,
    {
        let b = bytes[i];
        let hi = b >> 4u8;
        let lo = b & 0x0f;
        proof {
            assert(b >> 4u8 == b / 16) by (bit_vector);
            assert(b & 0x0f == b % 16) by (bit_vector);
            assert(b / 16 < 16);
        }
        let hd: u8 = if hi < 10 {
            0x30 + hi
        } else {
            0x57 + hi
        };
        let ld: u8 = if lo < 10 {
            0x30 + lo
        } else {
            0x57 + lo
        };
        out.push(hd);
        out.push(ld);
        i = i + 1;
        proof {
            assert(out@ =~= spec_hex_encoding(bytes@.take(i as int)));
        }
    }
    proof {
        assert(bytes@.take(n as int) =~= bytes@);
    }
    out
}

/// Hex rendering is two digits per byte, and every digit is a lowercase
/// ASCII digit or letter, so the rendering is always a printable token.
pub proof fn lemma_hex_encoding_shape(bytes: Seq<u8>)
    ensures
        spec_hex_encoding(bytes).len() == 2 * bytes.len(),
        forall|i: int|
            0 <= i < 2 * bytes.len() ==> (0x30 <= #[trigger] spec_hex_encoding(bytes)[i] <= 0x39
                || 0x61 <= spec_hex_encoding(bytes)[i] <= 0x66),
{
    assert forall|i: int| 0 <= i < 2 * bytes.len() implies (0x30
        <= #[trigger] spec_hex_encoding(bytes)[i] <= 0x39 || 0x61 <= spec_hex_encoding(bytes)[i]
        <= 0x66) by {
        assert(0 <= bytes[i / 2] as int / 16 < 16);
        assert(0 <= bytes[i / 2] as int % 16 < 16);
    }
}

} // verus!
