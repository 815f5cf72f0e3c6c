//! Uppercase hexadecimal text of byte strings.

use vstd::prelude::*;

verus! {

/// The uppercase hexadecimal digit of `v` (`0 <= v < 16`).
pub open spec fn hex_digit_upper(v: int) -> char {
    if v < 10 {
        ((48 + v) as u8) as char
    } else {
        ((55 + v) as u8) as char
    }
}

/// Two uppercase hexadecimal digits per byte, high nibble first.
pub open spec fn hex_upper(b: Seq<u8>) -> Seq<char> {
    Seq::new(
        2 * b.len(),
        |j: int|
            if j % 2 == 0 {
                hex_digit_upper(b[j / 2] as int / 16)
            } else {
                hex_digit_upper(b[j / 2] as int % 16)
            },
    )
}

/// `c` is one of `0`-`9` or `A`-`F`.
pub open spec fn is_upper_hex_char(c: char) -> bool {
    ('0' <= c && c <= '9') || ('A' <= c && c <= 'F')
}

/// Every character of the hexadecimal text is an uppercase hexadecimal digit,
/// and there are two of them per byte.
pub proof fn hex_upper_shape(b: Seq<u8>)
    ensures
        hex_upper(b).len() == 2 * b.len(),
        forall|i: int| 0 <= i < hex_upper(b).len() ==> is_upper_hex_char(#[trigger] hex_upper(b)[i]),
{
    assert forall|i: int| 0 <= i < hex_upper(b).len() implies is_upper_hex_char(
        #[trigger] hex_upper(b)[i],
    ) by {
        let byte = b[i / 2];
        assert(byte / 16 < 16);
        assert(byte % 16 < 16);
    }
}

/// Relies on `hex::encode_upper`: it writes each byte as two digits from
/// `0123456789ABCDEF`, the high nibble first.
#[verifier::external_body]
pub(crate) fn encode_upper(b: &[u8]) -> (r: String)
    ensures
        r@ == hex_upper(b@),
{
    hex::encode_upper(b)
}

} // verus!
