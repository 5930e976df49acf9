use vstd::prelude::*;

use crate::error::WalletError;

verus! {

/// The value of a hex digit of either case, `None` for any other character.
pub open spec fn hex_digit_value(c: char) -> Option<nat> {
    if '0' <= c && c <= '9' {
        Some((c as nat - '0' as nat) as nat)
    } else if 'a' <= c && c <= 'f' {
        Some((c as nat - 'a' as nat + 10) as nat)
    } else if 'A' <= c && c <= 'F' {
        Some((c as nat - 'A' as nat + 10) as nat)
    } else {
        None
    }
}

/// The value of a lower-case hex digit, `None` for any other character.
pub open spec fn lower_hex_digit_value(c: char) -> Option<nat> {
    if 'A' <= c && c <= 'F' {
        None
    } else {
        hex_digit_value(c)
    }
}

/// An even number of hex digits.
pub open spec fn is_hex(s: Seq<char>) -> bool {
    &&& s.len() % 2 == 0
    &&& forall|i: int| 0 <= i < s.len() ==> (#[trigger] hex_digit_value(s[i])) is Some
}

/// The bytes that a hex string stands for: two digits per byte, high nibble first.
pub open spec fn hex_bytes(s: Seq<char>) -> Seq<u8> {
    Seq::new(
        s.len() / 2,
        |i: int| (16 * hex_digit_value(s[2 * i])->0 + hex_digit_value(s[2 * i + 1])->0) as u8,
    )
}

/// What decoding a hex string gives: its bytes, or nothing where it is malformed.
pub open spec fn hex_decoded(s: Seq<char>) -> Option<Seq<u8>> {
    if is_hex(s) {
        Some(hex_bytes(s))
    } else {
        None
    }
}

/// `h` is the lower-case hex encoding of `b`.
pub open spec fn is_lower_hex_of(h: Seq<char>, b: Seq<u8>) -> bool {
    &&& h.len() == 2 * b.len()
    &&& forall|i: int|
        0 <= i < b.len() ==> {
            &&& lower_hex_digit_value(#[trigger] h[2 * i]) == Some((b[i] / 16) as nat)
            &&& lower_hex_digit_value(h[2 * i + 1]) == Some((b[i] % 16) as nat)
        }
}

/// Relies on hex::FromHexError only to carry the error of hex::decode, which
/// the library maps to its own.
#[verifier::external_type_specification]
#[verifier::external_body]
pub struct ExFromHexError(hex::FromHexError);

/// Relies on hex::decode: it accepts an even number of hex digits of either
/// case and turns each pair into one byte, high nibble first.
#[verifier::external_body]
fn hex_decode(s: &str) -> (r: Result<Vec<u8>, hex::FromHexError>)
    ensures
        r is Ok <==> is_hex(s@),
        r matches Ok(b) ==> b@ == hex_bytes(s@),
{
    hex::decode(s)
}

/// Relies on hex::encode: two lower-case hex digits per byte, high nibble first.
#[verifier::external_body]
fn hex_encode(b: &[u8]) -> (r: String)
    ensures
        is_lower_hex_of(r@, b@),
{
    hex::encode(b)
}

/// Decodes a hex string; one that is not an even number of hex digits is a
/// `DecodeFailure`.
pub fn decode_hex(s: &str) -> (r: Result<Vec<u8>, WalletError>)
    ensures
        r matches Ok(b) ==> hex_decoded(s@) == Some(b@),
        r matches Err(e) ==> hex_decoded(s@) is None && e == WalletError::DecodeFailure,
{
    match hex_decode(s) {
        Ok(b) => Ok(b),
        Err(_) => Err(WalletError::DecodeFailure),
    }
}

/// Encodes bytes as lower-case hex.
pub fn encode_hex(b: &[u8]) -> (r: String)
    ensures
        is_lower_hex_of(r@, b@),
{
    hex_encode(b)
}

} // verus!
