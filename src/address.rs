use vstd::prelude::*;
use crate::digits::{alphabet, hex_value, is_hex_digit, to_lower, lemma_hex_digit_round_trip};
use crate::error::ApiError;

verus! {

/// A 20-byte account identifier, most significant byte first.
#[derive(Clone, Copy, Debug, PartialEq, Eq)]
pub struct Address {
    pub bytes: [u8; 20],
}

/// Characters that a hex reading skips: space, tab, carriage return, line feed.
pub open spec fn is_hex_space(c: char) -> bool {
    c == ' ' || c == '\t' || c == '\r' || c == '\n'
}

/// The text with one leading `0x` taken off, if it has one.
pub open spec fn without_prefix(s: Seq<char>) -> Seq<char> {
    if s.len() >= 2 && s[0] == '0' && s[1] == 'x' {
        s.subrange(2, s.len() as int)
    } else {
        s
    }
}

/// The characters of `s` that are not skipped as spacing, in order.
pub open spec fn unspaced(s: Seq<char>) -> Seq<char>
    decreases s.len(),
{
    if s.len() == 0 {
        s
    } else if is_hex_space(s.last()) {
        unspaced(s.drop_last())
    } else {
        unspaced(s.drop_last()).push(s.last())
    }
}

/// The digits that an address text carries.
pub open spec fn address_digits(s: Seq<char>) -> Seq<char> {
    unspaced(without_prefix(s))
}

/// An address text: an optional `0x`, then forty hex digits of either case,
/// which spacing may separate.
pub open spec fn is_address_text(s: Seq<char>) -> bool {
    let d = address_digits(s);
    &&& d.len() == 40
    &&& forall|i: int| 0 <= i < 40 ==> is_hex_digit(#[trigger] d[i])
}

/// Hex digits read two by two into bytes, the first digit of each pair the high one.
pub open spec fn decode_hex(d: Seq<char>) -> Seq<u8> {
    Seq::new(d.len() / 2, |i: int| (hex_value(d[2 * i]) * 16 + hex_value(d[2 * i + 1])) as u8)
}

/// The bytes that an address text denotes.
pub open spec fn address_bytes(s: Seq<char>) -> Seq<u8> {
    decode_hex(address_digits(s))
}

/// Bytes written as `0x` and two lower-case hex digits each.
pub open spec fn hex_text(b: Seq<u8>) -> Seq<char> {
    seq!['0', 'x'] + Seq::new(
        2 * b.len(),
        |i: int|
            if i % 2 == 0 {
                alphabet()[b[i / 2] as int / 16]
            } else {
                alphabet()[b[i / 2] as int % 16]
            },
    )
}

/// The canonical form of an address text: `0x`, then its digits in lower case.
pub open spec fn normalized(s: Seq<char>) -> Seq<char> {
    seq!['0', 'x'] + address_digits(s).map_values(|c: char| to_lower(c))
}

/// Relies on `FromStr` for fixed-hash's `H160`: it takes off one leading `0x`,
/// skips spaces, tabs and line breaks, and accepts exactly forty hex digits of
/// either case, read two by two into the bytes, high digit first.
#[verifier::external_body]
fn h160_from_str(s: &str) -> (r: Option<[u8; 20]>)
    ensures
        r is Some <==> is_address_text(s@),
        r matches Some(b) ==> b@ == address_bytes(s@),
{
    s.parse::<web3::types::H160>().ok().map(|h| h.0)
}

/// Relies on `Debug` for fixed-hash's `H160`: `0x`, then two lower-case hex
/// digits per byte, in order.
#[verifier::external_body]
fn h160_text(b: [u8; 20]) -> (r: String)
    ensures
        r@ == hex_text(b@),
{
    format!("{:?}", web3::types::H160(b))
}

/// Reads an account address from a request path segment.
pub fn parse_address(segment: &str) -> (r: Result<Address, ApiError>)
    ensures
        r is Ok <==> is_address_text(segment@),
        r matches Ok(a) ==> a.bytes@ == address_bytes(segment@),
        r matches Err(e) ==> e == ApiError::InvalidAddress,
{
    match h160_from_str(segment) {
        Some(bytes) => Ok(Address { bytes }),
        None => Err(ApiError::InvalidAddress),
    }
}

impl Address {
    /// The address as `0x` and forty lower-case hex digits.
    pub fn to_hex(&self) -> (r: String)
        ensures
            r@ == hex_text(self.bytes@),
    {
        h160_text(self.bytes)
    }
}

proof fn lemma_byte_digits(h: int, l: int)
    requires
        0 <= h < 16,
        0 <= l < 16,
    ensures
        ((h * 16 + l) as u8) / 16 == h,
        ((h * 16 + l) as u8) % 16 == l,
{
    assert(0 <= h * 16 + l < 256) by (nonlinear_arith)
        requires 0 <= h < 16, 0 <= l < 16;
    assert((h * 16 + l) / 16 == h && (h * 16 + l) % 16 == l) by (nonlinear_arith)
        requires 0 <= h < 16, 0 <= l < 16;
}

/// A valid address text, read and written back, gives its canonical form:
/// the same digits, in lower case, after `0x`.
pub proof fn lemma_address_round_trip(s: Seq<char>)
    requires
        is_address_text(s),
    ensures
        hex_text(address_bytes(s)) == normalized(s),
{
    let d = address_digits(s);
    let b = address_bytes(s);
    assert(b.len() == 20);
    assert forall|i: int| 0 <= i < 40 implies #[trigger] hex_text(b)[i + 2] == normalized(s)[i + 2] by {
        let j = i / 2;
        assert(0 <= 2 * j && 2 * j + 1 < 40);
        assert(is_hex_digit(d[2 * j]));
        assert(is_hex_digit(d[2 * j + 1]));
        lemma_byte_digits(hex_value(d[2 * j]), hex_value(d[2 * j + 1]));
        lemma_hex_digit_round_trip(d[i]);
    }
    assert(hex_text(b) =~= normalized(s)) by {
        assert forall|k: int| 0 <= k < 42 implies hex_text(b)[k] == normalized(s)[k] by {
            if k >= 2 {
                assert(hex_text(b)[(k - 2) + 2] == normalized(s)[(k - 2) + 2]);
            }
        }
    }
}

} // verus!
