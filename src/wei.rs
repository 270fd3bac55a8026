use vstd::prelude::*;
use crate::digits::decimal_text;

verus! {

/// One word of a 256-bit amount: 2^64.
pub open spec fn word_base() -> nat {
    0x1_0000_0000_0000_0000nat
}

/// The number that four 64-bit words denote, least significant word first.
pub open spec fn words_value(w: [u64; 4]) -> nat {
    w@[0] as nat + word_base() * (w@[1] as nat + word_base() * (w@[2] as nat + word_base()
        * w@[3] as nat))
}

/// The number of smallest units in one whole token: 10^18.
pub const WEI_PER_ETHER: u64 = 1_000_000_000_000_000_000;

/// An unsigned 256-bit amount of the chain's native token, in its smallest unit.
#[derive(Clone, Copy, Debug, PartialEq, Eq)]
pub struct Wei {
    /// Four 64-bit words, least significant first.
    pub words: [u64; 4],
}

/// Relies on uint's `U256::checked_div`: `None` for a zero divisor, else the
/// quotient rounded down.
#[verifier::external_body]
fn u256_checked_div(a: [u64; 4], b: [u64; 4]) -> (r: Option<[u64; 4]>)
    ensures
        r is None <==> words_value(b) == 0,
        r matches Some(q) ==> words_value(q) == words_value(a) / words_value(b),
{
    web3::types::U256(a).checked_div(web3::types::U256(b)).map(|q| q.0)
}

/// Relies on `Display` for uint's `U256`: the decimal digits without sign or
/// leading zeros, and `0` for zero.
#[verifier::external_body]
fn u256_decimal(a: [u64; 4]) -> (r: String)
    ensures
        r@ == decimal_text(words_value(a)),
{
    web3::types::U256(a).to_string()
}

impl Wei {
    pub open spec fn value(self) -> nat {
        words_value(self.words)
    }

    /// The amount held in four words, least significant first.
    pub fn from_words(words: [u64; 4]) -> (r: Wei)
        ensures
            r.words == words,
            r.value() == words_value(words),
    {
        Wei { words }
    }

    /// A 64-bit amount.
    pub fn from_u64(n: u64) -> (r: Wei)
        ensures
            r.value() == n,
    {
        let r = Wei { words: [n, 0, 0, 0] };
        assert(r.words@[1] == 0 && r.words@[2] == 0 && r.words@[3] == 0);
        r
    }

    /// The amount in decimal, which keeps every digit of a 256-bit value.
    pub fn to_decimal(&self) -> (r: String)
        ensures
            r@ == decimal_text(self.value()),
    {
        u256_decimal(self.words)
    }
}

/// Whole tokens in an amount: the amount divided by 10^18, rounded down.
pub fn to_base_units(wei: Wei) -> (r: Wei)
    ensures
        r.value() == wei.value() / (WEI_PER_ETHER as nat),
{
    let unit = Wei::from_u64(WEI_PER_ETHER);
    match u256_checked_div(wei.words, unit.words) {
        Some(q) => Wei { words: q },
        None => {
            assert(false);
            wei
        },
    }
}

} // verus!
