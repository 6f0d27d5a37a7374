//! Text forms of bytes and numbers: lowercase hex, `0x` addresses and
//! hashes, decimal amounts.

use vstd::prelude::*;
use crate::packing::be_value;

verus! {

/// The lowercase hex digit of a value below 16.
pub open spec fn hex_digit(v: nat) -> char {
    if v < 10 {
        (('0' as nat) + v) as char
    } else {
        (('a' as nat) + v - 10) as char
    }
}

/// Two lowercase hex digits per byte, high nibble first.
pub open spec fn hex_of(b: Seq<u8>) -> Seq<char>
    decreases b.len(),
{
    if b.len() == 0 {
        Seq::empty()
    } else {
        hex_of(b.drop_last()) + seq![hex_digit(b.last() as nat / 16), hex_digit(b.last() as nat % 16)]
    }
}

/// The decimal digits of a number, without leading zeros ("0" for zero).
pub open spec fn decimal_of(n: nat) -> Seq<char>
    decreases n,
{
    if n < 10 {
        seq![(('0' as nat) + n) as char]
    } else {
        decimal_of(n / 10).push((('0' as nat) + n % 10) as char)
    }
}

/// Relies on `hex::encode`: two lowercase hex digits for each byte, in order.
#[verifier::external_body]
fn hex_encode(b: &[u8]) -> (r: String)
    ensures
        r@ == hex_of(b@),
{
    hex::encode(b)
}

/// Relies on `num_bigint::BigUint::from_bytes_be` (the number a big-endian
/// byte string denotes, zero for none) and `BigUint::to_str_radix` with
/// radix 10 (its decimal digits, without leading zeros).
#[verifier::external_body]
pub(crate) fn be_decimal(b: &[u8]) -> (r: String)
    ensures
        r@ == decimal_of(be_value(b@)),
{
    num_bigint::BigUint::from_bytes_be(b).to_str_radix(10)
}

/// `0x` followed by the lowercase hex of the bytes.
pub open spec fn prefixed_hex(b: Seq<u8>) -> Seq<char> {
    "0x"@ + hex_of(b)
}

/// The lowercase `0x` form of bytes.
pub fn to_prefixed_hex(b: &[u8]) -> (r: String)
    ensures
        r@ == prefixed_hex(b@),
{
    let h = hex_encode(b);
    let mut s = String::from_str("0x");
    s.append(h.as_str());
    s
}

/// The text form of an address: `0x` and 40 lowercase hex digits.
pub fn address_to_string(a: &[u8; 20]) -> (r: String)
    ensures
        r@ == prefixed_hex(a@),
{
    to_prefixed_hex(a.as_slice())
}

/// The text form of a transaction hash: `0x` and 64 lowercase hex digits.
pub fn hash_to_string(h: &[u8; 32]) -> (r: String)
    ensures
        r@ == prefixed_hex(h@),
{
    to_prefixed_hex(h.as_slice())
}

} // verus!
