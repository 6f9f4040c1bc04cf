//! Arbitrary-precision natural numbers, held as big-endian byte strings.
//!
//! The arithmetic itself is done by `num_bigint::BigUint`. Each operation is
//! reached through one wrapper of this module whose contract is taken on
//! trust: it says which number the returned bytes denote, in terms of
//! [`be_value`], and nothing else.

use vstd::prelude::*;
use crate::bytes::copy_bytes;

verus! {

/// The natural number that a big-endian byte string denotes. The empty string
/// denotes zero and leading zero bytes do not change the value.
pub open spec fn be_value(bytes: Seq<u8>) -> nat
    decreases bytes.len(),
{
    if bytes.len() == 0 {
        0
    } else {
        be_value(bytes.drop_last()) * 256 + bytes.last() as nat
    }
}

/// Trusted: `BigUint::from(u128)` followed by `BigUint::to_bytes_be`. The
/// bytes returned denote exactly `x`.
#[verifier::external_body]
fn big_from_u128(x: u128) -> (bytes: Vec<u8>)
    ensures
        be_value(bytes@) == x,
{
    num_bigint::BigUint::from(x).to_bytes_be()
}

/// Trusted: `BigUint`'s `+` on the numbers read by `BigUint::from_bytes_be`.
/// The bytes returned denote the exact sum; the addition cannot overflow.
#[verifier::external_body]
fn big_add(a: &Vec<u8>, b: &Vec<u8>) -> (sum: Vec<u8>)
    ensures
        be_value(sum@) == be_value(a@) + be_value(b@),
{
    (num_bigint::BigUint::from_bytes_be(a) + num_bigint::BigUint::from_bytes_be(b)).to_bytes_be()
}

/// Trusted: `BigUint`'s `*` on the numbers read by `BigUint::from_bytes_be`.
/// The bytes returned denote the exact product.
#[verifier::external_body]
fn big_mul(a: &Vec<u8>, b: &Vec<u8>) -> (product: Vec<u8>)
    ensures
        be_value(product@) == be_value(a@) * be_value(b@),
{
    (num_bigint::BigUint::from_bytes_be(a) * num_bigint::BigUint::from_bytes_be(b)).to_bytes_be()
}

/// Trusted: `BigUint`'s `/` on the numbers read by `BigUint::from_bytes_be`.
/// The bytes returned denote the quotient rounded down. `BigUint` panics on a
/// zero divisor, which the precondition rules out.
#[verifier::external_body]
fn big_div(a: &Vec<u8>, b: &Vec<u8>) -> (quotient: Vec<u8>)
    requires
        be_value(b@) > 0,
    ensures
        be_value(quotient@) == be_value(a@) / be_value(b@),
{
    (num_bigint::BigUint::from_bytes_be(a) / num_bigint::BigUint::from_bytes_be(b)).to_bytes_be()
}

/// Trusted: `BigUint`'s `<` on the numbers read by `BigUint::from_bytes_be`.
#[verifier::external_body]
fn big_lt(a: &Vec<u8>, b: &Vec<u8>) -> (less: bool)
    ensures
        less == (be_value(a@) < be_value(b@)),
{
    num_bigint::BigUint::from_bytes_be(a) < num_bigint::BigUint::from_bytes_be(b)
}

/// A natural number of any size. Its view is that number.
#[derive(Debug)]
pub struct Natural {
    magnitude: Vec<u8>,
}

impl View for Natural {
    type V = nat;

    closed spec fn view(&self) -> nat {
        be_value(self.magnitude@)
    }
}

impl Natural {
    /// The number whose big-endian magnitude is `bytes`; the empty string is
    /// zero.
    pub fn from_be_bytes(bytes: Vec<u8>) -> (number: Natural)
        ensures
            number@ == be_value(bytes@),
    {
        Natural { magnitude: bytes }
    }

    /// The big-endian magnitude of this number.
    pub fn to_be_bytes(&self) -> (bytes: Vec<u8>)
        ensures
            be_value(bytes@) == self@,
    {
        copy_bytes(&self.magnitude)
    }

    /// The number `value`.
    pub fn from_u128(value: u128) -> (number: Natural)
        ensures
            number@ == value,
    {
        Natural { magnitude: big_from_u128(value) }
    }

    /// The sum of two numbers.
    pub fn plus(&self, other: &Natural) -> (sum: Natural)
        ensures
            sum@ == self@ + other@,
    {
        Natural { magnitude: big_add(&self.magnitude, &other.magnitude) }
    }

    /// The product of two numbers.
    pub fn times(&self, other: &Natural) -> (product: Natural)
        ensures
            product@ == self@ * other@,
    {
        Natural { magnitude: big_mul(&self.magnitude, &other.magnitude) }
    }

    /// The quotient of this number by `divisor`, rounded down.
    pub fn div_floor(&self, divisor: &Natural) -> (quotient: Natural)
        requires
            divisor@ > 0,
        ensures
            quotient@ == self@ / divisor@,
    {
        Natural { magnitude: big_div(&self.magnitude, &divisor.magnitude) }
    }

    /// Whether this number is strictly below `other`.
    pub fn is_below(&self, other: &Natural) -> (below: bool)
        ensures
            below == (self@ < other@),
    {
        big_lt(&self.magnitude, &other.magnitude)
    }

    /// Whether the two numbers are equal, in whatever form their bytes
    /// stand.
    pub fn equals(&self, other: &Natural) -> (same: bool)
        ensures
            same == (self@ == other@),
    {
        !big_lt(&self.magnitude, &other.magnitude) && !big_lt(&other.magnitude, &self.magnitude)
    }

    /// A copy of this number.
    pub fn duplicate(&self) -> (copy: Natural)
        ensures
            copy@ == self@,
    {
        Natural { magnitude: copy_bytes(&self.magnitude) }
    }
}

} // verus!
