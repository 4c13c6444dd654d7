//! Arbitrary-precision integers, as provided by the `curv` crate.
//!
//! The protocol's arithmetic is carried out on `curv::BigInt` values.  That
//! type is opaque here: the spec function [`big_value`] names the integer a
//! `BigInt` holds, and each operation the protocol needs is a thin trusted
//! wrapper whose contract states the operation's result over `big_value`.

use vstd::prelude::*;
use vstd::arithmetic::power::pow;
use curv::BigInt;
use curv::arithmetic::Converter;
use curv::arithmetic::Modulo;

verus! {

#[verifier::external_type_specification]
#[verifier::external_body]
pub struct ExBigInt(BigInt);

/// The integer held by a `curv::BigInt`.
pub uninterp spec fn big_value(b: BigInt) -> int;

/// The integer denoted by a big-endian base-256 digit string.
pub open spec fn be_bytes_value(s: Seq<u8>) -> int
    decreases s.len(),
{
    if s.len() == 0 {
        0
    } else {
        be_bytes_value(s.drop_last()) * 256 + s.last()
    }
}

/// A big-endian digit string of length `n` denotes an integer in `[0, 256^n)`.
pub proof fn lemma_be_bytes_value_bounds(s: Seq<u8>)
    ensures
        0 <= be_bytes_value(s) < pow(256, s.len()),
    decreases s.len(),
{
    if s.len() == 0 {
        assert(pow(256, 0) == 1) by {
            reveal(pow);
        }
    } else {
        lemma_be_bytes_value_bounds(s.drop_last());
        assert(pow(256, s.len()) == 256 * pow(256, (s.len() - 1) as nat)) by {
            reveal(pow);
        }
    }
}

/// Relies on `curv::arithmetic::Converter::from_bytes`: the bytes are read as
/// an unsigned big-endian integer.
#[verifier::external_body]
pub(crate) fn big_from_bytes(bytes: &[u8]) -> (r: BigInt)
    ensures
        big_value(r) == be_bytes_value(bytes@),
{
    BigInt::from_bytes(bytes)
}

/// Relies on `curv`'s `From<u64>` impl for `BigInt`.
#[verifier::external_body]
pub(crate) fn big_from_u64(v: u64) -> (r: BigInt)
    ensures
        big_value(r) == v,
{
    BigInt::from(v)
}

/// Relies on `curv`'s `Add` impl for `&BigInt`: exact integer addition.
#[verifier::external_body]
pub(crate) fn big_add(a: &BigInt, b: &BigInt) -> (r: BigInt)
    ensures
        big_value(r) == big_value(*a) + big_value(*b),
{
    a + b
}

/// Relies on `curv`'s `Mul` impl for `&BigInt`: exact integer multiplication.
#[verifier::external_body]
pub(crate) fn big_mul(a: &BigInt, b: &BigInt) -> (r: BigInt)
    ensures
        big_value(r) == big_value(*a) * big_value(*b),
{
    a * b
}

/// Relies on `curv`'s `Ord` impl for `BigInt`: numeric comparison.
#[verifier::external_body]
pub(crate) fn big_lt(a: &BigInt, b: &BigInt) -> (r: bool)
    ensures
        r == (big_value(*a) < big_value(*b)),
{
    a < b
}

/// Relies on `curv::arithmetic::Modulo::mod_sub`, which reduces both operands
/// modulo a positive modulus and returns their difference, again reduced, so
/// the result is the mathematical `(a - b) mod m` in `[0, m)`.
#[verifier::external_body]
pub(crate) fn big_mod_sub(a: &BigInt, b: &BigInt, m: &BigInt) -> (r: BigInt)
    requires
        big_value(*m) > 0,
    ensures
        big_value(r) == (big_value(*a) - big_value(*b)) % big_value(*m),
{
    BigInt::mod_sub(a, b, m)
}

/// Relies on `curv::arithmetic::Modulo::mod_mul`: the product of the operands
/// reduced modulo a positive modulus, in `[0, m)`.
#[verifier::external_body]
pub(crate) fn big_mod_mul(a: &BigInt, b: &BigInt, m: &BigInt) -> (r: BigInt)
    requires
        big_value(*m) > 0,
    ensures
        big_value(r) == (big_value(*a) * big_value(*b)) % big_value(*m),
{
    BigInt::mod_mul(a, b, m)
}

/// Relies on `curv::arithmetic::Modulo::mod_pow` (GMP's `powm`): modular
/// exponentiation, with a result in `[0, m)` for a positive modulus.
/// `mod_pow` panics on a negative exponent, which the `requires` excludes.
#[verifier::external_body]
pub(crate) fn big_mod_pow(base: &BigInt, exponent: &BigInt, m: &BigInt) -> (r: BigInt)
    requires
        big_value(*base) >= 0,
        big_value(*exponent) >= 0,
        big_value(*m) > 0,
    ensures
        big_value(r) == pow(big_value(*base), big_value(*exponent) as nat) % big_value(*m),
{
    BigInt::mod_pow(base, exponent, m)
}

/// Relies on `curv`'s `Rem` impl for `&BigInt` (truncated remainder), which
/// agrees with the Euclidean remainder on a non-negative dividend.
#[verifier::external_body]
pub(crate) fn big_rem(a: &BigInt, m: &BigInt) -> (r: BigInt)
    requires
        big_value(*a) >= 0,
        big_value(*m) > 0,
    ensures
        big_value(r) == big_value(*a) % big_value(*m),
{
    a % m
}

} // verus!
