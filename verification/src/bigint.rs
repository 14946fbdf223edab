//! Natural numbers of any size, as `num_bigint` provides them: the type, the
//! number that a value of it holds, and the few operations that the domain
//! separator needs.

use num_bigint::BigUint;
use vstd::prelude::*;

verus! {

/// `num_bigint::BigUint`: a natural number of any size. The verifier sees
/// nothing inside it; what it holds is spoken of through `biguint_value`.
#[verifier::external_type_specification]
#[verifier::external_body]
pub struct ExBigUint(BigUint);

/// The natural number that a `BigUint` holds.
pub uninterp spec fn biguint_value(n: BigUint) -> nat;

/// The constant `BigUint::ZERO`. Claimed: it holds zero.
#[verifier::external_body]
pub(crate) fn biguint_zero() -> (zero: BigUint)
    ensures
        biguint_value(zero) == 0,
{
    BigUint::ZERO
}

/// `Mul<u64>` of `BigUint`. Claimed: the result holds the product.
#[verifier::external_body]
pub(crate) fn biguint_mul_u64(n: BigUint, factor: u64) -> (product: BigUint)
    ensures
        biguint_value(product) == biguint_value(n) * factor,
{
    n * factor
}

/// `Add<u64>` of `BigUint`. Claimed: the result holds the sum.
#[verifier::external_body]
pub(crate) fn biguint_add_u64(n: BigUint, term: u64) -> (sum: BigUint)
    ensures
        biguint_value(sum) == biguint_value(n) + term,
{
    n + term
}

/// `Rem<u32>` of `&BigUint`, which panics on a zero modulus, and the lowest
/// digit of `to_u32_digits` on its result (no digit stands for zero).
/// Claimed: the result is the remainder of the number held.
#[verifier::external_body]
pub(crate) fn biguint_rem_u32(n: &BigUint, modulus: u32) -> (remainder: u32)
    requires
        modulus > 0,
    ensures
        remainder == biguint_value(*n) % (modulus as nat),
{
    (n % modulus).to_u32_digits().first().copied().unwrap_or(0)
}

/// `Div<u32>` of `BigUint`, which panics on a zero divisor. Claimed: the
/// result holds the quotient, rounded down.
#[verifier::external_body]
pub(crate) fn biguint_div_u32(n: BigUint, divisor: u32) -> (quotient: BigUint)
    requires
        divisor > 0,
    ensures
        biguint_value(quotient) == biguint_value(n) / (divisor as nat),
{
    n / divisor
}

} // verus!
