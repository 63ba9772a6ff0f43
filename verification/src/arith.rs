//! Arithmetic on machine integers that reports what went wrong instead of wrapping or
//! panicking.

use safe_arith::SafeArith;
use vstd::prelude::*;

verus! {

/// Why an arithmetic operation gave no result.
#[derive(Copy, Clone, Debug, PartialEq, Eq, Structural)]
pub enum ArithError {
    Overflow,
    DivisionByZero,
}

/// The quotient of two numbers, which there is none of where the divisor is zero.
pub open spec fn checked_quotient(dividend: usize, divisor: usize) -> Result<usize, ArithError> {
    if divisor == 0 {
        Err(ArithError::DivisionByZero)
    } else {
        Ok((dividend / divisor) as usize)
    }
}

/// The product of two numbers, which there is none of where it does not fit.
pub open spec fn checked_product(left: usize, right: usize) -> Result<usize, ArithError> {
    if left * right <= usize::MAX {
        Ok((left * right) as usize)
    } else {
        Err(ArithError::Overflow)
    }
}

/// The sum of two numbers, which there is none of where it does not fit.
pub open spec fn checked_sum(left: usize, right: usize) -> Result<usize, ArithError> {
    if left + right <= usize::MAX {
        Ok((left + right) as usize)
    } else {
        Err(ArithError::Overflow)
    }
}

/// `safe_arith::SafeArith::safe_div` on `usize`: the quotient, or `DivisionByZero`.
#[verifier::external_body]
pub(crate) fn safe_div(dividend: usize, divisor: usize) -> (quotient: Result<usize, ArithError>)
    ensures
        quotient == checked_quotient(dividend, divisor),
{
    match dividend.safe_div(divisor) {
        Ok(quotient) => Ok(quotient),
        Err(safe_arith::ArithError::Overflow) => Err(ArithError::Overflow),
        Err(safe_arith::ArithError::DivisionByZero) => Err(ArithError::DivisionByZero),
    }
}

/// `safe_arith::SafeArith::safe_mul` on `usize`: the product, or `Overflow` where it does not
/// fit.
#[verifier::external_body]
pub(crate) fn safe_mul(left: usize, right: usize) -> (product: Result<usize, ArithError>)
    ensures
        product == checked_product(left, right),
{
    match left.safe_mul(right) {
        Ok(product) => Ok(product),
        Err(safe_arith::ArithError::Overflow) => Err(ArithError::Overflow),
        Err(safe_arith::ArithError::DivisionByZero) => Err(ArithError::DivisionByZero),
    }
}

/// `safe_arith::SafeArith::safe_add` on `usize`: the sum, or `Overflow` where it does not fit.
#[verifier::external_body]
pub(crate) fn safe_add(left: usize, right: usize) -> (sum: Result<usize, ArithError>)
    ensures
        sum == checked_sum(left, right),
{
    match left.safe_add(right) {
        Ok(sum) => Ok(sum),
        Err(safe_arith::ArithError::Overflow) => Err(ArithError::Overflow),
        Err(safe_arith::ArithError::DivisionByZero) => Err(ArithError::DivisionByZero),
    }
}

} // verus!
