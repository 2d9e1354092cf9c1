//! The affine transform of one captured coordinate.

use crate::error::Operation;
use vstd::prelude::*;

verus! {

/// Whether `v` is a value of `i32`.
pub open spec fn fits_i32(v: int) -> bool {
    i32::MIN <= v <= i32::MAX
}

/// The coordinate `captured * multiplier + offset`, or the first step whose
/// exact result is no value of `i32`.
pub open spec fn spec_transform(captured: i32, multiplier: i32, offset: i32) -> Result<
    i32,
    Operation,
> {
    if !fits_i32(captured * multiplier) {
        Err(Operation::Multiply)
    } else if !fits_i32(captured * multiplier + offset) {
        Err(Operation::Add)
    } else {
        Ok((captured * multiplier + offset) as i32)
    }
}

/// Computes `captured * multiplier + offset` in checked 32-bit arithmetic.
pub fn transform(captured: i32, multiplier: i32, offset: i32) -> (r: Result<i32, Operation>)
    ensures
        r == spec_transform(captured, multiplier, offset),
{
    match captured.checked_mul(multiplier) {
        None => Err(Operation::Multiply),
        Some(product) => match product.checked_add(offset) {
            None => Err(Operation::Add),
            Some(sum) => Ok(sum),
        },
    }
}

} // verus!
