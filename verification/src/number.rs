//! Floating-point numbers, told apart as far as it matters which one is kept and
//! which one is sent.

use vstd::prelude::*;

verus! {

/// A floating-point number. `R` is the type of the finite ones.
#[derive(Debug, PartialEq)]
pub enum Number<R> {
    Finite(R),
    Infinity,
    NegativeInfinity,
    NotANumber,
}

/// What a column of real numbers keeps of a number: the number itself, or null
/// where it is not a number.
pub open spec fn kept<R>(number: Option<Number<R>>) -> Option<Number<R>> {
    match number {
        Some(Number::NotANumber) => None,
        _ => number,
    }
}

} // verus!
