//! A natural number that can be added and subtracted.

use vstd::prelude::*;

verus! {

/// A natural number that fits in a machine word.
#[derive(Debug, PartialEq, Eq, Structural)]
pub struct Num(pub usize);

impl Num {
    /// The sum of two numbers. The sum has to fit in a machine word.
    pub fn add(&self, other: &Self) -> (sum: Self)
        requires
            self.0 + other.0 <= usize::MAX,
        ensures
            sum.0 == self.0 + other.0,
    {
        Num(self.0 + other.0)
    }

    /// The difference of two numbers, for a subtrahend that is not larger
    /// than the minuend.
    pub fn sub(&self, other: &Self) -> (difference: Self)
        requires
            other.0 <= self.0,
        ensures
            difference.0 == self.0 - other.0,
    {
        Num(self.0 - other.0)
    }

    /// The difference of two numbers, or an error where it would be negative.
    pub fn try_sub(&self, other: &Self) -> (outcome: Result<Self, ()>)
        ensures
            (match outcome {
                Ok(difference) => other.0 <= self.0 && difference.0 == self.0 - other.0,
                Err(_) => other.0 > self.0,
            }),
    {
        match self.0.checked_sub(other.0) {
            Some(difference) => Ok(Num(difference)),
            None => Err(()),
        }
    }
}

} // verus!
