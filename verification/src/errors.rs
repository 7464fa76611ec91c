//! Errors as values: a vector that reports why an element is missing.

use crate::util::numeral::decimal;
use crate::util::numeral::push_decimal;
use vstd::prelude::*;
use vstd::string::*;

verus! {

/// Why a vector has no element to give.
#[derive(Clone, Copy, Debug, PartialEq, Eq, Structural)]
pub enum VectorError {
    /// The vector is empty.
    EmptyVector,
    /// The vector has no element at the given index.
    NotFound(usize),
}

impl VectorError {
    /// The message of the error.
    pub open spec fn text(self) -> Seq<char> {
        match self {
            VectorError::EmptyVector => "expected non-empty vector"@,
            VectorError::NotFound(index) => "element at index "@ + decimal(index as nat)
                + " not found"@,
        }
    }

    /// Writes out the message of the error.
    pub fn message(&self) -> (message: String)
        ensures
            message@ == self.text(),
    {
        match *self {
            VectorError::EmptyVector => "expected non-empty vector".to_owned(),
            VectorError::NotFound(index) => {
                let mut message = "element at index ".to_owned();
                push_decimal(&mut message, index as u128);
                message.append(" not found");
                message
            },
        }
    }
}

/// Gives back the value that stands in for a failed computation.
pub fn error<A>(recover: A) -> (recovered: A)
    ensures
        recovered == recover,
{
    recover
}

/// The sum of two even numbers, or zero where one of them is odd. The sum
/// has to fit in a byte.
pub fn sum_even_numbers(x: u8, y: u8) -> (sum: u8)
    requires
        x % 2 == 0 && y % 2 == 0 ==> x + y <= u8::MAX,
    ensures
        sum == if x % 2 == 0 && y % 2 == 0 {
            x + y
        } else {
            0
        },
{
    if x % 2 == 0 && y % 2 == 0 {
        x + y
    } else {
        error(0)
    }
}

/// The first element of `array`, or `EmptyVector` where it has none.
pub fn head<A>(array: &[A]) -> (first: Result<&A, VectorError>)
    ensures
        (match first {
            Ok(element) => array@.len() > 0 && *element == array@[0],
            Err(error) => array@.len() == 0 && error == VectorError::EmptyVector,
        }),
{
    if array.len() > 0 {
        Ok(&array[0])
    } else {
        Err(VectorError::EmptyVector)
    }
}

/// The element of `array` at `index`, or `NotFound` with the index where
/// the array ends before it.
pub fn get<A>(array: &[A], index: usize) -> (found: Result<&A, VectorError>)
    ensures
        (match found {
            Ok(element) => index < array@.len() && *element == array@[index as int],
            Err(error) => index >= array@.len() && error == VectorError::NotFound(index),
        }),
{
    let mut current: usize = 0;
    for x in elements: array.iter()
        invariant
            current == elements.index(),
            current <= index,
            elements.seq() == array@.map_values(|a: A| &a),
    {
        if current == index {
            return Ok(x);
        } else {
            current += 1;
        }
    }
    Err(VectorError::NotFound(index))
}

} // verus!
