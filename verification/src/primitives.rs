//! Values of the built-in types.

use vstd::prelude::*;

verus! {

/// A sequence of fixed length.
pub const ARRAY: [i32; 5] = [0, 0, 0, 0, 0];

/// A slice is a view into part of an array: here the elements of `ARRAY`
/// from the third up to, and without, the fifth.
pub fn slice() {
    let slice: &[i32] = &ARRAY[2..4];
    assert(slice@ == seq![0i32, 0i32]);
}

} // verus!
