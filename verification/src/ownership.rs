//! Values own what they hold, and hand it on when they are moved.

use vstd::prelude::*;

verus! {

/// A box owns its place on the heap from its making to the end of the
/// scope that made it.
pub fn raii() {
    let structure: Box<u8> = Box::new(0);
    assert(*structure == 0);
    return;
}

/// A move may change whether the value can be written: the box is filled
/// while it is held as mutable, and keeps what it was filled with when it
/// is moved on.
pub fn mutability() {
    let immutable: Box<u8> = Box::new(0);
    let mut mutable: Box<u8> = immutable;
    *mutable = 1;
    let immutable: Box<u8> = mutable;
    assert(*immutable == 1);
}

} // verus!
