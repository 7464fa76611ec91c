//! Functions that call one another.

use vstd::prelude::*;

verus! {

/// The number after `arg`, where there is one.
pub fn sample_function(arg: u32) -> (result: u32)
    requires
        arg < u32::MAX,
    ensures
        result == arg + 1,
{
    let result: u32 = increment(arg);
    result
}

fn one() -> (one: u32)
    ensures
        one == 1,
{
    return 1;
}

/// The number after `arg`, where there is one.
pub fn increment(arg: u32) -> (next: u32)
    requires
        arg < u32::MAX,
    ensures
        next == arg + 1,
{
    arg + one()
}

} // verus!
