//! A module whose member is exported by the modules above it.

use vstd::prelude::*;

verus! {

/// Known as `moduleA::functionB` and as `module_name::fb` too.
#[allow(non_snake_case)]
pub fn functionB() {
}

} // verus!
