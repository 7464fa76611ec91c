//! A module with private and public members, submodules and exports.

#[allow(non_snake_case)]
mod moduleA;
pub mod public_submodule;

pub use moduleA::functionB as fb;

use vstd::prelude::*;

verus! {

/// Seen in this module and in the modules below it.
fn private() {
}

/// Seen wherever this module is seen.
pub fn public() {
}

} // verus!
