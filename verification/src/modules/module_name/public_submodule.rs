//! Members that are open to a named part of the crate only.

use vstd::prelude::*;

verus! {

/// Open to this module: the same as private.
pub(self) fn private() {
    public_inside_parent();
    self::public_inside_parent();
}

/// Open to the parent module.
pub(super) fn public_inside_parent() {
    super::public();
}

/// Open to the whole crate.
pub(crate) fn public_inside_this_crate() {
    crate::modules::module_name::private();
}

/// Open to the named module, which has to be an ancestor of this one.
pub(in crate::modules::module_name) fn public_inside_module_name() {
}

} // verus!
