//! Modules, and who may name what is in them.

pub mod module_name;
