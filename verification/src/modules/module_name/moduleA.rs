//! A module that hands on what a module below it holds.

#[allow(non_snake_case)]
mod moduleB;

pub use moduleB::functionB;
