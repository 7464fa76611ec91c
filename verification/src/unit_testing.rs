//! Numbers with checked arithmetic, the running example for unit tests.

pub mod implementation;
