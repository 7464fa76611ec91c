//! A playground of small verified demonstrations, together with the named,
//! timed runner that turns each of them into a reported test case.

pub mod enums;
pub mod errors;
pub mod functions;
pub mod generics;
pub mod modules;
pub mod ownership;
pub mod primitives;
pub mod unit_testing;
pub mod util;
