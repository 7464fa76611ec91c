//! The named, timed runner: the lines it reports, the clock it reads, the
//! course of one invocation and the registry of test cases.

pub mod invocation;
pub mod marker;
pub mod numeral;
pub mod registry;
pub mod timing;
