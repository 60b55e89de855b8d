//! The calls into outside crates (identifiers, clock, argument splitting and
//! JSON field access), each behind a trusted item whose contract says what
//! the crate's source shows.
pub mod argv;
pub mod clock;
pub mod durations;
pub mod ids;
pub mod json;
