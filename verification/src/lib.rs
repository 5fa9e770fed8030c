//! Wildcard values: a value, or a wildcard that stands for any value.

pub mod or_any;
pub mod laws;
pub mod verbosity;

pub use or_any::OrAny;
