//! Memory management specific to the x86_64 architecture.

pub mod physical;
