//! Conversions between boundary values and the host's containers.

pub mod strings;
