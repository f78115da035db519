//! Boundary layer between a pipeline host and its dynamically loaded modules.
//!
//! The host and a module share no memory management, so everything that
//! crosses between them is a value with one owner. This crate holds the
//! values that cross (`ffi::types`), the conversions between them and the
//! host's own text and byte containers (`ffi::utils`), the registry of what
//! the host told a module (`ffi::shared`), and the queues that let a call
//! across the boundary return before its record is processed (`pipeline`).

pub mod ffi;
pub mod pipeline;
pub mod types;
