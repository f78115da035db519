//! The values exchanged across the boundary.

pub mod buffer;
pub mod collections;
pub mod functions;
pub mod module;
pub mod std_types;
pub mod traits;
