//! What crosses the boundary, and the state kept on the module's side of it.

pub mod module;
pub mod shared;
pub mod types;
pub mod utils;
