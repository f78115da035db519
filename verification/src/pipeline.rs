//! The pipeline's side of the boundary.

pub mod async_process;
