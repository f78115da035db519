//! The host's own descriptions.

pub mod module;
