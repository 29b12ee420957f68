//! Extensions to the rest of the library's functionality.

pub mod link_local;
pub mod metrics;
