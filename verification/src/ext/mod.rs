//! The earlier set of extensions, kept alongside the current ones.

pub mod link_local;
pub mod fcnet;
pub mod metrics;
pub mod nat_network;
pub mod snapshot_editor;
