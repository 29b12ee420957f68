//! A verified core for managing Firecracker microVMs: argument and command construction for the
//! "firecracker" and "jailer" binaries, argument and command modifiers, VMM identifiers,
//! link-local IPv4 subnet arithmetic, and the state machines that govern VMM processes and VMs.

pub mod text;
pub mod pairs;
pub mod executor;
pub mod net;
pub mod extension;
pub mod ext;
pub mod process;
pub mod vm;
pub mod fs_backend;
pub mod process_spawner;
pub mod shell_spawner;
pub mod runner;
