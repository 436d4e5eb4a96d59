//! Control plane for ephemeral microVM workstations.
//!
//! The library holds the verified core: instance identity (orders, IP
//! addresses, tap indices), the in-memory registry, the network-resource
//! and lifecycle plans that drive the hypervisor, and the terminal-session
//! state machine. An unverified shell executes the plans (shell commands,
//! HTTP, subprocesses) and feeds outcomes back in as plain values.

pub mod errors;
pub mod identity;
pub mod lifecycle;
pub mod network;
pub mod registry;
pub mod session;
pub mod text;
