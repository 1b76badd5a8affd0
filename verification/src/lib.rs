//! Lifecycle core of a container runtime: the status state machine of a
//! container, the record that carries its observed state, the naming of Linux
//! namespaces, the default cgroup parent, and the polling protocol by which a
//! caller waits for a status.
//!
//! The library never touches the runtime, the clock or the file system. Callers
//! hand it what they observed and carry out what it decides.

pub mod cgroup;
pub mod container;
pub mod error;
pub mod namespace;
pub mod text;
pub mod types;
pub mod wait;
