//! A minimal process-isolation launcher.
//!
//! Given a root-filesystem directory and a command, the launcher starts that
//! command inside a fresh set of kernel namespaces (user, UTS, PID, mount),
//! remaps its container-root identity onto a host identity, confines its
//! filesystem view, and supervises it until all descendants exit.
//!
//! This crate holds the verified core: the invocation grammar, the
//! identity-mapping file contents, root-path resolution, and the two
//! cooperating state machines (launcher and container-init) together with
//! the synchronization protocol between them.  The surrounding binary
//! performs the actual system calls and drives the machines.

pub mod args;
pub mod bytes;
pub mod image;
pub mod idmap;
pub mod namespace;
pub mod protocol;
pub mod traces;
