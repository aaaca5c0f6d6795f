//! A registry of virtual machine definitions kept in one directory per
//! machine, and the synthesis of the hypervisor's argument list from a
//! machine's declarative configuration.
//!
//! Everything here computes on plain values: the caller reads directories and
//! files, starts processes, and hands over what it found.

pub mod cli;
pub mod config;
pub mod document;
pub mod error;
pub mod launch;
pub mod lifecycle;
pub mod path;
pub mod registry;
pub mod schema;
pub mod text;
