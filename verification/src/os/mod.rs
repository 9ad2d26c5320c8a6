//! Decisions around the operating-system services the shim relies on.

pub mod exec;
