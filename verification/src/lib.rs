//! Supervision of a separately packaged worker executable: where it is
//! expected to live, how it is configured, and where its handle is kept.
//!
//! The library decides; the host performs the operating-system work (asking
//! for the running executable, testing that a file exists, starting the
//! process) and hands each result back as a plain value.

pub mod config;
pub mod error;
pub mod locator;
pub mod paths;
pub mod state;
pub mod supervisor;
