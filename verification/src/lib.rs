//! Declarative provisioning of a user's filesystem: a list of operations
//! (copy a file, create a symlink, run a command) is resolved against a home
//! directory and a working directory, then applied in order by a driver.
//!
//! The library holds the verified core: the path resolver, the operation
//! model, the recording (dry-run) driver and the fail-fast runner.  Callers
//! supply the configuration layer and, for real runs, a driver that touches
//! the filesystem.

pub mod blackhole;
pub mod config;
pub mod domain;
pub mod paths;
pub mod runner;

pub use blackhole::Driver as BlackholeDriver;
pub use runner::run;
