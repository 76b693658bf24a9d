//! The `run` and `serve` commands with their own errors.
pub mod install;
pub mod run;
pub mod serve;
