//! Preparing, launching and serving agents.
pub mod binary;
pub mod cache;
pub mod distribution;
pub mod error;
pub mod prepare;
pub mod process;
pub mod resolve;
pub mod serve;
pub mod stdio;
pub mod transports;
