//! Discovering, installing, launching and serving ACP agents from the public registry.
//!
//! The library decides; the program around it acts. Wherever a command needs the network, the file
//! system or another process, the library says which operation comes next and takes its outcome.
#![allow(unused_imports)]

pub mod archive;
pub mod bytes;
pub mod commands;
pub mod environment;
pub mod path;
pub mod registry;
pub mod runtime;
pub mod text;
pub mod utf8;
