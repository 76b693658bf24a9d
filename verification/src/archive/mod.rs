//! Variants of the `run` and `serve` commands that report every failure by a kind of its own.
pub mod commands;
