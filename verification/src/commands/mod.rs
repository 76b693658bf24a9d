//! The commands of the command-line interface.
pub mod cli;
pub mod execute;
pub mod install;
pub mod list;
pub mod run;
pub mod serve;

pub use self::cli::{Cli, CliError, CliErrorKind, Commands};
pub use self::execute::{execute_cli, exit_from_status, CliExit};
