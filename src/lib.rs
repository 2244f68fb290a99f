//! Runs a command, captures what it writes, and renders shell statements
//! that hand the captured text back to the invoking shell.
pub mod dialect;
pub mod foreign;
pub mod utils;
pub mod cli;
pub mod capture;
pub mod command;
pub mod output;
