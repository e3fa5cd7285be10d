//! The command-line front end's own rules: the global flags and
//! subcommands, the log settings they select, where input is read from and
//! output written to, the issuer payloads it reads and prints, and the
//! problem documents its failures are reported as.
pub mod args;
pub mod commands;
pub mod config;
pub mod context;
pub mod dto;
pub mod error;
pub mod problem;
