//! The command line: the commands, their configuration and the boot
//! sequence that every serving command goes through.

pub mod args;
pub mod boot;
pub mod commands;
pub mod errors;
pub mod plans;
