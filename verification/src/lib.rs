//! The decision core of a small interactive command shell: how a line of
//! input becomes tokens, which of the execution paths a command takes, what
//! the shell's settings are, and how the read-evaluate cycle moves.

pub mod command;
pub mod config;
pub mod dispatch;
pub mod engine;
pub mod report;
pub mod session;
pub mod text;
