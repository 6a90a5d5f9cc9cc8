//! The rules of a chat bot that answers commands with scripts.
//!
//! Each script file in the script directory defines a command. A chat
//! message whose first token is a command's name has the command's script
//! run, and what the script produces is the reply. Scripts can keep values
//! in a durable store between runs.
//!
//! This library decides; it reads no file, runs no script and sends nothing.
//! The program around it does that, and asks the library at each step:
//! [`pipeline::handle_command`] for a chat message, [`watch::handle_file_event`]
//! for a change in the script directory, and the functions of [`serialize`]
//! and [`date`] for a call that a script makes to the host.

pub mod cell;
pub mod commands;
pub mod date;
pub mod error;
pub mod names;
pub mod pipeline;
pub mod serialize;
pub mod settings;
pub mod store;
pub mod tokens;
pub mod value;
pub mod watch;
