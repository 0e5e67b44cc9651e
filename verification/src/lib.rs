//! A task list kept in a text file and a Pomodoro timer that runs in a
//! background daemon.
//!
//! The timer engine, the messages between client and daemon, the channel
//! address, the decisions of the server and of the client connector, and the
//! task list with its file format are here, each with its contract. The
//! program around them does the input and output.

pub mod client;
pub mod clock;
pub mod config;
pub mod daemon;
pub mod ipc;
pub mod laws;
pub mod repository;
pub mod task;
pub mod text;
