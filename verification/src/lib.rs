//! Forwarding of keyboard, mouse and trackpad input from a Mac to a Windows
//! machine: the shared event protocol, the client's forwarding decisions and
//! the server's translation of events into Windows input records.
pub mod client;
pub mod commands;
pub mod protocol;
pub mod server;
pub mod simulator;
pub mod state;
