//! Transport layer of a serial/TCP terminal: configuration models, the
//! decisions of the two transports and of the connection manager, and the
//! terminal-side bookkeeping (messages, command history, profiles).
//!
//! The library performs no I/O. Opening devices, reading sockets and
//! scheduling tasks belong to the caller, which reports what happened as
//! plain values and acts on what the library decides.

pub mod commands;
pub mod communication;
pub mod models;
pub mod sequences;
pub mod stamp;
pub mod text;
