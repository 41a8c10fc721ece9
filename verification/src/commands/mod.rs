//! The operations that a front end calls, as functions from what it sends
//! and what the medium answered to the response it gets back.

pub mod connection;
pub mod settings;
pub mod terminal;

pub use connection::{ApiResponse, FrontendConnectionConfig, SerialPortInfo};
pub use terminal::{ExportOptions, MessageFilter};
