//! The transports and the manager that owns the active one.
//!
//! Nothing here touches a device or a socket. Each operation that needs the
//! medium is split in two: one function decides what is asked of the medium,
//! another takes what the medium answered and decides what follows.

pub mod error;
pub mod link;
pub mod manager;
pub mod serial;
pub mod tcp;

pub use error::{
    ConnectionError, ConnectionResult, IoFailure, IoKind, SerialErrorKind, SerialFailure,
};
pub use link::{LinkState, ReadEvent, Reaction, ReceivePlan, ReceiveStep, Teardown};
pub use manager::{ConnectFinish, ConnectStart, ConnectionManager, ManagerTeardown, Transport};
pub use serial::SerialHandler;
pub use tcp::TcpHandler;
