//! The error vocabulary of the transports.

use vstd::prelude::*;

verus! {

/// The kinds of low-level I/O failure that the transports tell apart.
#[derive(Debug, Clone, Copy, PartialEq, Eq, Structural)]
pub enum IoKind {
    NotFound,
    PermissionDenied,
    ConnectionRefused,
    ConnectionReset,
    ConnectionAborted,
    WouldBlock,
    TimedOut,
    UnexpectedEof,
    Other,
}

/// A low-level I/O failure: its kind and its text.
#[derive(Debug)]
pub struct IoFailure {
    pub kind: IoKind,
    pub message: String,
}

/// The kinds of failure that the serial device layer reports.
#[derive(Debug, Clone, Copy, PartialEq, Eq, Structural)]
pub enum SerialErrorKind {
    NoDevice,
    InvalidInput,
    Unknown,
    Io(IoKind),
}

/// A failure of the serial device layer: its kind and its description.
#[derive(Debug)]
pub struct SerialFailure {
    pub kind: SerialErrorKind,
    pub description: String,
}

/// What can go wrong on a connection.
#[derive(Debug)]
pub enum ConnectionError {
    PortNotFound(String),
    PermissionDenied,
    InvalidConfiguration(String),
    NetworkTimeout,
    SendFailed(String),
    ReceiveFailed(String),
    ConnectionClosed,
    IoError(IoFailure),
    SerialError(SerialFailure),
}

pub type ConnectionResult<T> = Result<T, ConnectionError>;

impl ConnectionError {
    /// The text that describes this error to a user.
    pub open spec fn message(&self) -> Seq<char> {
        match self {
            ConnectionError::PortNotFound(name) => "Port not found: "@ + name@,
            ConnectionError::PermissionDenied => "Permission denied"@,
            ConnectionError::InvalidConfiguration(reason) => "Invalid configuration: "@ + reason@,
            ConnectionError::NetworkTimeout => "Network timeout"@,
            ConnectionError::SendFailed(detail) => "Send failed: "@ + detail@,
            ConnectionError::ReceiveFailed(detail) => "Receive failed: "@ + detail@,
            ConnectionError::ConnectionClosed => "Connection closed"@,
            ConnectionError::IoError(failure) => "IO error: "@ + failure.message@,
            ConnectionError::SerialError(failure) => "Serial port error: "@ + failure.description@,
        }
    }

    /// Describes this error to a user.
    pub fn to_string(&self) -> (r: String)
        ensures
            r@ == self.message(),
    {
        match self {
            ConnectionError::PortNotFound(name) => String::from_str("Port not found: ").concat(
                name.as_str(),
            ),
            ConnectionError::PermissionDenied => String::from_str("Permission denied"),
            ConnectionError::InvalidConfiguration(reason) => String::from_str(
                "Invalid configuration: ",
            ).concat(reason.as_str()),
            ConnectionError::NetworkTimeout => String::from_str("Network timeout"),
            ConnectionError::SendFailed(detail) => String::from_str("Send failed: ").concat(
                detail.as_str(),
            ),
            ConnectionError::ReceiveFailed(detail) => String::from_str("Receive failed: ").concat(
                detail.as_str(),
            ),
            ConnectionError::ConnectionClosed => String::from_str("Connection closed"),
            ConnectionError::IoError(failure) => String::from_str("IO error: ").concat(
                failure.message.as_str(),
            ),
            ConnectionError::SerialError(failure) => String::from_str("Serial port error: ").concat(
                failure.description.as_str(),
            ),
        }
    }
}

} // verus!
