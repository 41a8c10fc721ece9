//! Data carried between the transports, the manager and their callers.

pub mod connection;
pub mod settings;
pub mod terminal;

pub use connection::{
    ConnectionConfig, ConnectionStatus, ConnectionType, DataBits, FlowControl, Parity,
    SerialConfig, StopBits, TcpConfig,
};
pub use settings::{
    AppConfig, AppTheme, KeyboardShortcuts, LogLevel, LoggingConfig, ProfileGroup, ProfileManager,
    SecurityConfig, WindowConfig,
};
pub use terminal::{
    CommandHistory, LineEnding, MessageDirection, TerminalConfig, TerminalMessage, TerminalTheme,
};
