//! Connection endpoints and their settings.

use crate::stamp::{fresh_id, Timestamp};
use vstd::prelude::*;

verus! {

/// Which medium a configuration selects.
#[derive(Debug, Clone, Copy, PartialEq, Eq, Structural)]
pub enum ConnectionType {
    Serial,
    Tcp,
}

/// Number of data bits per character on a serial line.
#[derive(Debug, Clone, Copy, PartialEq, Eq, Structural)]
pub enum DataBits {
    Five,
    Six,
    Seven,
    Eight,
}

/// Number of stop bits on a serial line.
#[derive(Debug, Clone, Copy, PartialEq, Eq, Structural)]
pub enum StopBits {
    One,
    OnePointFive,
    Two,
}

/// Parity checking on a serial line.
#[derive(Debug, Clone, Copy, PartialEq, Eq, Structural)]
pub enum Parity {
    Off,
    Even,
    Odd,
    Mark,
    Space,
}

/// Flow control on a serial line.
#[derive(Debug, Clone, Copy, PartialEq, Eq, Structural)]
pub enum FlowControl {
    Off,
    Software,
    Hardware,
}

/// What a front end shows as the state of a connection.
#[derive(Debug, Clone, Copy, PartialEq, Eq, Structural)]
pub enum ConnectionStatus {
    Disconnected,
    Connecting,
    Connected,
    Error,
}

impl StopBits {
    /// The setting handed to the device layer, which knows one and two stop
    /// bits only: one and a half is rounded up to two.
    pub open spec fn device_setting(self) -> StopBits {
        match self {
            StopBits::One => StopBits::One,
            StopBits::OnePointFive => StopBits::Two,
            StopBits::Two => StopBits::Two,
        }
    }

    /// The stop bits that the device layer is asked for.
    pub fn to_device(self) -> (r: StopBits)
        ensures
            r == self.device_setting(),
            r != StopBits::OnePointFive,
    {
        match self {
            StopBits::One => StopBits::One,
            StopBits::OnePointFive => StopBits::Two,
            StopBits::Two => StopBits::Two,
        }
    }
}

impl Parity {
    /// The setting handed to the device layer, which knows no, even and odd
    /// parity only: mark and space fall back to no parity.
    pub open spec fn device_setting(self) -> Parity {
        match self {
            Parity::Off => Parity::Off,
            Parity::Even => Parity::Even,
            Parity::Odd => Parity::Odd,
            Parity::Mark => Parity::Off,
            Parity::Space => Parity::Off,
        }
    }

    /// The parity that the device layer is asked for.
    pub fn to_device(self) -> (r: Parity)
        ensures
            r == self.device_setting(),
            r != Parity::Mark,
            r != Parity::Space,
    {
        match self {
            Parity::Off => Parity::Off,
            Parity::Even => Parity::Even,
            Parity::Odd => Parity::Odd,
            Parity::Mark => Parity::Off,
            Parity::Space => Parity::Off,
        }
    }
}

/// Settings of a serial endpoint.
#[derive(Debug)]
pub struct SerialConfig {
    pub port: String,
    pub baud_rate: u32,
    pub data_bits: DataBits,
    pub stop_bits: StopBits,
    pub parity: Parity,
    pub flow_control: FlowControl,
}

impl Clone for SerialConfig {
    fn clone(&self) -> (r: Self)
        ensures
            r == *self,
    {
        SerialConfig {
            port: self.port.clone(),
            baud_rate: self.baud_rate,
            data_bits: self.data_bits,
            stop_bits: self.stop_bits,
            parity: self.parity,
            flow_control: self.flow_control,
        }
    }
}

impl SerialConfig {
    /// The settings that a fresh installation starts with.
    pub open spec fn is_default(&self) -> bool {
        &&& self.port@.len() == 0
        &&& self.baud_rate == 115200
        &&& self.data_bits == DataBits::Eight
        &&& self.stop_bits == StopBits::One
        &&& self.parity == Parity::Off
        &&& self.flow_control == FlowControl::Off
    }
}

impl Default for SerialConfig {
    fn default() -> (r: Self)
        ensures
            r.is_default(),
    {
        SerialConfig {
            port: String::new(),
            baud_rate: 115200,
            data_bits: DataBits::Eight,
            stop_bits: StopBits::One,
            parity: Parity::Off,
            flow_control: FlowControl::Off,
        }
    }
}

/// Settings of a TCP endpoint. The connection timeout is held in whole
/// milliseconds.
#[derive(Debug)]
pub struct TcpConfig {
    pub host: String,
    pub port: u16,
    pub timeout_ms: u64,
    pub keep_alive: bool,
}

impl Clone for TcpConfig {
    fn clone(&self) -> (r: Self)
        ensures
            r == *self,
    {
        TcpConfig {
            host: self.host.clone(),
            port: self.port,
            timeout_ms: self.timeout_ms,
            keep_alive: self.keep_alive,
        }
    }
}

impl TcpConfig {
    /// The settings that a fresh installation starts with.
    pub open spec fn is_default(&self) -> bool {
        &&& self.host@ == "127.0.0.1"@
        &&& self.port == 8080
        &&& self.timeout_ms == 5000
        &&& self.keep_alive
    }
}

impl Default for TcpConfig {
    fn default() -> (r: Self)
        ensures
            r.is_default(),
    {
        TcpConfig {
            host: String::from_str("127.0.0.1"),
            port: 8080,
            timeout_ms: 5000,
            keep_alive: true,
        }
    }
}

/// A named endpoint: a tag and, for each medium, settings that may be absent.
#[derive(Debug)]
pub struct ConnectionConfig {
    pub id: String,
    pub name: String,
    pub connection_type: ConnectionType,
    pub serial_config: Option<SerialConfig>,
    pub tcp_config: Option<TcpConfig>,
    pub created_at: Timestamp,
    pub updated_at: Timestamp,
}

impl Clone for ConnectionConfig {
    fn clone(&self) -> (r: Self)
        ensures
            r == *self,
    {
        ConnectionConfig {
            id: self.id.clone(),
            name: self.name.clone(),
            connection_type: self.connection_type,
            serial_config: match &self.serial_config {
                Some(c) => Some(c.clone()),
                None => None,
            },
            tcp_config: match &self.tcp_config {
                Some(c) => Some(c.clone()),
                None => None,
            },
            created_at: self.created_at,
            updated_at: self.updated_at,
        }
    }
}

impl ConnectionConfig {
    /// The settings that the tag selects are present.
    pub open spec fn has_selected_payload(&self) -> bool {
        match self.connection_type {
            ConnectionType::Serial => self.serial_config.is_some(),
            ConnectionType::Tcp => self.tcp_config.is_some(),
        }
    }

    /// The tag and the settings agree: the selected settings are present and
    /// the others are absent.
    pub open spec fn is_consistent(&self) -> bool {
        match self.connection_type {
            ConnectionType::Serial => self.serial_config.is_some() && self.tcp_config.is_none(),
            ConnectionType::Tcp => self.tcp_config.is_some() && self.serial_config.is_none(),
        }
    }

    /// A serial endpoint under a fresh identifier, created now.
    pub fn new_serial(name: String, serial_config: SerialConfig) -> (r: Self)
        ensures
            r.name == name,
            r.connection_type == ConnectionType::Serial,
            r.serial_config == Some(serial_config),
            r.tcp_config.is_none(),
            r.created_at == r.updated_at,
            r.id@.len() == 36,
            r.is_consistent(),
    {
        let now = Timestamp::now();
        ConnectionConfig {
            id: fresh_id(),
            name,
            connection_type: ConnectionType::Serial,
            serial_config: Some(serial_config),
            tcp_config: None,
            created_at: now,
            updated_at: now,
        }
    }

    /// A TCP endpoint under a fresh identifier, created now.
    pub fn new_tcp(name: String, tcp_config: TcpConfig) -> (r: Self)
        ensures
            r.name == name,
            r.connection_type == ConnectionType::Tcp,
            r.tcp_config == Some(tcp_config),
            r.serial_config.is_none(),
            r.created_at == r.updated_at,
            r.id@.len() == 36,
            r.is_consistent(),
    {
        let now = Timestamp::now();
        ConnectionConfig {
            id: fresh_id(),
            name,
            connection_type: ConnectionType::Tcp,
            serial_config: None,
            tcp_config: Some(tcp_config),
            created_at: now,
            updated_at: now,
        }
    }

    /// Whether the tag and the settings agree.
    pub fn check_consistent(&self) -> (r: bool)
        ensures
            r == self.is_consistent(),
    {
        match self.connection_type {
            ConnectionType::Serial => self.serial_config.is_some() && self.tcp_config.is_none(),
            ConnectionType::Tcp => self.tcp_config.is_some() && self.serial_config.is_none(),
        }
    }
}

} // verus!
