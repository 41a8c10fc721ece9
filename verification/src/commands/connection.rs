//! Connecting, disconnecting and sending, as seen from a front end.

use crate::communication::error::{ConnectionError, ConnectionResult, SerialFailure};
use crate::communication::manager::ConnectionManager;
use crate::communication::serial::{describes, names_of, DetectedPort, SerialHandler};
use crate::models::connection::{
    ConnectionConfig,
    ConnectionType,
    DataBits,
    FlowControl,
    Parity,
    SerialConfig,
    StopBits,
    TcpConfig,
};
use crate::stamp::Timestamp;
use crate::text::same_text;
use vstd::prelude::*;

verus! {

/// The answer to a front end: either data or the text of an error.
#[derive(Debug)]
pub struct ApiResponse<T> {
    pub success: bool,
    pub data: Option<T>,
    pub error: Option<String>,
}

impl<T> ApiResponse<T> {
    /// This answer reports success and carries data.
    pub open spec fn is_success(&self) -> bool {
        self.success && self.data.is_some() && self.error.is_none()
    }

    /// This answer reports success with `data`.
    pub open spec fn is_success_with(&self, data: T) -> bool {
        self.success && self.data == Some(data) && self.error.is_none()
    }

    /// This answer reports the failure `message`.
    pub open spec fn is_error_with(&self, message: Seq<char>) -> bool {
        !self.success && self.data.is_none() && self.error.is_some()
            && self.error.unwrap()@ == message
    }

    /// An answer that carries data.
    pub fn success(data: T) -> (r: Self)
        ensures
            r.is_success_with(data),
    {
        ApiResponse { success: true, data: Some(data), error: None }
    }

    /// An answer that carries the text of an error.
    pub fn error(message: String) -> (r: Self)
        ensures
            !r.success,
            r.data.is_none(),
            r.error == Some(message),
    {
        ApiResponse { success: false, data: None, error: Some(message) }
    }
}

impl ApiResponse<String> {
    /// This answer reports success with the text `text`.
    pub open spec fn is_success_with_text(&self, text: Seq<char>) -> bool {
        self.success && self.data.is_some() && self.data.unwrap()@ == text && self.error.is_none()
    }
}

/// One serial device as a front end receives it.
#[derive(Debug, Clone)]
pub struct SerialPortInfo {
    pub port_name: String,
    pub port_type: Option<String>,
    pub vid: Option<u16>,
    pub pid: Option<u16>,
    pub serial_number: Option<String>,
    pub manufacturer: Option<String>,
    pub product: Option<String>,
}

impl SerialPortInfo {
    /// The same device as the transport shows it.
    pub open spec fn shown(&self) -> crate::communication::serial::SerialPortInfo {
        crate::communication::serial::SerialPortInfo {
            port_name: self.port_name,
            port_type: self.port_type,
            vid: self.vid,
            pid: self.pid,
            serial_number: self.serial_number,
            manufacturer: self.manufacturer,
            product: self.product,
        }
    }

    /// Takes over what the transport shows of a device.
    pub fn from_shown(info: crate::communication::serial::SerialPortInfo) -> (r: Self)
        ensures
            r.shown() == info,
    {
        SerialPortInfo {
            port_name: info.port_name,
            port_type: info.port_type,
            vid: info.vid,
            pid: info.pid,
            serial_number: info.serial_number,
            manufacturer: info.manufacturer,
            product: info.product,
        }
    }
}

/// A connection as a front end describes it: the kind is `serial` or `tcp`,
/// and the fields of the other kind are left out.
#[derive(Debug, Clone)]
pub struct FrontendConnectionConfig {
    pub id: String,
    pub name: String,
    pub connection_type: String,
    pub serial_port: Option<String>,
    pub baud_rate: Option<u32>,
    pub host: Option<String>,
    pub port: Option<u16>,
}

/// The baud rate where the front end names none.
pub open spec fn baud_rate_or_default(baud_rate: Option<u32>) -> u32 {
    match baud_rate {
        Some(rate) => rate,
        None => 115200,
    }
}

impl FrontendConnectionConfig {
    /// Why this description cannot become a configuration, if it cannot.
    pub open spec fn refusal(&self) -> Option<Seq<char>> {
        if self.connection_type@ == "serial"@ {
            if self.serial_port.is_none() {
                Some("シリアルポートが指定されていません"@)
            } else {
                None
            }
        } else if self.connection_type@ == "tcp"@ {
            if self.host.is_none() {
                Some("ホストが指定されていません"@)
            } else if self.port.is_none() {
                Some("ポートが指定されていません"@)
            } else {
                None
            }
        } else {
            Some("サポートされていない接続タイプです: "@ + self.connection_type@)
        }
    }

    /// `config` is what this description stands for: the same identifier and
    /// name, and either serial settings with eight data bits, one stop bit,
    /// no parity and no flow control, or TCP settings with a bound of five
    /// seconds and keep-alive.
    pub open spec fn stands_for(&self, config: ConnectionConfig) -> bool {
        &&& config.id == self.id
        &&& config.name == self.name
        &&& config.created_at == config.updated_at
        &&& config.is_consistent()
        &&& if self.connection_type@ == "serial"@ {
            &&& config.connection_type == ConnectionType::Serial
            &&& config.serial_config == Some(
                SerialConfig {
                    port: self.serial_port.unwrap(),
                    baud_rate: baud_rate_or_default(self.baud_rate),
                    data_bits: DataBits::Eight,
                    stop_bits: StopBits::One,
                    parity: Parity::Off,
                    flow_control: FlowControl::Off,
                },
            )
        } else {
            &&& config.connection_type == ConnectionType::Tcp
            &&& config.tcp_config == Some(
                TcpConfig {
                    host: self.host.unwrap(),
                    port: self.port.unwrap(),
                    timeout_ms: 5000,
                    keep_alive: true,
                },
            )
        }
    }

    /// The configuration that this description stands for, or the reason why
    /// it stands for none: an unknown kind, or a missing serial port, host
    /// or port.
    pub fn to_backend_config(self) -> (r: Result<ConnectionConfig, String>)
        ensures
            self.refusal().is_none() == r.is_ok(),
            r matches Ok(config) ==> self.stands_for(config),
            r matches Err(reason) ==> self.refusal() == Some(reason@),
    {
        let now = Timestamp::now();
        if self.connection_type == String::from_str("serial") {
            match self.serial_port {
                None => Err(String::from_str("シリアルポートが指定されていません")),
                Some(serial_port) => {
                    let baud_rate = match self.baud_rate {
                        Some(rate) => rate,
                        None => 115200,
                    };
                    let serial_config = SerialConfig {
                        port: serial_port,
                        baud_rate,
                        data_bits: DataBits::Eight,
                        stop_bits: StopBits::One,
                        parity: Parity::Off,
                        flow_control: FlowControl::Off,
                    };
                    Ok(
                        ConnectionConfig {
                            id: self.id,
                            name: self.name,
                            connection_type: ConnectionType::Serial,
                            serial_config: Some(serial_config),
                            tcp_config: None,
                            created_at: now,
                            updated_at: now,
                        },
                    )
                },
            }
        } else if self.connection_type == String::from_str("tcp") {
            match self.host {
                None => Err(String::from_str("ホストが指定されていません")),
                Some(host) => match self.port {
                    None => Err(String::from_str("ポートが指定されていません")),
                    Some(port) => {
                        let tcp_config = TcpConfig {
                            host,
                            port,
                            timeout_ms: 5000,
                            keep_alive: true,
                        };
                        Ok(
                            ConnectionConfig {
                                id: self.id,
                                name: self.name,
                                connection_type: ConnectionType::Tcp,
                                serial_config: None,
                                tcp_config: Some(tcp_config),
                                created_at: now,
                                updated_at: now,
                            },
                        )
                    },
                },
            }
        } else {
            Err(
                String::from_str("サポートされていない接続タイプです: ").concat(
                    self.connection_type.as_str(),
                ),
            )
        }
    }
}

/// What a front end is told when the state of the connection changes.
#[derive(Debug)]
pub struct StatusEvent {
    pub status: String,
    pub detail: String,
}

impl StatusEvent {
    /// This event tells of the state `status` with the detail `detail`.
    pub open spec fn tells(&self, status: Seq<char>, detail: Seq<char>) -> bool {
        self.status@ == status && self.detail@ == detail
    }
}

/// The answer to a request together with the event to emit, if any.
#[derive(Debug)]
pub struct DeviceReport {
    pub response: ApiResponse<String>,
    pub event: Option<StatusEvent>,
}

/// The hand-off of the message receiver to the forwarding task: it happens
/// once, and whoever asks first gets it.
#[derive(Debug)]
pub struct ForwardingGuard {
    pub taken: bool,
}

impl ForwardingGuard {
    /// A guard whose receiver has not been handed off.
    pub fn new() -> (r: Self)
        ensures
            !r.taken,
    {
        ForwardingGuard { taken: false }
    }

    /// Asks for the receiver. True for the first caller, who then starts the
    /// forwarding task; false ever after.
    pub fn start_message_handling(&mut self) -> (r: bool)
        ensures
            r == !old(self).taken,
            final(self).taken,
    {
        let first = !self.taken;
        self.taken = true;
        first
    }
}

/// The answer to a request for the names of the serial ports: the names, or
/// the text of the failure of the enumeration.
pub fn get_serial_ports(scan: Result<Vec<DetectedPort>, SerialFailure>) -> (r: ApiResponse<
    Vec<String>,
>)
    ensures
        scan matches Ok(ports) ==> r.is_success()
            && r.data.unwrap()@ == names_of(ports@),
        scan matches Err(failure) ==> r.is_error_with(
            ConnectionError::SerialError(failure).message(),
        ),
{
    match SerialHandler::list_available_ports(scan) {
        Ok(ports) => ApiResponse::success(ports),
        Err(e) => ApiResponse::error(e.to_string()),
    }
}

/// The answer to a request for the details of the serial ports: one entry
/// for each port, or the text of the failure of the enumeration.
pub fn get_serial_ports_info(scan: Result<Vec<DetectedPort>, SerialFailure>) -> (r: ApiResponse<
    Vec<SerialPortInfo>,
>)
    ensures
        scan matches Ok(ports) ==> r.is_success()
            && r.data.unwrap()@.len() == ports@.len() && forall|i: int|
            0 <= i < ports@.len() ==> describes(
                (#[trigger] r.data.unwrap()@[i]).shown(),
                ports@[i],
            ),
        scan matches Err(failure) ==> r.is_error_with(
            ConnectionError::SerialError(failure).message(),
        ),
{
    match SerialHandler::get_port_info(scan) {
        Ok(mut info) => {
            let mut shown: Vec<SerialPortInfo> = Vec::new();
            let n = info.len();
            let ghost all = info@;
            while info.len() > 0
                invariant
                    n == all.len(),
                    info@.len() <= n,
                    info@ == all.subrange(0, info@.len() as int),
                    shown@.len() == n - info@.len(),
                    forall|k: int|
                        0 <= k < shown@.len() ==> (#[trigger] shown@[k]).shown() == all[n - 1 - k],
                decreases info@.len(),
            {
                let last = info.pop();
                match last {
                    Some(entry) => {
                        shown.push(SerialPortInfo::from_shown(entry));
                    },
                    None => {},
                }
            }
            let mut ordered: Vec<SerialPortInfo> = Vec::new();
            while shown.len() > 0
                invariant
                    shown@.len() <= n,
                    n == all.len(),
                    ordered@.len() == n - shown@.len(),
                    forall|k: int|
                        0 <= k < shown@.len() ==> (#[trigger] shown@[k]).shown() == all[n - 1 - k],
                    forall|k: int|
                        0 <= k < ordered@.len() ==> (#[trigger] ordered@[k]).shown() == all[k],
                decreases shown@.len(),
            {
                let last = shown.pop();
                match last {
                    Some(entry) => {
                        ordered.push(entry);
                    },
                    None => {},
                }
            }
            ApiResponse::success(ordered)
        },
        Err(e) => ApiResponse::error(e.to_string()),
    }
}

/// The text that a successful connect reports: the summary of the endpoint,
/// or `Connected` where there is none.
pub open spec fn connected_text(info: Option<Seq<char>>) -> Seq<char> {
    match info {
        Some(text) => text,
        None => "Connected"@,
    }
}

/// What a front end hears of a connect: after a success the summary of the
/// endpoint and the event `connected` with the name of the connection; after
/// a failure the text of the error, as answer and as the event `error`.
pub fn connect_device(manager: &ConnectionManager, name: &str, result: &ConnectionResult<()>) -> (r:
    DeviceReport)
    ensures
        (match result {
            Ok(_) => {
                &&& r.response.is_success_with_text(connected_text(manager.info()))
                &&& r.event.is_some()
                &&& r.event.unwrap().tells("connected"@, name@)
            },
            Err(e) => {
                &&& r.response.is_error_with(e.message())
                &&& r.event.is_some()
                &&& r.event.unwrap().tells("error"@, e.message())
            },
        }),
{
    match result {
        Ok(_) => {
            let info = match manager.get_connection_info() {
                Some(text) => text,
                None => String::from_str("Connected"),
            };
            DeviceReport {
                response: ApiResponse::success(info),
                event: Some(
                    StatusEvent {
                        status: String::from_str("connected"),
                        detail: String::from_str(name),
                    },
                ),
            }
        },
        Err(e) => DeviceReport {
            response: ApiResponse::error(e.to_string()),
            event: Some(StatusEvent { status: String::from_str("error"), detail: e.to_string() }),
        },
    }
}

/// What a front end hears of a disconnect: after a success the answer
/// `Disconnected` and the event `disconnected`; after a failure the text of
/// the error and no event.
pub fn disconnect_device<T>(result: &ConnectionResult<T>) -> (r: DeviceReport)
    ensures
        (match result {
            Ok(_) => {
                &&& r.response.is_success_with_text("Disconnected"@)
                &&& r.event.is_some()
                &&& r.event.unwrap().tells("disconnected"@, ""@)
            },
            Err(e) => {
                &&& r.response.is_error_with(e.message())
                &&& r.event.is_none()
            },
        }),
{
    match result {
        Ok(_) => DeviceReport {
            response: ApiResponse::success(String::from_str("Disconnected")),
            event: Some(
                StatusEvent {
                    status: String::from_str("disconnected"),
                    detail: String::from_str(""),
                },
            ),
        },
        Err(e) => DeviceReport { response: ApiResponse::error(e.to_string()), event: None },
    }
}

/// What a front end hears of a send: `Message sent`, or the text of the
/// error.
pub fn send_message(result: &ConnectionResult<()>) -> (r: ApiResponse<String>)
    ensures
        result.is_ok() ==> r.is_success_with_text("Message sent"@),
        result matches Err(e) ==> r.is_error_with(e.message()),
{
    match result {
        Ok(_) => ApiResponse::success(String::from_str("Message sent")),
        Err(e) => ApiResponse::error(e.to_string()),
    }
}

/// Whether the manager's transport holds a live medium, as an answer.
pub fn get_connection_status(manager: &ConnectionManager) -> (r: ApiResponse<bool>)
    ensures
        r.is_success_with(manager.spec_is_connected()),
{
    ApiResponse::success(manager.is_connected())
}

/// The summary of the manager's endpoint, as an answer.
pub fn get_connection_info(manager: &ConnectionManager) -> (r: ApiResponse<Option<String>>)
    ensures
        r.is_success(),
        same_text(r.data.unwrap(), manager.info()),
{
    ApiResponse::success(manager.get_connection_info())
}

} // verus!
