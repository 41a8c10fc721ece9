//! The transport over a local serial device.

use crate::communication::error::{
    ConnectionError,
    ConnectionResult,
    IoKind,
    SerialErrorKind,
    SerialFailure,
};
use crate::communication::link::{
    complete_send,
    outgoing,
    react,
    release,
    step_matches,
    LinkState,
    ReactionView,
    ReadEvent,
    Reaction,
    ReceivePlan,
    ReceiveStep,
    Teardown,
};
use crate::models::connection::{DataBits, FlowControl, Parity, SerialConfig, StopBits};
use crate::text::{decimal, decimal_string, decode_lossy, hex4, hex4_string, lossy_utf8, same_text};
use vstd::prelude::*;

verus! {

/// What the host knows of a USB serial device.
#[derive(Debug)]
pub struct UsbDetails {
    pub vid: u16,
    pub pid: u16,
    pub serial_number: Option<String>,
    pub manufacturer: Option<String>,
    pub product: Option<String>,
}

/// How a serial device is attached to the host.
#[derive(Debug)]
pub enum PortKind {
    Usb(UsbDetails),
    Bluetooth,
    Pci,
    Unknown,
}

/// One serial device as the host's enumeration lists it.
#[derive(Debug)]
pub struct DetectedPort {
    pub port_name: String,
    pub kind: PortKind,
}

/// One serial device as it is shown to a user.
#[derive(Debug, Clone)]
pub struct SerialPortInfo {
    pub port_name: String,
    pub port_type: Option<String>,
    pub vid: Option<u16>,
    pub pid: Option<u16>,
    pub serial_number: Option<String>,
    pub manufacturer: Option<String>,
    pub product: Option<String>,
}

/// What the caller asks of the device layer to open a port. Reads on the
/// opened port are bounded by `timeout_ms`.
#[derive(Debug)]
pub struct SerialOpenRequest {
    pub port: String,
    pub baud_rate: u32,
    pub data_bits: DataBits,
    pub stop_bits: StopBits,
    pub parity: Parity,
    pub flow_control: FlowControl,
    pub timeout_ms: u64,
}

/// The names of the listed devices, in their order.
pub open spec fn names_of(ports: Seq<DetectedPort>) -> Seq<String> {
    ports.map_values(|p: DetectedPort| p.port_name)
}

/// A device named `name` is among the listed ones.
pub open spec fn is_listed(ports: Seq<DetectedPort>, name: Seq<char>) -> bool {
    exists|i: int| 0 <= i < ports.len() && (#[trigger] ports[i]).port_name@ == name
}

/// The text that tells how a device is attached, if that is known.
pub open spec fn kind_text(kind: PortKind) -> Option<Seq<char>> {
    match kind {
        PortKind::Usb(usb) => Some("USB VID:"@ + hex4(usb.vid) + " PID:"@ + hex4(usb.pid)),
        PortKind::Bluetooth => Some("Bluetooth"@),
        PortKind::Pci => Some("PCI"@),
        PortKind::Unknown => None,
    }
}

/// `info` shows the device `port`: its name, how it is attached and, for a
/// USB device, its identifiers and texts.
pub open spec fn describes(info: SerialPortInfo, port: DetectedPort) -> bool {
    &&& info.port_name == port.port_name
    &&& match kind_text(port.kind) {
        Some(text) => info.port_type.is_some() && info.port_type.unwrap()@ == text,
        None => info.port_type.is_none(),
    }
    &&& match port.kind {
        PortKind::Usb(usb) => {
            &&& info.vid == Some(usb.vid)
            &&& info.pid == Some(usb.pid)
            &&& info.serial_number == usb.serial_number
            &&& info.manufacturer == usb.manufacturer
            &&& info.product == usb.product
        },
        _ => {
            &&& info.vid.is_none()
            &&& info.pid.is_none()
            &&& info.serial_number.is_none()
            &&& info.manufacturer.is_none()
            &&& info.product.is_none()
        },
    }
}

/// The request that opens the port of `config`: its settings, with stop bits
/// and parity as the device layer knows them, and reads bounded by one
/// second.
pub open spec fn open_request_for(config: SerialConfig, request: SerialOpenRequest) -> bool {
    &&& request.port == config.port
    &&& request.baud_rate == config.baud_rate
    &&& request.data_bits == config.data_bits
    &&& request.stop_bits == config.stop_bits.device_setting()
    &&& request.parity == config.parity.device_setting()
    &&& request.flow_control == config.flow_control
    &&& request.timeout_ms == 1000
}

/// The error that a failure to open the port `port` becomes: a missing
/// device is `PortNotFound`, a refusal is `PermissionDenied`, anything else
/// stays a failure of the device layer.
pub open spec fn open_error(port: String, failure: SerialFailure) -> ConnectionError {
    match failure.kind {
        SerialErrorKind::NoDevice => ConnectionError::PortNotFound(port),
        SerialErrorKind::Io(IoKind::PermissionDenied) => ConnectionError::PermissionDenied,
        _ => ConnectionError::SerialError(failure),
    }
}

/// The digit of a number of data bits.
pub open spec fn data_bits_text(bits: DataBits) -> Seq<char> {
    match bits {
        DataBits::Five => "5"@,
        DataBits::Six => "6"@,
        DataBits::Seven => "7"@,
        DataBits::Eight => "8"@,
    }
}

/// The letter of a parity.
pub open spec fn parity_text(parity: Parity) -> Seq<char> {
    match parity {
        Parity::Off => "N"@,
        Parity::Even => "E"@,
        Parity::Odd => "O"@,
        Parity::Mark => "M"@,
        Parity::Space => "S"@,
    }
}

/// The numeral of a number of stop bits.
pub open spec fn stop_bits_text(bits: StopBits) -> Seq<char> {
    match bits {
        StopBits::One => "1"@,
        StopBits::OnePointFive => "1.5"@,
        StopBits::Two => "2"@,
    }
}

/// The summary of a serial endpoint.
pub open spec fn info_text(config: SerialConfig) -> Seq<char> {
    "Serial: "@ + config.port@ + " @ "@ + decimal(config.baud_rate as nat) + " baud, "@
        + data_bits_text(config.data_bits) + "-"@ + parity_text(config.parity) + "-"@
        + stop_bits_text(config.stop_bits)
}

/// What the receive loop of a serial transport does about a read. Bytes are
/// delivered as text; a zero-length read, a read that timed out and one that
/// would block are tried again; any other failure ends the loop with one
/// message.
pub open spec fn serial_reaction(event: ReadEvent) -> ReactionView {
    match event {
        ReadEvent::Bytes(bytes) => if bytes@.len() > 0 {
            ReactionView::Deliver(lossy_utf8(bytes@))
        } else {
            ReactionView::Continue
        },
        ReadEvent::TimedOut => ReactionView::Continue,
        ReadEvent::Failed(failure) => match failure.kind {
            IoKind::TimedOut | IoKind::WouldBlock => ReactionView::Continue,
            _ => ReactionView::Terminate("Error: "@ + failure.message@),
        },
    }
}

/// A copy of an optional text.
fn clone_text(text: &Option<String>) -> (r: Option<String>)
    ensures
        r == *text,
{
    match text {
        Some(s) => Some(s.clone()),
        None => None,
    }
}

/// The serial transport: the endpoint it was made for and the state of its
/// link.
#[derive(Debug)]
pub struct SerialHandler {
    config: SerialConfig,
    link: LinkState,
}

impl SerialHandler {
    /// The endpoint of this transport.
    pub closed spec fn settings(&self) -> SerialConfig {
        self.config
    }

    /// The state of the link.
    pub closed spec fn spec_link(&self) -> LinkState {
        self.link
    }

    /// The summary of the endpoint once the transport has been connected,
    /// and nothing before that.
    pub open spec fn info(&self) -> Option<Seq<char>> {
        if self.link() == LinkState::NeverConnected {
            None
        } else {
            Some(info_text(self.settings()))
        }
    }

    /// Whether the transport holds an open port.
    pub open spec fn spec_is_connected(&self) -> bool {
        self.link() == LinkState::Connected
    }

    /// A transport for `config`, without a port.
    pub fn new(config: SerialConfig) -> (r: Self)
        ensures
            r.settings() == config,
            r.link() == LinkState::NeverConnected,
    {
        SerialHandler { config, link: LinkState::NeverConnected }
    }

    /// The endpoint of this transport.
    pub fn config(&self) -> (r: &SerialConfig)
        ensures
            *r == self.settings(),
    {
        &self.config
    }

    /// The state of the link.
    #[verifier::when_used_as_spec(spec_link)]
    pub fn link(&self) -> (r: LinkState)
        ensures
            r == self.link(),
    {
        self.link
    }

    /// The names of the devices that an enumeration found, in its order. An
    /// enumeration that found nothing gives an empty list; one that failed
    /// gives the failure of the device layer.
    pub fn list_available_ports(scan: Result<Vec<DetectedPort>, SerialFailure>) -> (r:
        ConnectionResult<Vec<String>>)
        ensures
            scan matches Ok(ports) ==> r.is_ok() && r.unwrap()@ == names_of(ports@),
            scan matches Err(failure) ==> r == Err::<Vec<String>, ConnectionError>(
                ConnectionError::SerialError(failure),
            ),
    {
        match scan {
            Ok(ports) => {
                let mut names: Vec<String> = Vec::new();
                let n = ports.len();
                let mut i: usize = 0;
                while i < n
                    invariant
                        i <= n,
                        n == ports@.len(),
                        names@ == names_of(ports@.subrange(0, i as int)),
                    decreases n - i,
                {
                    names.push(ports[i].port_name.clone());
                    assert(names@ =~= names_of(ports@.subrange(0, i + 1)));
                    i = i + 1;
                }
                assert(ports@.subrange(0, n as int) =~= ports@);
                Ok(names)
            },
            Err(failure) => Err(ConnectionError::SerialError(failure)),
        }
    }

    /// Shows one listed device.
    pub fn describe_port(port: &DetectedPort) -> (r: SerialPortInfo)
        ensures
            describes(r, *port),
    {
        match &port.kind {
            PortKind::Usb(usb) => {
                let mut text = String::from_str("USB VID:");
                let vid = hex4_string(usb.vid);
                text.append(vid.as_str());
                text.append(" PID:");
                let pid = hex4_string(usb.pid);
                text.append(pid.as_str());
                SerialPortInfo {
                    port_name: port.port_name.clone(),
                    port_type: Some(text),
                    vid: Some(usb.vid),
                    pid: Some(usb.pid),
                    serial_number: clone_text(&usb.serial_number),
                    manufacturer: clone_text(&usb.manufacturer),
                    product: clone_text(&usb.product),
                }
            },
            PortKind::Bluetooth => SerialPortInfo {
                port_name: port.port_name.clone(),
                port_type: Some(String::from_str("Bluetooth")),
                vid: None,
                pid: None,
                serial_number: None,
                manufacturer: None,
                product: None,
            },
            PortKind::Pci => SerialPortInfo {
                port_name: port.port_name.clone(),
                port_type: Some(String::from_str("PCI")),
                vid: None,
                pid: None,
                serial_number: None,
                manufacturer: None,
                product: None,
            },
            PortKind::Unknown => SerialPortInfo {
                port_name: port.port_name.clone(),
                port_type: None,
                vid: None,
                pid: None,
                serial_number: None,
                manufacturer: None,
                product: None,
            },
        }
    }

    /// What is shown of the devices that an enumeration found, one entry for
    /// each device and in its order. An enumeration that failed gives the
    /// failure of the device layer.
    pub fn get_port_info(scan: Result<Vec<DetectedPort>, SerialFailure>) -> (r: ConnectionResult<
        Vec<SerialPortInfo>,
    >)
        ensures
            scan matches Ok(ports) ==> r.is_ok() && r.unwrap()@.len() == ports@.len() && forall|
                i: int,
            |
                0 <= i < ports@.len() ==> describes(#[trigger] r.unwrap()@[i], ports@[i]),
            scan matches Err(failure) ==> r == Err::<Vec<SerialPortInfo>, ConnectionError>(
                ConnectionError::SerialError(failure),
            ),
    {
        match scan {
            Ok(ports) => {
                let mut shown: Vec<SerialPortInfo> = Vec::new();
                let n = ports.len();
                let mut i: usize = 0;
                while i < n
                    invariant
                        i <= n,
                        n == ports@.len(),
                        shown@.len() == i,
                        forall|k: int| 0 <= k < i ==> describes(#[trigger] shown@[k], ports@[k]),
                    decreases n - i,
                {
                    shown.push(Self::describe_port(&ports[i]));
                    i = i + 1;
                }
                Ok(shown)
            },
            Err(failure) => Err(ConnectionError::SerialError(failure)),
        }
    }

    /// The request that opens the port of this transport.
    pub fn open_request(&self) -> (r: SerialOpenRequest)
        ensures
            open_request_for(self.settings(), r),
    {
        SerialOpenRequest {
            port: self.config.port.clone(),
            baud_rate: self.config.baud_rate,
            data_bits: self.config.data_bits,
            stop_bits: self.config.stop_bits.to_device(),
            parity: self.config.parity.to_device(),
            flow_control: self.config.flow_control,
            timeout_ms: 1000,
        }
    }

    /// Judges an attempt to open the port: an opened port is accepted, a
    /// failure is classified as `open_error` says.
    pub fn create_port(&self, opened: Result<(), SerialFailure>) -> (r: ConnectionResult<()>)
        ensures
            opened.is_ok() ==> r.is_ok(),
            opened matches Err(failure) ==> r == Err::<(), ConnectionError>(
                open_error(self.settings().port, failure),
            ),
    {
        match opened {
            Ok(_) => Ok(()),
            Err(failure) => match failure.kind {
                SerialErrorKind::NoDevice => Err(
                    ConnectionError::PortNotFound(self.config.port.clone()),
                ),
                SerialErrorKind::Io(IoKind::PermissionDenied) => Err(
                    ConnectionError::PermissionDenied,
                ),
                _ => Err(ConnectionError::SerialError(failure)),
            },
        }
    }

    /// Starts a connection attempt from an enumeration of the devices. The
    /// port must be among them: then the result is the request that opens
    /// it. A port that is not listed is `PortNotFound`; a failed enumeration
    /// is the failure of the device layer.
    pub fn prepare_connect(&self, scan: Result<Vec<DetectedPort>, SerialFailure>) -> (r:
        ConnectionResult<SerialOpenRequest>)
        ensures
            scan matches Ok(ports) ==> (if is_listed(ports@, self.settings().port@) {
                r.is_ok() && open_request_for(self.settings(), r.unwrap())
            } else {
                r == Err::<SerialOpenRequest, ConnectionError>(
                    ConnectionError::PortNotFound(self.settings().port),
                )
            }),
            scan matches Err(failure) ==> r == Err::<SerialOpenRequest, ConnectionError>(
                ConnectionError::SerialError(failure),
            ),
    {
        match scan {
            Ok(ports) => {
                let n = ports.len();
                let mut i: usize = 0;
                let mut found = false;
                while i < n && !found
                    invariant
                        i <= n,
                        n == ports@.len(),
                        found ==> is_listed(ports@, self.settings().port@),
                        !found ==> forall|k: int|
                            0 <= k < i ==> (#[trigger] ports@[k]).port_name@
                                != self.settings().port@,
                    decreases n - i + (if found { 0int } else { 1int }),
                {
                    if ports[i].port_name == self.config.port {
                        found = true;
                    } else {
                        i = i + 1;
                    }
                }
                if found {
                    Ok(self.open_request())
                } else {
                    Err(ConnectionError::PortNotFound(self.config.port.clone()))
                }
            },
            Err(failure) => Err(ConnectionError::SerialError(failure)),
        }
    }

    /// Ends a connection attempt with what opening the port gave. On an
    /// opened port the transport is connected; otherwise the error of
    /// `create_port` is returned and the link stays as it was.
    pub fn connect(&mut self, opened: Result<(), SerialFailure>) -> (r: ConnectionResult<()>)
        ensures
            final(self).settings() == old(self).settings(),
            opened.is_ok() ==> r.is_ok() && final(self).link() == LinkState::Connected,
            opened matches Err(failure) ==> final(self).link() == old(self).link() && r == Err::<
                (),
                ConnectionError,
            >(open_error(old(self).settings().port, failure)),
    {
        let result = self.create_port(opened);
        if result.is_ok() {
            self.link = LinkState::Connected;
        }
        result
    }

    /// Gives up the port. This always succeeds; the result says whether a
    /// port was held, which the caller then flushes and closes.
    pub fn disconnect(&mut self) -> (r: ConnectionResult<Teardown>)
        ensures
            final(self).settings() == old(self).settings(),
            final(self).link() == old(self).link().released(),
            !final(self).spec_is_connected(),
            r == Ok::<Teardown, ConnectionError>(
                if old(self).spec_is_connected() {
                    Teardown::FlushAndClose
                } else {
                    Teardown::Nothing
                },
            ),
    {
        Ok(release(&mut self.link))
    }

    /// The bytes that a send writes to the port before it flushes: `data` as
    /// it is. Without a port the send fails with `ConnectionClosed`.
    pub fn send(&self, data: &[u8]) -> (r: ConnectionResult<Vec<u8>>)
        ensures
            self.spec_is_connected() ==> r.is_ok() && r.unwrap()@ == data@,
            !self.spec_is_connected() ==> r == Err::<Vec<u8>, ConnectionError>(
                ConnectionError::ConnectionClosed,
            ),
    {
        outgoing(self.link, data)
    }

    /// The result of a send after the port wrote and flushed, or failed at
    /// either: a failure is a `SendFailed` with its detail. The link is not
    /// touched.
    pub fn finish_send(&self, written: Result<(), String>) -> (r: ConnectionResult<()>)
        ensures
            written.is_ok() ==> r.is_ok(),
            written.is_err() ==> r == Err::<(), ConnectionError>(
                ConnectionError::SendFailed(written.unwrap_err()),
            ),
    {
        complete_send(written)
    }

    /// How the receive loop of this transport reads.
    pub fn start_receive_loop(&self) -> (r: ConnectionResult<ReceivePlan>)
        ensures
            r == Ok::<ReceivePlan, ConnectionError>(ReceivePlan::standard()),
    {
        Ok(ReceivePlan::new())
    }

    /// Classifies one read of the receive loop.
    pub fn classify_read(event: ReadEvent) -> (r: Reaction)
        ensures
            r@ == serial_reaction(event),
    {
        match event {
            ReadEvent::Bytes(bytes) => {
                if bytes.len() > 0 {
                    Reaction::Deliver(decode_lossy(bytes.as_slice()))
                } else {
                    Reaction::Continue
                }
            },
            ReadEvent::TimedOut => Reaction::Continue,
            ReadEvent::Failed(failure) => match failure.kind {
                IoKind::TimedOut | IoKind::WouldBlock => Reaction::Continue,
                _ => Reaction::Terminate(
                    String::from_str("Error: ").concat(failure.message.as_str()),
                ),
            },
        }
    }

    /// One turn of the receive loop: takes what a bounded read gave and says
    /// what is delivered and whether the loop ends. A transport that is not
    /// connected delivers nothing and ends the loop.
    pub fn receive_step(&mut self, event: ReadEvent) -> (step: ReceiveStep)
        ensures
            final(self).settings() == old(self).settings(),
            step_matches(old(self).link(), serial_reaction(event), final(self).link(), step),
    {
        let reaction = Self::classify_read(event);
        react(&mut self.link, reaction)
    }

    /// Whether the transport holds an open port.
    #[verifier::when_used_as_spec(spec_is_connected)]
    pub fn is_connected(&self) -> (r: bool)
        ensures
            r == self.spec_is_connected(),
    {
        match self.link {
            LinkState::Connected => true,
            _ => false,
        }
    }

    /// A summary of the endpoint, once the transport has been connected;
    /// nothing before that.
    pub fn get_connection_info(&self) -> (r: Option<String>)
        ensures
            same_text(r, self.info()),
    {
        match self.link {
            LinkState::NeverConnected => None,
            _ => {
                let mut text = String::from_str("Serial: ");
                text.append(self.config.port.as_str());
                text.append(" @ ");
                let baud = decimal_string(self.config.baud_rate as u64);
                text.append(baud.as_str());
                text.append(" baud, ");
                text.append(
                    match self.config.data_bits {
                        DataBits::Five => "5",
                        DataBits::Six => "6",
                        DataBits::Seven => "7",
                        DataBits::Eight => "8",
                    },
                );
                text.append("-");
                text.append(
                    match self.config.parity {
                        Parity::Off => "N",
                        Parity::Even => "E",
                        Parity::Odd => "O",
                        Parity::Mark => "M",
                        Parity::Space => "S",
                    },
                );
                text.append("-");
                text.append(
                    match self.config.stop_bits {
                        StopBits::One => "1",
                        StopBits::OnePointFive => "1.5",
                        StopBits::Two => "2",
                    },
                );
                Some(text)
            },
        }
    }
}

} // verus!
