use terminal_transport::communication::serial::{
    DetectedPort, PortKind, SerialHandler, UsbDetails,
};
use terminal_transport::communication::{
    ConnectionError, IoFailure, IoKind, LinkState, ReadEvent, SerialErrorKind, SerialFailure,
    Teardown,
};
use terminal_transport::models::connection::{
    DataBits, FlowControl, Parity, SerialConfig, StopBits,
};

fn config(port: &str) -> SerialConfig {
    SerialConfig {
        port: port.to_string(),
        baud_rate: 9600,
        data_bits: DataBits::Seven,
        stop_bits: StopBits::OnePointFive,
        parity: Parity::Mark,
        flow_control: FlowControl::Hardware,
    }
}

fn port(name: &str, kind: PortKind) -> DetectedPort {
    DetectedPort {
        port_name: name.to_string(),
        kind,
    }
}

fn serial_failure(kind: SerialErrorKind, description: &str) -> SerialFailure {
    SerialFailure {
        kind,
        description: description.to_string(),
    }
}

fn connected(port_name: &str) -> SerialHandler {
    let mut handler = SerialHandler::new(config(port_name));
    assert!(handler.connect(Ok(())).is_ok());
    handler
}

#[test]
fn no_attached_devices_is_an_empty_list() {
    let names = SerialHandler::list_available_ports(Ok(Vec::new()));
    assert_eq!(names.unwrap(), Vec::<String>::new());
    let info = SerialHandler::get_port_info(Ok(Vec::new()));
    assert!(info.unwrap().is_empty());
}

#[test]
fn port_names_keep_their_order() {
    let names = SerialHandler::list_available_ports(Ok(vec![
        port("COM7", PortKind::Unknown),
        port("COM1", PortKind::Pci),
        port("COM3", PortKind::Bluetooth),
    ]));
    assert_eq!(names.unwrap(), vec!["COM7", "COM1", "COM3"]);
}

#[test]
fn failed_enumeration_is_a_serial_error() {
    match SerialHandler::list_available_ports(Err(serial_failure(
        SerialErrorKind::Unknown,
        "udev missing",
    ))) {
        Err(ConnectionError::SerialError(f)) => {
            assert_eq!(f.kind, SerialErrorKind::Unknown);
            assert_eq!(f.description, "udev missing");
        }
        other => panic!("unexpected result: {:?}", other),
    }
    assert!(matches!(
        SerialHandler::get_port_info(Err(serial_failure(SerialErrorKind::NoDevice, "gone"))),
        Err(ConnectionError::SerialError(_))
    ));
}

#[test]
fn port_info_by_kind() {
    let usb = PortKind::Usb(UsbDetails {
        vid: 0x0403,
        pid: 0x6001,
        serial_number: Some("A50285BI".to_string()),
        manufacturer: Some("FTDI".to_string()),
        product: None,
    });
    let info = SerialHandler::get_port_info(Ok(vec![
        port("COM1", usb),
        port("COM2", PortKind::Pci),
        port("COM3", PortKind::Bluetooth),
        port("COM4", PortKind::Unknown),
    ]))
    .unwrap();
    assert_eq!(info.len(), 4);
    assert_eq!(info[0].port_name, "COM1");
    assert_eq!(info[0].port_type, Some("USB VID:0403 PID:6001".to_string()));
    assert_eq!(info[0].vid, Some(0x0403));
    assert_eq!(info[0].pid, Some(0x6001));
    assert_eq!(info[0].serial_number, Some("A50285BI".to_string()));
    assert_eq!(info[0].manufacturer, Some("FTDI".to_string()));
    assert_eq!(info[0].product, None);
    assert_eq!(info[1].port_type, Some("PCI".to_string()));
    assert_eq!(info[1].vid, None);
    assert_eq!(info[1].serial_number, None);
    assert_eq!(info[2].port_type, Some("Bluetooth".to_string()));
    assert_eq!(info[3].port_name, "COM4");
    assert_eq!(info[3].port_type, None);
    let high = SerialHandler::describe_port(&port(
        "COM9",
        PortKind::Usb(UsbDetails {
            vid: 0xFFFF,
            pid: 0x00AB,
            serial_number: None,
            manufacturer: None,
            product: None,
        }),
    ));
    assert_eq!(high.port_type, Some("USB VID:FFFF PID:00AB".to_string()));
}

#[test]
fn connect_needs_a_listed_port() {
    let handler = SerialHandler::new(config("COM3"));
    match handler.prepare_connect(Ok(vec![port("COM1", PortKind::Unknown)])) {
        Err(ConnectionError::PortNotFound(name)) => assert_eq!(name, "COM3"),
        other => panic!("unexpected result: {:?}", other),
    }
    match handler.prepare_connect(Ok(Vec::new())) {
        Err(ConnectionError::PortNotFound(name)) => assert_eq!(name, "COM3"),
        other => panic!("unexpected result: {:?}", other),
    }
    assert!(matches!(
        handler.prepare_connect(Err(serial_failure(SerialErrorKind::Unknown, "x"))),
        Err(ConnectionError::SerialError(_))
    ));
    let request = handler
        .prepare_connect(Ok(vec![
            port("COM1", PortKind::Unknown),
            port("COM3", PortKind::Pci),
        ]))
        .unwrap();
    assert_eq!(request.port, "COM3");
    assert_eq!(request.baud_rate, 9600);
    assert_eq!(request.data_bits, DataBits::Seven);
    assert_eq!(request.stop_bits, StopBits::Two);
    assert_eq!(request.parity, Parity::Off);
    assert_eq!(request.flow_control, FlowControl::Hardware);
    assert_eq!(request.timeout_ms, 1000);
}

#[test]
fn device_settings() {
    assert_eq!(StopBits::One.to_device(), StopBits::One);
    assert_eq!(StopBits::OnePointFive.to_device(), StopBits::Two);
    assert_eq!(StopBits::Two.to_device(), StopBits::Two);
    assert_eq!(Parity::Off.to_device(), Parity::Off);
    assert_eq!(Parity::Even.to_device(), Parity::Even);
    assert_eq!(Parity::Odd.to_device(), Parity::Odd);
    assert_eq!(Parity::Mark.to_device(), Parity::Off);
    assert_eq!(Parity::Space.to_device(), Parity::Off);
}

#[test]
fn open_failures_are_classified() {
    let mut handler = SerialHandler::new(config("COM3"));
    match handler.connect(Err(serial_failure(SerialErrorKind::NoDevice, "no device"))) {
        Err(ConnectionError::PortNotFound(name)) => assert_eq!(name, "COM3"),
        other => panic!("unexpected result: {:?}", other),
    }
    assert!(matches!(
        handler.connect(Err(serial_failure(
            SerialErrorKind::Io(IoKind::PermissionDenied),
            "denied"
        ))),
        Err(ConnectionError::PermissionDenied)
    ));
    match handler.connect(Err(serial_failure(SerialErrorKind::InvalidInput, "bad baud"))) {
        Err(ConnectionError::SerialError(f)) => {
            assert_eq!(f.kind, SerialErrorKind::InvalidInput);
            assert_eq!(f.description, "bad baud");
        }
        other => panic!("unexpected result: {:?}", other),
    }
    assert!(matches!(
        handler.create_port(Err(serial_failure(
            SerialErrorKind::Io(IoKind::NotFound),
            "missing"
        ))),
        Err(ConnectionError::SerialError(_))
    ));
    assert!(!handler.is_connected());
    assert_eq!(handler.link(), LinkState::NeverConnected);
    assert_eq!(handler.get_connection_info(), None);
    assert!(handler.connect(Ok(())).is_ok());
    assert!(handler.is_connected());
}

#[test]
fn serial_connection_info() {
    let handler = connected("/dev/ttyUSB0");
    assert_eq!(
        handler.get_connection_info(),
        Some("Serial: /dev/ttyUSB0 @ 9600 baud, 7-M-1.5".to_string())
    );
    let mut plain = SerialHandler::new(SerialConfig {
        port: "COM1".to_string(),
        ..SerialConfig::default()
    });
    assert_eq!(plain.config().baud_rate, 115200);
    assert!(plain.connect(Ok(())).is_ok());
    assert_eq!(
        plain.get_connection_info(),
        Some("Serial: COM1 @ 115200 baud, 8-N-1".to_string())
    );
}

#[test]
fn serial_disconnect_is_always_possible() {
    let mut handler = SerialHandler::new(config("COM3"));
    assert_eq!(handler.disconnect().unwrap(), Teardown::Nothing);
    assert!(handler.connect(Ok(())).is_ok());
    assert_eq!(handler.disconnect().unwrap(), Teardown::FlushAndClose);
    assert_eq!(handler.disconnect().unwrap(), Teardown::Nothing);
    assert!(!handler.is_connected());
    assert!(matches!(
        handler.send(b"AT\r\n"),
        Err(ConnectionError::ConnectionClosed)
    ));
}

#[test]
fn send_on_a_removed_device_fails_and_stays_connected() {
    let mut handler = connected("COM3");
    assert_eq!(handler.send(b"AT\r\n").unwrap(), vec![0x41, 0x54, 0x0d, 0x0a]);
    match handler.finish_send(Err("No such device".to_string())) {
        Err(ConnectionError::SendFailed(detail)) => assert_eq!(detail, "No such device"),
        other => panic!("unexpected result: {:?}", other),
    }
    assert!(handler.is_connected());
    let step = handler.receive_step(ReadEvent::Failed(IoFailure {
        kind: IoKind::Other,
        message: "No such device".to_string(),
    }));
    assert!(step.stop);
    assert_eq!(step.message.unwrap().content, "Error: No such device");
    assert!(!handler.is_connected());
}

#[test]
fn serial_reads() {
    let mut handler = connected("COM3");
    assert!(handler.start_receive_loop().is_ok());
    let step = handler.receive_step(ReadEvent::Bytes(b"+OK".to_vec()));
    assert!(!step.stop);
    assert_eq!(step.message.unwrap().content, "+OK");

    let step = handler.receive_step(ReadEvent::Bytes(Vec::new()));
    assert!(step.message.is_none());
    assert!(!step.stop);
    assert!(handler.is_connected());

    let step = handler.receive_step(ReadEvent::TimedOut);
    assert!(step.message.is_none());
    assert!(!step.stop);

    for kind in [IoKind::TimedOut, IoKind::WouldBlock] {
        let step = handler.receive_step(ReadEvent::Failed(IoFailure {
            kind,
            message: "t".to_string(),
        }));
        assert!(step.message.is_none());
        assert!(!step.stop);
    }
    let step = handler.receive_step(ReadEvent::Failed(IoFailure {
        kind: IoKind::ConnectionReset,
        message: "Task join error".to_string(),
    }));
    assert!(step.stop);
    assert_eq!(step.message.unwrap().content, "Error: Task join error");

    let mut fresh = SerialHandler::new(config("COM3"));
    let step = fresh.receive_step(ReadEvent::Bytes(b"x".to_vec()));
    assert!(step.message.is_none());
    assert!(step.stop);
}
