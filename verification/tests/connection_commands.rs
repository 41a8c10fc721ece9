use terminal_transport::commands::connection::{
    connect_device, disconnect_device, get_connection_info, get_connection_status,
    get_serial_ports, get_serial_ports_info, send_message, ApiResponse, ForwardingGuard,
    FrontendConnectionConfig, SerialPortInfo,
};
use terminal_transport::communication::serial::{DetectedPort, PortKind, UsbDetails};
use terminal_transport::communication::tcp::TcpConnectOutcome;
use terminal_transport::communication::{
    ConnectionError, ConnectionManager, ConnectionResult, SerialErrorKind, SerialFailure,
    Transport,
};
use terminal_transport::models::connection::{
    ConnectionConfig, ConnectionType, DataBits, FlowControl, Parity, SerialConfig, StopBits,
    TcpConfig,
};
use terminal_transport::stamp::Timestamp;

fn create_test_serial_connection_config() -> ConnectionConfig {
    ConnectionConfig {
        id: "test-serial".to_string(),
        name: "Test Serial".to_string(),
        connection_type: ConnectionType::Serial,
        serial_config: Some(SerialConfig {
            port: "/dev/ttyUSB0".to_string(),
            baud_rate: 9600,
            data_bits: DataBits::Eight,
            stop_bits: StopBits::One,
            parity: Parity::Off,
            flow_control: FlowControl::Off,
        }),
        tcp_config: None,
        created_at: Timestamp::now(),
        updated_at: Timestamp::now(),
    }
}

fn create_test_tcp_connection_config() -> ConnectionConfig {
    ConnectionConfig {
        id: "test-tcp".to_string(),
        name: "Test TCP".to_string(),
        connection_type: ConnectionType::Tcp,
        serial_config: None,
        tcp_config: Some(TcpConfig {
            host: "localhost".to_string(),
            port: 8080,
            timeout_ms: 5000,
            keep_alive: true,
        }),
        created_at: Timestamp::now(),
        updated_at: Timestamp::now(),
    }
}

fn usb_port() -> DetectedPort {
    DetectedPort {
        port_name: "/dev/ttyUSB0".to_string(),
        kind: PortKind::Usb(UsbDetails {
            vid: 0x1a86,
            pid: 0x7523,
            serial_number: Some("SN123".to_string()),
            manufacturer: None,
            product: Some("USB Serial".to_string()),
        }),
    }
}

#[test]
fn test_api_response_success() {
    let response = ApiResponse::success("test data".to_string());

    assert!(response.success);
    assert_eq!(response.data, Some("test data".to_string()));
    assert_eq!(response.error, None);
}

#[test]
fn test_api_response_error() {
    let response: ApiResponse<String> = ApiResponse::error("test error".to_string());

    assert!(!response.success);
    assert_eq!(response.data, None);
    assert_eq!(response.error, Some("test error".to_string()));
}

#[test]
fn test_serial_port_info_creation() {
    let info = SerialPortInfo {
        port_name: "COM1".to_string(),
        port_type: Some("USB".to_string()),
        vid: Some(0x1234),
        pid: Some(0x5678),
        serial_number: Some("SN123".to_string()),
        manufacturer: Some("Test Mfg".to_string()),
        product: Some("Test Product".to_string()),
    };

    assert_eq!(info.port_name, "COM1");
    assert_eq!(info.port_type, Some("USB".to_string()));
    assert_eq!(info.vid, Some(0x1234));
    assert_eq!(info.pid, Some(0x5678));
}

#[test]
fn test_get_serial_ports() {
    let response = get_serial_ports(Ok(vec![usb_port()]));

    if response.success {
        assert!(response.data.is_some());
        assert!(response.error.is_none());
    } else {
        assert!(response.data.is_none());
        assert!(response.error.is_some());
    }
    assert_eq!(response.data, Some(vec!["/dev/ttyUSB0".to_string()]));
}

#[test]
fn get_serial_ports_reports_a_failed_enumeration() {
    let response = get_serial_ports(Err(SerialFailure {
        kind: SerialErrorKind::Unknown,
        description: "enumeration failed".to_string(),
    }));
    assert!(!response.success);
    assert!(response.data.is_none());
    assert_eq!(
        response.error,
        Some("Serial port error: enumeration failed".to_string())
    );
}

#[test]
fn test_get_serial_ports_info() {
    let bluetooth = DetectedPort {
        port_name: "/dev/rfcomm0".to_string(),
        kind: PortKind::Bluetooth,
    };
    let response = get_serial_ports_info(Ok(vec![usb_port(), bluetooth]));

    assert!(response.success);
    assert!(response.error.is_none());
    let ports = response.data.unwrap();
    for port in &ports {
        assert!(!port.port_name.is_empty());
    }
    assert_eq!(ports.len(), 2);
    assert_eq!(ports[0].port_name, "/dev/ttyUSB0");
    assert_eq!(ports[0].port_type, Some("USB VID:1A86 PID:7523".to_string()));
    assert_eq!(ports[0].vid, Some(0x1a86));
    assert_eq!(ports[0].pid, Some(0x7523));
    assert_eq!(ports[0].serial_number, Some("SN123".to_string()));
    assert_eq!(ports[0].manufacturer, None);
    assert_eq!(ports[0].product, Some("USB Serial".to_string()));
    assert_eq!(ports[1].port_name, "/dev/rfcomm0");
    assert_eq!(ports[1].port_type, Some("Bluetooth".to_string()));
    assert_eq!(ports[1].vid, None);
}

#[test]
fn test_connection_config_serial() {
    let config = create_test_serial_connection_config();

    assert_eq!(config.connection_type, ConnectionType::Serial);
    assert!(config.serial_config.is_some());
    assert!(config.tcp_config.is_none());
    assert_eq!(config.name, "Test Serial");
    assert!(config.check_consistent());
}

#[test]
fn test_connection_config_tcp() {
    let config = create_test_tcp_connection_config();

    assert_eq!(config.connection_type, ConnectionType::Tcp);
    assert!(config.serial_config.is_none());
    assert!(config.tcp_config.is_some());
    assert_eq!(config.name, "Test TCP");
    assert!(config.check_consistent());
}

#[test]
fn test_connection_error_conversion() {
    let error = ConnectionError::NetworkTimeout;
    let string_error: String = error.to_string();
    assert_eq!(string_error, "Network timeout");

    let error = ConnectionError::PortNotFound("COM1".to_string());
    let string_error: String = error.to_string();
    assert_eq!(string_error, "Port not found: COM1");
}

#[test]
fn frontend_serial_config_becomes_backend_config() {
    let frontend = FrontendConnectionConfig {
        id: "id-1".to_string(),
        name: "Bench".to_string(),
        connection_type: "serial".to_string(),
        serial_port: Some("COM3".to_string()),
        baud_rate: None,
        host: None,
        port: None,
    };
    let config = frontend.to_backend_config().unwrap();
    assert_eq!(config.id, "id-1");
    assert_eq!(config.name, "Bench");
    assert_eq!(config.connection_type, ConnectionType::Serial);
    assert!(config.tcp_config.is_none());
    let serial = config.serial_config.unwrap();
    assert_eq!(serial.port, "COM3");
    assert_eq!(serial.baud_rate, 115200);
    assert_eq!(serial.data_bits, DataBits::Eight);
    assert_eq!(serial.stop_bits, StopBits::One);
    assert_eq!(serial.parity, Parity::Off);
    assert_eq!(serial.flow_control, FlowControl::Off);
    assert_eq!(config.created_at, config.updated_at);
}

#[test]
fn frontend_tcp_config_becomes_backend_config() {
    let frontend = FrontendConnectionConfig {
        id: "id-2".to_string(),
        name: "Lab".to_string(),
        connection_type: "tcp".to_string(),
        serial_port: None,
        baud_rate: Some(9600),
        host: Some("10.0.0.7".to_string()),
        port: Some(23),
    };
    let config = frontend.to_backend_config().unwrap();
    assert_eq!(config.connection_type, ConnectionType::Tcp);
    assert!(config.serial_config.is_none());
    let tcp = config.tcp_config.unwrap();
    assert_eq!(tcp.host, "10.0.0.7");
    assert_eq!(tcp.port, 23);
    assert_eq!(tcp.timeout_ms, 5000);
    assert!(tcp.keep_alive);
}

#[test]
fn frontend_config_is_refused_with_a_reason() {
    let base = FrontendConnectionConfig {
        id: "id".to_string(),
        name: "n".to_string(),
        connection_type: "serial".to_string(),
        serial_port: None,
        baud_rate: None,
        host: None,
        port: None,
    };
    assert_eq!(
        base.clone().to_backend_config().unwrap_err(),
        "シリアルポートが指定されていません"
    );
    let mut tcp = base.clone();
    tcp.connection_type = "tcp".to_string();
    assert_eq!(
        tcp.clone().to_backend_config().unwrap_err(),
        "ホストが指定されていません"
    );
    tcp.host = Some("h".to_string());
    assert_eq!(
        tcp.clone().to_backend_config().unwrap_err(),
        "ポートが指定されていません"
    );
    let mut other = base;
    other.connection_type = "udp".to_string();
    assert_eq!(
        other.to_backend_config().unwrap_err(),
        "サポートされていない接続タイプです: udp"
    );
}

#[test]
fn connect_device_reports_success_and_failure() {
    let mut manager = ConnectionManager::new();
    let config = create_test_tcp_connection_config();
    let start = manager.connect(&config);
    let mut transport = start.transport.unwrap();
    if let Transport::Tcp(handler) = &mut transport {
        let _ = handler.prepare_connect();
        assert!(handler.connect(TcpConnectOutcome::Connected).is_ok());
    }
    let finish = manager.complete_connect(transport, Ok(()));
    let report = connect_device(&manager, "Test TCP", &finish.result);
    assert!(report.response.success);
    assert_eq!(
        report.response.data,
        Some("TCP: localhost:8080 (timeout: 5000ms, keep-alive: true)".to_string())
    );
    let event = report.event.unwrap();
    assert_eq!(event.status, "connected");
    assert_eq!(event.detail, "Test TCP");

    let failed: ConnectionResult<()> = Err(ConnectionError::NetworkTimeout);
    let report = connect_device(&manager, "Test TCP", &failed);
    assert!(!report.response.success);
    assert_eq!(report.response.error, Some("Network timeout".to_string()));
    let event = report.event.unwrap();
    assert_eq!(event.status, "error");
    assert_eq!(event.detail, "Network timeout");
}

#[test]
fn disconnect_and_send_reports() {
    let mut manager = ConnectionManager::new();
    let report = disconnect_device(&manager.disconnect());
    assert_eq!(report.response.data, Some("Disconnected".to_string()));
    let event = report.event.unwrap();
    assert_eq!(event.status, "disconnected");
    assert_eq!(event.detail, "");

    let sent: ConnectionResult<()> = Ok(());
    assert_eq!(send_message(&sent).data, Some("Message sent".to_string()));
    let failed: ConnectionResult<()> = Err(ConnectionError::ConnectionClosed);
    let response = send_message(&failed);
    assert!(!response.success);
    assert_eq!(response.error, Some("Connection closed".to_string()));

    assert_eq!(get_connection_status(&manager).data, Some(false));
    assert_eq!(get_connection_info(&manager).data, Some(None));
}

#[test]
fn message_forwarding_starts_once() {
    let mut guard = ForwardingGuard::new();
    assert!(guard.start_message_handling());
    assert!(!guard.start_message_handling());
    assert!(!guard.start_message_handling());
    assert!(guard.taken);
}
