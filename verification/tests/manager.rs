use terminal_transport::communication::serial::{DetectedPort, PortKind};
use terminal_transport::communication::tcp::TcpConnectOutcome;
use terminal_transport::communication::{
    ConnectionError, ConnectionManager, ConnectionResult, IoFailure, IoKind, ManagerTeardown,
    ReadEvent, SerialErrorKind, SerialFailure, Teardown, Transport,
};
use terminal_transport::models::connection::{
    ConnectionConfig, ConnectionType, SerialConfig, TcpConfig,
};
use terminal_transport::stamp::Timestamp;

fn create_test_tcp_config() -> ConnectionConfig {
    ConnectionConfig {
        id: "test-id".to_string(),
        name: "Test Connection".to_string(),
        connection_type: ConnectionType::Tcp,
        serial_config: None,
        tcp_config: Some(TcpConfig {
            host: "localhost".to_string(),
            port: 8080,
            timeout_ms: 5000,
            keep_alive: true,
        }),
        created_at: Timestamp::now(),
        updated_at: Timestamp::now(),
    }
}

fn connect_tcp(manager: &mut ConnectionManager, config: &ConnectionConfig) -> ManagerTeardown {
    let start = manager.connect(config);
    let mut transport = start.transport.unwrap();
    match &mut transport {
        Transport::Tcp(handler) => {
            let _ = handler.prepare_connect();
            assert!(handler.connect(TcpConnectOutcome::Connected).is_ok());
        }
        Transport::Serial(_) => panic!("a TCP configuration selects the TCP transport"),
    }
    let finish = manager.complete_connect(transport, Ok(()));
    assert!(finish.result.is_ok());
    assert_eq!(
        finish.teardown,
        ManagerTeardown {
            medium: Teardown::Nothing,
            cancel_receive: false
        }
    );
    start.teardown
}

#[test]
fn test_connection_manager_new() {
    let manager = ConnectionManager::new();
    assert!(!manager.is_connected());
    assert_eq!(manager.get_connection_info(), None);
}

#[test]
fn test_connection_manager_connect_success() {
    let mut manager = ConnectionManager::new();
    let config = create_test_tcp_config();

    let start = manager.connect(&config);
    assert!(start.transport.is_ok());
    assert_eq!(start.teardown.medium, Teardown::Nothing);
    assert!(!start.teardown.cancel_receive);
    assert!(!manager.is_connected());
}

#[test]
fn test_connection_manager_connect_invalid_config() {
    let mut manager = ConnectionManager::new();
    let mut config = create_test_tcp_config();
    config.tcp_config = None;

    let result = manager.connect(&config).transport;
    assert!(result.is_err());

    if let Err(e) = result {
        match e {
            ConnectionError::InvalidConfiguration(reason) => {
                assert_eq!(reason, "TCP config is missing")
            }
            _ => panic!("Expected InvalidConfiguration error"),
        }
    }
    assert!(!manager.is_connected());
    assert_eq!(manager.get_connection_info(), None);
}

#[test]
fn serial_tag_without_serial_settings_is_invalid() {
    let mut manager = ConnectionManager::new();
    let mut config = create_test_tcp_config();
    config.connection_type = ConnectionType::Serial;
    match manager.connect(&config).transport {
        Err(ConnectionError::InvalidConfiguration(reason)) => {
            assert_eq!(reason, "Serial config is missing")
        }
        other => panic!("unexpected result: {:?}", other),
    }
    config.serial_config = Some(SerialConfig::default());
    assert!(matches!(
        manager.connect(&config).transport,
        Ok(Transport::Serial(_))
    ));
    assert!(!config.check_consistent());
}

#[test]
fn test_connection_manager_send_message_not_connected() {
    let mut manager = ConnectionManager::new();
    let result = manager.send_message("test message".to_string());

    assert!(result.is_err());
    if let Err(e) = result {
        match e {
            ConnectionError::ConnectionClosed => {}
            _ => panic!("Expected ConnectionClosed error"),
        }
    }
    assert!(!manager.is_connected());
    assert_eq!(manager.get_connection_info(), None);
}

#[test]
fn test_connection_manager_disconnect_not_connected() {
    let mut manager = ConnectionManager::new();
    let result = manager.disconnect();

    assert!(result.is_ok());
    assert_eq!(
        result.unwrap(),
        ManagerTeardown {
            medium: Teardown::Nothing,
            cancel_receive: false
        }
    );
    assert!(!manager.is_connected());
    assert_eq!(manager.get_connection_info(), None);
}

#[test]
fn test_connection_manager_is_connected_default() {
    let manager = ConnectionManager::new();
    assert!(!manager.is_connected());
}

#[test]
fn test_connection_manager_get_connection_info_default() {
    let manager = ConnectionManager::new();
    assert_eq!(manager.get_connection_info(), None);
}

#[test]
fn test_connection_error_display() {
    let error = ConnectionError::PortNotFound("COM1".to_string());
    assert_eq!(error.to_string(), "Port not found: COM1");

    let error = ConnectionError::PermissionDenied;
    assert_eq!(error.to_string(), "Permission denied");

    let error = ConnectionError::InvalidConfiguration("Test config".to_string());
    assert_eq!(error.to_string(), "Invalid configuration: Test config");

    let error = ConnectionError::NetworkTimeout;
    assert_eq!(error.to_string(), "Network timeout");

    let error = ConnectionError::ConnectionClosed;
    assert_eq!(error.to_string(), "Connection closed");
}

#[test]
fn remaining_errors_display() {
    assert_eq!(
        ConnectionError::SendFailed("pipe".to_string()).to_string(),
        "Send failed: pipe"
    );
    assert_eq!(
        ConnectionError::ReceiveFailed("eof".to_string()).to_string(),
        "Receive failed: eof"
    );
    assert_eq!(
        ConnectionError::IoError(IoFailure {
            kind: IoKind::Other,
            message: "disk".to_string()
        })
        .to_string(),
        "IO error: disk"
    );
    assert_eq!(
        ConnectionError::SerialError(SerialFailure {
            kind: SerialErrorKind::Unknown,
            description: "busy".to_string()
        })
        .to_string(),
        "Serial port error: busy"
    );
}

#[test]
fn test_connection_result_type() {
    let success_result: ConnectionResult<String> = Ok("success".to_string());
    assert!(success_result.is_ok());

    let error_result: ConnectionResult<String> = Err(ConnectionError::NetworkTimeout);
    assert!(error_result.is_err());
}

#[test]
fn test_connection_manager_default() {
    let manager = ConnectionManager::default();
    assert!(!manager.is_connected());
    assert_eq!(manager.get_connection_info(), None);
}

#[test]
fn connect_send_disconnect() {
    let mut manager = ConnectionManager::new();
    let config = create_test_tcp_config();
    connect_tcp(&mut manager, &config);
    assert!(manager.is_connected());
    assert_eq!(
        manager.get_connection_info(),
        Some("TCP: localhost:8080 (timeout: 5000ms, keep-alive: true)".to_string())
    );
    assert_eq!(
        manager.send_message("AT\r\n".to_string()).unwrap(),
        vec![0x41, 0x54, 0x0d, 0x0a]
    );
    assert_eq!(
        manager.send_message("é".to_string()).unwrap(),
        vec![0xc3, 0xa9]
    );
    assert!(manager.is_connected());

    let teardown = manager.disconnect().unwrap();
    assert_eq!(teardown.medium, Teardown::FlushAndClose);
    assert!(teardown.cancel_receive);
    assert!(!manager.is_connected());
    assert_eq!(manager.get_connection_info(), None);
    assert!(matches!(
        manager.send_message("AT".to_string()),
        Err(ConnectionError::ConnectionClosed)
    ));
    let again = manager.disconnect().unwrap();
    assert_eq!(again.medium, Teardown::Nothing);
    assert!(!again.cancel_receive);
}

#[test]
fn connecting_again_tears_the_previous_transport_down_first() {
    let mut manager = ConnectionManager::new();
    let config = create_test_tcp_config();
    connect_tcp(&mut manager, &config);

    let start = manager.connect(&config);
    assert_eq!(start.teardown.medium, Teardown::FlushAndClose);
    assert!(start.teardown.cancel_receive);
    assert!(!manager.is_connected());
    assert_eq!(manager.get_connection_info(), None);
    match &start.transport {
        Ok(transport) => assert!(!transport.is_connected()),
        Err(e) => panic!("unexpected error: {:?}", e),
    }

    let mut invalid = create_test_tcp_config();
    invalid.tcp_config = None;
    connect_tcp(&mut manager, &config);
    let start = manager.connect(&invalid);
    assert_eq!(start.teardown.medium, Teardown::FlushAndClose);
    assert!(start.transport.is_err());
    assert!(!manager.is_connected());
    assert_eq!(manager.get_connection_info(), None);
}

#[test]
fn failed_connect_leaves_the_manager_idle() {
    let mut manager = ConnectionManager::new();
    let config = create_test_tcp_config();
    let start = manager.connect(&config);
    let mut transport = start.transport.unwrap();
    let outcome = match &mut transport {
        Transport::Tcp(handler) => {
            let request = handler.prepare_connect();
            assert_eq!(request.address, "localhost:8080");
            assert_eq!(request.timeout_ms, 5000);
            handler.connect(TcpConnectOutcome::TimedOut).map(|_| ())
        }
        Transport::Serial(_) => panic!("a TCP configuration selects the TCP transport"),
    };
    let finish = manager.complete_connect(transport, outcome);
    assert!(matches!(
        finish.result,
        Err(ConnectionError::NetworkTimeout)
    ));
    assert!(!manager.is_connected());
    assert_eq!(manager.get_connection_info(), None);
    assert!(matches!(
        manager.send_message("x".to_string()),
        Err(ConnectionError::ConnectionClosed)
    ));
}

#[test]
fn refused_connect_is_a_wrapped_io_error() {
    let mut manager = ConnectionManager::new();
    let config = create_test_tcp_config();
    let mut transport = manager.connect(&config).transport.unwrap();
    let outcome = match &mut transport {
        Transport::Tcp(handler) => {
            let _ = handler.prepare_connect();
            handler
                .connect(TcpConnectOutcome::Failed(IoFailure {
                    kind: IoKind::ConnectionRefused,
                    message: "Connection refused (os error 111)".to_string(),
                }))
                .map(|_| ())
        }
        Transport::Serial(_) => panic!("a TCP configuration selects the TCP transport"),
    };
    let finish = manager.complete_connect(transport, outcome);
    match finish.result {
        Err(ConnectionError::IoError(failure)) => {
            assert_eq!(failure.kind, IoKind::ConnectionRefused);
            assert_eq!(
                failure.message,
                "接続が拒否されました（localhost:8080）。サーバーが起動していない可能性があります"
            );
        }
        other => panic!("unexpected result: {:?}", other),
    }
    assert!(!manager.is_connected());
    assert_eq!(manager.get_connection_info(), None);
    assert!(manager.finish_send(Ok(())).is_err());
}

#[test]
fn serial_connect_through_the_manager() {
    let mut manager = ConnectionManager::new();
    let config = ConnectionConfig::new_serial(
        "Bench".to_string(),
        SerialConfig {
            port: "COM3".to_string(),
            ..SerialConfig::default()
        },
    );
    assert_eq!(config.id.len(), 36);
    let start = manager.connect(&config);
    let mut transport = start.transport.unwrap();
    let outcome = match &mut transport {
        Transport::Serial(handler) => {
            let request = handler.prepare_connect(Ok(vec![DetectedPort {
                port_name: "COM3".to_string(),
                kind: PortKind::Unknown,
            }]));
            assert!(request.is_ok());
            handler.connect(Ok(()))
        }
        Transport::Tcp(_) => panic!("a serial configuration selects the serial transport"),
    };
    assert!(manager.complete_connect(transport, outcome).result.is_ok());
    assert!(manager.is_connected());
    assert_eq!(
        manager.get_connection_info(),
        Some("Serial: COM3 @ 115200 baud, 8-N-1".to_string())
    );
}

#[test]
fn peer_closure_is_seen_by_the_manager() {
    let mut manager = ConnectionManager::new();
    let idle = manager.receive_step(ReadEvent::Bytes(b"x".to_vec()));
    assert!(idle.message.is_none());
    assert!(idle.stop);

    connect_tcp(&mut manager, &create_test_tcp_config());
    let step = manager.receive_step(ReadEvent::Bytes(b"hello".to_vec()));
    assert_eq!(step.message.unwrap().content, "hello");
    assert!(!step.stop);

    let step = manager.receive_step(ReadEvent::Bytes(Vec::new()));
    assert_eq!(step.message.unwrap().content, "Connection closed by peer");
    assert!(step.stop);
    assert!(!manager.is_connected());
    let step = manager.receive_step(ReadEvent::Bytes(b"late".to_vec()));
    assert!(step.message.is_none());
    assert!(step.stop);
    assert!(matches!(
        manager.send_message("x".to_string()),
        Err(ConnectionError::ConnectionClosed)
    ));
    assert!(manager.disconnect().is_ok());
}
