use terminal_transport::models::connection::{
    ConnectionConfig, ConnectionStatus, ConnectionType, DataBits, FlowControl, Parity,
    SerialConfig, StopBits, TcpConfig,
};
use terminal_transport::models::settings::{
    AppConfig, AppTheme, KeyboardShortcuts, LogLevel, LoggingConfig, SecurityConfig, WindowConfig,
};
use terminal_transport::models::terminal::{
    CommandHistory, LineEnding, MessageDirection, TerminalConfig, TerminalMessage, TerminalTheme,
};
use terminal_transport::stamp::Timestamp;
use terminal_transport::text::{
    bool_str, contains_ignoring_case, decimal_string, hex4_string, is_blank,
};

fn history(commands: &[&str], max_size: usize) -> CommandHistory {
    CommandHistory {
        commands: commands.iter().map(|c| c.to_string()).collect(),
        max_size,
        current_index: None,
    }
}

#[test]
fn serial_config_default() {
    let config = SerialConfig::default();
    assert_eq!(config.port, "");
    assert_eq!(config.baud_rate, 115200);
    assert_eq!(config.data_bits, DataBits::Eight);
    assert_eq!(config.stop_bits, StopBits::One);
    assert_eq!(config.parity, Parity::Off);
    assert_eq!(config.flow_control, FlowControl::Off);
}

#[test]
fn tcp_config_default() {
    let config = TcpConfig::default();
    assert_eq!(config.host, "127.0.0.1");
    assert_eq!(config.port, 8080);
    assert_eq!(config.timeout_ms, 5000);
    assert!(config.keep_alive);
}

#[test]
fn new_configs_are_consistent() {
    let serial = ConnectionConfig::new_serial("A".to_string(), SerialConfig::default());
    assert_eq!(serial.name, "A");
    assert_eq!(serial.connection_type, ConnectionType::Serial);
    assert!(serial.serial_config.is_some());
    assert!(serial.tcp_config.is_none());
    assert_eq!(serial.created_at, serial.updated_at);
    assert_eq!(serial.id.len(), 36);
    assert!(serial.check_consistent());

    let tcp = ConnectionConfig::new_tcp("B".to_string(), TcpConfig::default());
    assert_eq!(tcp.name, "B");
    assert_eq!(tcp.connection_type, ConnectionType::Tcp);
    assert!(tcp.serial_config.is_none());
    assert_eq!(tcp.tcp_config.as_ref().unwrap().host, "127.0.0.1");
    assert!(tcp.check_consistent());
    assert_ne!(tcp.id, serial.id);

    let mut both = tcp.clone();
    both.serial_config = Some(SerialConfig::default());
    assert!(!both.check_consistent());
    let mut neither = serial.clone();
    neither.serial_config = None;
    assert!(!neither.check_consistent());
    assert_ne!(ConnectionStatus::Connected, ConnectionStatus::Disconnected);
}

#[test]
fn messages_carry_their_direction() {
    let sent = TerminalMessage::new_sent("AT".to_string(), "UTF-8".to_string());
    assert_eq!(sent.direction, MessageDirection::Sent);
    assert_eq!(sent.content, "AT");
    assert_eq!(sent.encoding, "UTF-8");
    assert_eq!(sent.id.len(), 36);
    let received = TerminalMessage::new_received("OK".to_string(), "ASCII".to_string());
    assert_eq!(received.direction, MessageDirection::Received);
    assert_eq!(received.content, "OK");
    assert_eq!(received.encoding, "ASCII");
    assert_ne!(received.id, sent.id);
    let copy = received.clone();
    assert_eq!(copy.id, received.id);
    assert_eq!(copy.timestamp, received.timestamp);
}

#[test]
fn line_endings() {
    assert_eq!(LineEnding::Cr.to_bytes(), b"\r");
    assert_eq!(LineEnding::Lf.to_bytes(), b"\n");
    assert_eq!(LineEnding::CrLf.to_bytes(), b"\r\n");
    assert_eq!(LineEnding::Cr.to_string(), "\r");
    assert_eq!(LineEnding::Lf.to_string(), "\n");
    assert_eq!(LineEnding::CrLf.to_string(), "\r\n");
}

#[test]
fn terminal_defaults() {
    let config = TerminalConfig::default();
    assert_eq!(config.encoding, "UTF-8");
    assert_eq!(config.line_ending, LineEnding::CrLf);
    assert!(config.echo_input);
    assert!(config.show_timestamp);
    assert_eq!(config.font_family, "Fira Code");
    assert_eq!(config.font_size, 14);
    assert_eq!(config.max_history_size, 1000);
    assert!(config.auto_scroll);
    let theme = TerminalTheme::default();
    assert_eq!(theme.background_color, "#1a1b26");
    assert_eq!(theme.text_color, "#a9b1d6");
    assert_eq!(theme.input_color, "#24283b");
    assert_eq!(theme.timestamp_color, "#565f89");
    assert_eq!(theme.sent_color, "#7aa2f7");
    assert_eq!(theme.received_color, "#9ece6a");
    assert_eq!(theme.error_color, "#f7768e");
    assert_eq!(config.theme.error_color, theme.error_color);
}

#[test]
fn application_defaults() {
    let window = WindowConfig::default();
    assert_eq!((window.width, window.height), (1200, 800));
    assert_eq!((window.x, window.y), (None, None));
    assert!(!window.maximized);
    assert!(!window.always_on_top);
    assert_eq!(window.theme, AppTheme::System);
    let logging = LoggingConfig::default();
    assert!(logging.enabled);
    assert!(logging.auto_save);
    assert_eq!(logging.max_file_size_mb, 100);
    assert_eq!(logging.retention_days, 30);
    assert_eq!(logging.log_level, LogLevel::Info);
    assert!(logging.mask_sensitive_data);
    let security = SecurityConfig::default();
    assert!(security.encrypt_passwords);
    assert!(security.require_confirmation_for_destructive_actions);
    assert_eq!(security.auto_lock_timeout_minutes, None);
    let app = AppConfig::default();
    assert_eq!(app.version, "0.1.0");
    assert_eq!(app.terminal.font_size, 14);
    assert_eq!(app.window.width, 1200);
    let keys = KeyboardShortcuts::default();
    assert_eq!(keys.send_command, "Enter");
    assert_eq!(keys.clear_terminal, "Ctrl+L");
    assert_eq!(keys.connect, "Ctrl+O");
    assert_eq!(keys.disconnect, "Ctrl+D");
    assert_eq!(keys.new_profile, "Ctrl+N");
    assert_eq!(keys.save_log, "Ctrl+S");
    assert_eq!(keys.toggle_timestamp, "Ctrl+T");
    assert_eq!(keys.previous_command, "ArrowUp");
    assert_eq!(keys.next_command, "ArrowDown");
}

#[test]
fn history_default_is_empty() {
    let h = CommandHistory::default();
    assert!(h.commands.is_empty());
    assert_eq!(h.max_size, 100);
    assert_eq!(h.current_index, None);
}

#[test]
fn history_records_commands() {
    let mut h = history(&[], 3);
    h.add_command("one".to_string());
    h.add_command("   ".to_string());
    h.add_command("".to_string());
    h.add_command("one".to_string());
    h.add_command("two".to_string());
    h.add_command("one".to_string());
    assert_eq!(h.commands, vec!["one", "two", "one"]);
    h.current_index = Some(1);
    h.add_command("three".to_string());
    assert_eq!(h.commands, vec!["two", "one", "three"]);
    assert_eq!(h.current_index, None);
    assert_eq!(h.max_size, 3);

    let mut none = history(&[], 0);
    none.add_command("x".to_string());
    assert!(none.commands.is_empty());
}

#[test]
fn history_walks_back_and_forth() {
    let mut h = history(&["a", "b", "c"], 10);
    assert_eq!(h.get_next(), None);
    assert_eq!(h.get_previous(), Some(&"c".to_string()));
    assert_eq!(h.current_index, Some(2));
    assert_eq!(h.get_previous(), Some(&"b".to_string()));
    assert_eq!(h.get_previous(), Some(&"a".to_string()));
    assert_eq!(h.get_previous(), Some(&"a".to_string()));
    assert_eq!(h.current_index, Some(0));
    assert_eq!(h.get_next(), Some(&"b".to_string()));
    assert_eq!(h.get_next(), Some(&"c".to_string()));
    assert_eq!(h.current_index, Some(2));
    assert_eq!(h.get_next(), None);
    assert_eq!(h.current_index, None);

    let mut empty = history(&[], 10);
    assert_eq!(empty.get_previous(), None);
    assert_eq!(empty.current_index, None);
    assert_eq!(empty.get_next(), None);

    let mut stray = history(&["a"], 10);
    stray.current_index = Some(7);
    assert_eq!(stray.get_previous(), None);
    assert_eq!(stray.current_index, Some(6));
    assert_eq!(stray.get_next(), None);
    assert_eq!(stray.current_index, None);
}

#[test]
fn history_search_ignores_case() {
    let h = history(&["AT+GMR", "help", "at", "Reset"], 10);
    assert_eq!(
        h.search("at"),
        vec![&"AT+GMR".to_string(), &"at".to_string()]
    );
    assert_eq!(h.search("E").len(), 2);
    assert_eq!(h.search("").len(), 4);
    assert!(h.search("zzz").is_empty());
}

#[test]
fn text_helpers() {
    assert!(is_blank(""));
    assert!(is_blank(" \t\r\n"));
    assert!(!is_blank(" a "));
    assert!(contains_ignoring_case("Hello World", "WORLD"));
    assert!(contains_ignoring_case("Hello", ""));
    assert!(!contains_ignoring_case("Hello", "help"));
    assert_eq!(decimal_string(0), "0");
    assert_eq!(decimal_string(7), "7");
    assert_eq!(decimal_string(10), "10");
    assert_eq!(decimal_string(65535), "65535");
    assert_eq!(decimal_string(u64::MAX), "18446744073709551615");
    assert_eq!(hex4_string(0), "0000");
    assert_eq!(hex4_string(0x1a2b), "1A2B");
    assert_eq!(hex4_string(0xffff), "FFFF");
    assert_eq!(bool_str(true), "true");
    assert_eq!(bool_str(false), "false");
}

#[test]
fn timestamps() {
    let t = Timestamp::new(1431648000, 0).unwrap();
    assert_eq!(t.secs(), 1431648000);
    assert_eq!(t.nanos(), 0);
    assert_eq!(t.display(), "2015-05-15 00:00:00 UTC");
    assert_eq!(t.table_string(), "2015-05-15 00:00:00.000 UTC");
    let fine = Timestamp::new(0, 987_654_321).unwrap();
    assert_eq!(fine.display(), "1970-01-01 00:00:00.987654321 UTC");
    assert_eq!(fine.table_string(), "1970-01-01 00:00:00.987 UTC");
    assert!(Timestamp::new(i64::MAX, 0).is_none());
    assert!(Timestamp::new(0, 2_000_000_000).is_none());
    let now = Timestamp::now();
    assert_eq!(Timestamp::new(now.secs(), now.nanos()), Some(now));
    assert!(now.secs() > 1431648000);
}
