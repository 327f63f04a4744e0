use casperlabs_engine_grpc_server::log_level::LogLevel;
use casperlabs_engine_grpc_server::error::StartupError;
use casperlabs_engine_grpc_server::records::{
    create_dir_failure_message, failure_message, failure_records, log_listening_message,
    log_server_info, panic_report, LogRecord, DETAIL_SEPARATOR, REMOVING_SOCKET_FILE_MESSAGE,
    SERVER_LISTENING_TEMPLATE, SERVER_START_MESSAGE, SERVER_STOP_MESSAGE,
};
use casperlabs_engine_grpc_server::properties::Properties;
use casperlabs_engine_grpc_server::socket::Socket;

#[test]
fn messages_are_fixed() {
    assert_eq!(SERVER_START_MESSAGE, "starting Execution Engine Server");
    assert_eq!(SERVER_STOP_MESSAGE, "stopping Execution Engine Server");
    assert_eq!(SERVER_LISTENING_TEMPLATE, "{listener} is listening on socket: {socket}");
    assert_eq!(REMOVING_SOCKET_FILE_MESSAGE, "removing old socket file");
}

#[test]
fn start_message_is_a_plain_debug_line() {
    let record = log_server_info("starting Execution Engine Server");
    assert_eq!(record.level, LogLevel::Debug);
    assert_eq!(record.message, "starting Execution Engine Server");
    assert_eq!(record.properties.len(), 0);
    assert_eq!(log_server_info(SERVER_START_MESSAGE).level, LogLevel::Debug);
}

#[test]
fn other_status_messages_are_plain_info_lines() {
    for message in [
        "stopping Execution Engine Server",
        "removing old socket file",
        "Starting Execution Engine Server",
        "starting Execution Engine Server ",
        "",
    ] {
        let record = log_server_info(message);
        assert_eq!(record.level, LogLevel::Info);
        assert_eq!(record.message, message);
        assert_eq!(record.properties.len(), 0);
    }
}

#[test]
fn failure_message_is_the_error_message_with_the_detail_after_it() {
    assert_eq!(failure_message(StartupError::Environment, None), "Could not create LmdbEnvironment");
    assert_eq!(
        failure_message(StartupError::Environment, Some("no space left")),
        "Could not create LmdbEnvironment: no space left"
    );
    assert_eq!(failure_message(StartupError::SocketRequired, Some("")), "socket required: ");
    assert_eq!(DETAIL_SEPARATOR, ": ");
}

#[test]
fn directory_failure_message_names_the_path_quoted() {
    assert_eq!(
        create_dir_failure_message("/home/alice/.casperlabs/global_state"),
        "Could not create directory: \"/home/alice/.casperlabs/global_state\""
    );
    assert_eq!(create_dir_failure_message(""), "Could not create directory: \"\"");
    assert_eq!(
        create_dir_failure_message("/tmp/a \"b\""),
        format!("Could not create directory: {:?}", "/tmp/a \"b\"")
    );
    assert_eq!(
        create_dir_failure_message("/tmp/x"),
        format!("Could not create directory: {:?}", std::path::PathBuf::from("/tmp/x"))
    );
}

#[test]
fn plain_line_keeps_level_and_text() {
    let record = LogRecord::plain(LogLevel::Error, "something broke");
    assert_eq!(record.level, LogLevel::Error);
    assert_eq!(record.message, "something broke");
    assert_eq!(record.properties.len(), 0);
}

#[test]
fn listening_message_names_listener_and_socket() {
    let socket = Socket::new("/tmp/sock".to_string());
    let record = log_listening_message(&socket);
    assert_eq!(record.level, LogLevel::Info);
    assert_eq!(record.message, "{listener} is listening on socket: {socket}");
    let entries = record.properties.entries();
    assert_eq!(entries.len(), 2);
    assert_eq!(entries[0].key, "listener");
    assert_eq!(entries[0].value, "casperlabs-engine-grpc-server");
    assert_eq!(entries[1].key, "socket");
    assert_eq!(entries[1].value, "/tmp/sock");
    assert_eq!(record.properties.get("socket"), Some("/tmp/sock"));
}

#[test]
fn panic_with_text_logs_it_quoted_and_then_the_stop_message() {
    let records = panic_report(Some("boom"));
    assert_eq!(records.len(), 2);
    assert_eq!(records[0].level, LogLevel::Fatal);
    assert_eq!(records[0].message, "\"boom\"");
    assert_eq!(records[0].properties.len(), 0);
    assert_eq!(records[1].level, LogLevel::Info);
    assert_eq!(records[1].message, "stopping Execution Engine Server");
    assert_eq!(records[1].properties.len(), 0);
}

#[test]
fn panic_text_is_escaped_as_debug_formatting_does() {
    let records = panic_report(Some("Could not create directory: \"/x\"\n"));
    assert_eq!(records[0].message, "\"Could not create directory: \\\"/x\\\"\\n\"");
    assert_eq!(records[0].message, format!("{:?}", "Could not create directory: \"/x\"\n"));
    let empty = panic_report(Some(""));
    assert_eq!(empty[0].message, "\"\"");
}

#[test]
fn panic_without_text_logs_only_the_stop_message() {
    let records = panic_report(None);
    assert_eq!(records.len(), 1);
    assert_eq!(records[0].level, LogLevel::Info);
    assert_eq!(records[0].message, "stopping Execution Engine Server");
}

#[test]
fn failure_records_take_the_message_as_it_is() {
    let records = failure_records(Some("failed to start Execution Engine Server".to_string()));
    assert_eq!(records.len(), 2);
    assert_eq!(records[0].level, LogLevel::Fatal);
    assert_eq!(records[0].message, "failed to start Execution Engine Server");
    assert_eq!(records[1].message, "stopping Execution Engine Server");
    let none = failure_records(None);
    assert_eq!(none.len(), 1);
    assert_eq!(none[0].level, LogLevel::Info);
}

#[test]
fn structured_line_keeps_template_and_properties() {
    let mut properties = Properties::new();
    properties.insert("b".to_string(), "2".to_string());
    properties.insert("a".to_string(), "1".to_string());
    let record = LogRecord::with_properties(LogLevel::Warning, "{a} then {b}", properties);
    assert_eq!(record.level, LogLevel::Warning);
    assert_eq!(record.message, "{a} then {b}");
    let entries = record.properties.entries();
    assert_eq!(entries.len(), 2);
    assert_eq!((entries[0].key.as_str(), entries[0].value.as_str()), ("a", "1"));
    assert_eq!((entries[1].key.as_str(), entries[1].value.as_str()), ("b", "2"));
}
