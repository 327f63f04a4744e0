//! What the server logs: plain lines, the structured line that confirms it is
//! listening, and the lines written when the process fails.

use crate::log_level::{LogLevel, PROC_NAME};
use crate::properties::{as_map, lemma_entry_in_map, lemma_order_is_determined, Properties};
use crate::socket::Socket;
use crate::error::StartupError;
use crate::text::{before_at, same_text, slice_text, text_before};
use vstd::prelude::*;
use vstd::string::*;
use vstd::utf8::*;

verus! {

/// Logged when startup begins.
pub const SERVER_START_MESSAGE: &'static str = "starting Execution Engine Server";

/// Logged, with its two properties filled in, once the server listens.
pub const SERVER_LISTENING_TEMPLATE: &'static str = "{listener} is listening on socket: {socket}";

/// Logged when the process stops.
pub const SERVER_STOP_MESSAGE: &'static str = "stopping Execution Engine Server";

/// Logged before a socket file left by an earlier run is removed.
pub const REMOVING_SOCKET_FILE_MESSAGE: &'static str = "removing old socket file";

/// One line for the log: a level, a message or message template, and the
/// properties that fill the template.
pub struct LogRecord {
    pub level: LogLevel,
    pub message: String,
    pub properties: Properties,
}

impl LogRecord {
    /// The record is a plain line of this level and text.
    pub open spec fn is_plain(&self, level: LogLevel, message: Seq<char>) -> bool {
        &&& self.level == level
        &&& self.message@ == message
        &&& self.properties@ == Seq::<(Seq<char>, Seq<char>)>::empty()
    }

    /// A plain line.
    pub fn plain(level: LogLevel, message: &str) -> (record: LogRecord)
        ensures
            record.is_plain(level, message@),
    {
        LogRecord { level, message: message.to_owned(), properties: Properties::new() }
    }

    /// A structured line: a message template and the properties that fill
    /// it, which are written out in the order of their keys.
    pub fn with_properties(level: LogLevel, template: &str, properties: Properties) -> (record:
        LogRecord)
        ensures
            record.level == level,
            record.message@ == template@,
            record.properties@ == properties@,
    {
        LogRecord { level, message: template.to_owned(), properties }
    }
}

/// The level of a status message of the server: `Debug` for the message
/// that startup begins, `Info` for every other.
pub open spec fn status_level(message: Seq<char>) -> LogLevel {
    if message == SERVER_START_MESSAGE@ {
        LogLevel::Debug
    } else {
        LogLevel::Info
    }
}

/// The start message differs from the other status messages.
pub proof fn lemma_status_levels()
    ensures
        status_level(SERVER_START_MESSAGE@) == LogLevel::Debug,
        status_level(SERVER_STOP_MESSAGE@) == LogLevel::Info,
        status_level(REMOVING_SOCKET_FILE_MESSAGE@) == LogLevel::Info,
{
    reveal_strlit("starting Execution Engine Server");
    reveal_strlit("stopping Execution Engine Server");
    reveal_strlit("removing old socket file");
    assert(SERVER_START_MESSAGE@[2] == 'a');
    assert(SERVER_STOP_MESSAGE@[2] == 'o');
    assert(REMOVING_SOCKET_FILE_MESSAGE@[0] == 'r');
}

/// A status message of the server, as a plain line: the message that
/// startup begins at level `Debug`, every other at level `Info`.
pub fn log_server_info(message: &str) -> (record: LogRecord)
    ensures
        record.is_plain(status_level(message@), message@),
{
    if same_text(message, SERVER_START_MESSAGE) {
        LogRecord::plain(LogLevel::Debug, message)
    } else {
        LogRecord::plain(LogLevel::Info, message)
    }
}

/// The properties of the listening message, in the order of their keys.
pub open spec fn listening_properties(socket: Seq<char>) -> Seq<(Seq<char>, Seq<char>)> {
    seq![("listener"@, PROC_NAME@), ("socket"@, socket)]
}

/// `listener` comes before `socket` in the order of keys.
proof fn lemma_listener_before_socket()
    ensures
        text_before("listener"@, "socket"@),
{
    reveal_strlit("listener");
    reveal_strlit("socket");
    let a = "listener"@;
    let b = "socket"@;
    is_ascii_chars_encode_utf8(a);
    is_ascii_chars_encode_utf8(b);
    assert(before_at(encode_utf8(a), encode_utf8(b), 0));
}

/// The line that confirms the server is listening: the template at level
/// `Info`, with the process name as `listener` and the socket's path as
/// `socket`.
pub fn log_listening_message(socket: &Socket) -> (record: LogRecord)
    ensures
        record.level == LogLevel::Info,
        record.message@ == SERVER_LISTENING_TEMPLATE@,
        record.properties@ == listening_properties(socket@),
{
    let mut properties = Properties::new();
    properties.insert("listener".to_owned(), PROC_NAME.to_owned());
    properties.insert("socket".to_owned(), socket.value());
    proof {
        let expected = listening_properties(socket@);
        lemma_listener_before_socket();
        lemma_entry_in_map(expected, 0);
        lemma_entry_in_map(expected, 1);
        assert(as_map(expected) =~= as_map(properties@));
        lemma_order_is_determined(expected, properties@);
    }
    LogRecord::with_properties(LogLevel::Info, SERVER_LISTENING_TEMPLATE, properties)
}

/// The text that `{:?}` writes for a string: the string between double
/// quotes, with the characters escaped that Rust escapes there.
pub uninterp spec fn debug_format(text: Seq<char>) -> Seq<char>;

/// Formats a string with `{:?}`, as `<str as Debug>::fmt` writes it.
#[verifier::external_body]
fn debug_text(text: &str) -> (formatted: String)
    ensures
        formatted@ == debug_format(text@),
{
    format!("{:?}", text)
}

/// What separates the message of an error from the detail that follows it.
pub const DETAIL_SEPARATOR: &'static str = ": ";

/// The message of a failure: the error's own message, and after it, where
/// there is a detail, a separator and the detail.
pub open spec fn failure_text(error: StartupError, detail: Option<Seq<char>>) -> Seq<char> {
    match detail {
        Some(text) => error.spec_message() + DETAIL_SEPARATOR@ + text,
        None => error.spec_message(),
    }
}

/// The message of a failure to create the directory at `path`: it names the
/// path in full, as `{:?}` formats it.
pub open spec fn create_dir_failure_text(path: Seq<char>) -> Seq<char> {
    failure_text(StartupError::CreateDataDir, Some(debug_format(path)))
}

/// The message with which a failure is reported: the error's message, with
/// the detail after it where there is one.
pub fn failure_message(error: StartupError, detail: Option<&str>) -> (message: String)
    ensures
        message@ == failure_text(error, slice_text(detail)),
{
    let mut message = error.message().to_owned();
    match detail {
        Some(text) => {
            message.append(DETAIL_SEPARATOR);
            message.append(text);
        },
        None => {},
    }
    message
}

/// The message with which a failure to create the directory at `path` is
/// reported: it begins with the error's message and names the full path.
pub fn create_dir_failure_message(path: &str) -> (message: String)
    ensures
        message@ == create_dir_failure_text(path@),
{
    let detail = debug_text(path);
    failure_message(StartupError::CreateDataDir, Some(detail.as_str()))
}

/// The lines for a failure whose message, if it has one, is already
/// formatted.
pub open spec fn failure_lines(message: Option<Seq<char>>, records: Seq<LogRecord>) -> bool {
    match message {
        Some(text) => {
            &&& records.len() == 2
            &&& records[0].is_plain(LogLevel::Fatal, text)
            &&& records[1].is_plain(LogLevel::Info, SERVER_STOP_MESSAGE@)
        },
        None => {
            &&& records.len() == 1
            &&& records[0].is_plain(LogLevel::Info, SERVER_STOP_MESSAGE@)
        },
    }
}

/// The lines to write when the process fails: the failure's message, if it
/// has one, at level `Fatal`, and then the stop message.
pub fn failure_records(message: Option<String>) -> (records: Vec<LogRecord>)
    ensures
        failure_lines(
            match message {
                Some(text) => Some(text@),
                None => None,
            },
            records@,
        ),
{
    let mut records: Vec<LogRecord> = Vec::new();
    match message {
        Some(text) => {
            records.push(LogRecord::plain(LogLevel::Fatal, text.as_str()));
        },
        None => {},
    }
    proof {
        lemma_status_levels();
    }
    records.push(log_server_info(SERVER_STOP_MESSAGE));
    records
}

/// The lines to write when the process panics: the payload, where it is
/// text, as `{:?}` formats it, at level `Fatal`, and then the stop message.
pub fn panic_report(payload: Option<&str>) -> (records: Vec<LogRecord>)
    ensures
        failure_lines(
            match payload {
                Some(text) => Some(debug_format(text@)),
                None => None,
            },
            records@,
        ),
{
    match payload {
        Some(text) => failure_records(Some(debug_text(text))),
        None => failure_records(None),
    }
}

} // verus!
