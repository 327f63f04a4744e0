//! The configuration of the server, resolved from its command line.

use crate::command_line::{
    command_line, get_args, parse_outcome, value_at, Arguments, ARG_DATA_DIR, ARG_LOG_LEVEL,
    ARG_SOCKET,
};
use crate::error::StartupError;
use crate::log_level::{level_of_token, resolve_log_level, LogLevel};
use crate::socket::Socket;
use crate::text::{slice_text, text_of};
use vstd::prelude::*;

verus! {

/// What the server was started with. It is made once and never changed.
pub struct Configuration {
    /// The path of the socket to listen on.
    pub socket_path: String,
    /// The data directory, where one was given; without one the storage
    /// lives under the home directory.
    pub data_dir: Option<String>,
    /// The least severe level that is logged.
    pub log_level: LogLevel,
}

/// Why no configuration came out of the process arguments.
pub enum ResolveError {
    /// The parser turned the command line down; its error says why, and
    /// holds the help or version text where that was asked for.
    Rejected(clap::Error),
    /// The parser accepted the command line, and a rule of the server did
    /// not.
    Invalid(StartupError),
}

/// The text of an optional string, borrowed.
fn as_text(value: &Option<String>) -> (text: Option<&str>)
    ensures
        slice_text(text) == text_of(*value),
{
    match value {
        Some(owned) => Some(owned.as_str()),
        None => None,
    }
}

/// The socket named on the command line, which must name one.
pub fn get_socket(arguments: &Arguments) -> (socket: Result<Socket, StartupError>)
    ensures
        match arguments.socket {
            Some(path) => socket matches Ok(found) && found@ == path@,
            None => socket == Err::<Socket, StartupError>(StartupError::SocketRequired),
        },
{
    match &arguments.socket {
        Some(path) => Ok(Socket::new(path.clone())),
        None => Err(StartupError::SocketRequired),
    }
}

impl Configuration {
    /// This configuration is the one that the given argument values stand
    /// for: their socket path and data directory, and the level that their
    /// token names.
    pub open spec fn stands_for(
        &self,
        socket: Seq<char>,
        log_level: Option<Seq<char>>,
        data_dir: Option<Seq<char>>,
    ) -> bool {
        &&& self.socket_path@ == socket
        &&& self.log_level == level_of_token(log_level)
        &&& text_of(self.data_dir) == data_dir
    }

    /// Applies the server's rules to the values that the parser matched. A
    /// socket path is required. The log level token is never turned down: one
    /// that names no level gives `Info`.
    pub fn from_arguments(arguments: Arguments) -> (configuration: Result<
        Configuration,
        StartupError,
    >)
        ensures
            match arguments.socket {
                Some(path) => configuration matches Ok(made) && made.stands_for(
                    path@,
                    text_of(arguments.log_level),
                    text_of(arguments.data_dir),
                ),
                None => configuration == Err::<Configuration, StartupError>(
                    StartupError::SocketRequired,
                ),
            },
    {
        let log_level = resolve_log_level(as_text(&arguments.log_level));
        match arguments.socket {
            Some(socket_path) => Ok(
                Configuration { socket_path, data_dir: arguments.data_dir, log_level },
            ),
            None => Err(StartupError::SocketRequired),
        }
    }

    /// The data directory, if one was given.
    pub fn data_dir(&self) -> (dir: Option<&str>)
        ensures
            slice_text(dir) == text_of(self.data_dir),
    {
        as_text(&self.data_dir)
    }
}

/// Resolves the configuration from the process arguments, the program's name
/// first. It fails where the parser turns the arguments down, and nowhere
/// else but on an accepted command line without a socket path.
pub fn resolve(args: &Vec<String>) -> (configuration: Result<Configuration, ResolveError>)
    ensures
        match parse_outcome(command_line(), args.deep_view()) {
            None => configuration matches Err(ResolveError::Rejected(_)),
            Some(values) => match value_at(values, ARG_SOCKET@) {
                Some(socket) => configuration matches Ok(made) && made.stands_for(
                    socket,
                    value_at(values, ARG_LOG_LEVEL@),
                    value_at(values, ARG_DATA_DIR@),
                ),
                None => configuration matches Err(ResolveError::Invalid(error)) && error
                    == StartupError::SocketRequired,
            },
        },
{
    match get_args(args) {
        Ok(arguments) => match Configuration::from_arguments(arguments) {
            Ok(configuration) => Ok(configuration),
            Err(error) => Err(ResolveError::Invalid(error)),
        },
        Err(error) => Err(ResolveError::Rejected(error)),
    }
}

} // verus!
