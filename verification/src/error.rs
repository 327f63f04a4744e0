//! The reasons for which startup ends before the server is blocked and
//! listening.

use vstd::prelude::*;

verus! {

/// Why startup was given up. Each step that can fail has a reason of its own,
/// so that an operator can tell which one failed.
#[derive(Clone, Copy, Debug, PartialEq, Eq, Structural)]
pub enum StartupError {
    /// The parsed command line holds no socket path.
    SocketRequired,
    /// No data directory was given and the home directory is unknown.
    HomeDirectory,
    /// The data directory could not be created.
    CreateDataDir,
    /// The storage environment could not be opened.
    Environment,
    /// The trie store could not be built on the environment.
    TrieStore,
    /// The global state could not be built on the trie store.
    GlobalState,
    /// A stale socket file could not be removed.
    RemoveSocket,
    /// The RPC server could not be started.
    ServerStart,
    /// The driver reported something the step in flight does not end with.
    UnexpectedEvent,
}

impl StartupError {
    /// The text that describes this error.
    pub open spec fn spec_message(self) -> Seq<char> {
        match self {
            StartupError::SocketRequired => "socket required"@,
            StartupError::HomeDirectory => "Could not get home directory"@,
            StartupError::CreateDataDir => "Could not create directory"@,
            StartupError::Environment => "Could not create LmdbEnvironment"@,
            StartupError::TrieStore => "Could not create LmdbTrieStore"@,
            StartupError::GlobalState => "Could not create LmdbGlobalState"@,
            StartupError::RemoveSocket => "failed to remove old socket file"@,
            StartupError::ServerStart => "failed to start Execution Engine Server"@,
            StartupError::UnexpectedEvent => "unexpected event during startup"@,
        }
    }

    /// The message with which the process reports this error before it ends.
    pub fn message(self) -> (text: &'static str)
        ensures
            text@ == self.spec_message(),
    {
        match self {
            StartupError::SocketRequired => "socket required",
            StartupError::HomeDirectory => "Could not get home directory",
            StartupError::CreateDataDir => "Could not create directory",
            StartupError::Environment => "Could not create LmdbEnvironment",
            StartupError::TrieStore => "Could not create LmdbTrieStore",
            StartupError::GlobalState => "Could not create LmdbGlobalState",
            StartupError::RemoveSocket => "failed to remove old socket file",
            StartupError::ServerStart => "failed to start Execution Engine Server",
            StartupError::UnexpectedEvent => "unexpected event during startup",
        }
    }
}

/// No two errors share a message: the message alone tells which step
/// failed.
pub proof fn lemma_messages_differ(a: StartupError, b: StartupError)
    requires
        a != b,
    ensures
        a.spec_message() != b.spec_message(),
{
    reveal_strlit("socket required");
    reveal_strlit("Could not get home directory");
    reveal_strlit("Could not create directory");
    reveal_strlit("Could not create LmdbEnvironment");
    reveal_strlit("Could not create LmdbTrieStore");
    reveal_strlit("Could not create LmdbGlobalState");
    reveal_strlit("failed to remove old socket file");
    reveal_strlit("failed to start Execution Engine Server");
    reveal_strlit("unexpected event during startup");
    let first = a.spec_message();
    let second = b.spec_message();
    if first.len() == second.len() {
        assert(first[0] != second[0] || first[10] != second[10] || first[17] != second[17]
            || first[21] != second[21]);
    }
}

} // verus!
