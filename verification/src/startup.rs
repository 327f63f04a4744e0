//! The startup machine that a driver runs: it is told how each step ended
//! and says what to do next, with everything the step needs.

use crate::command_line::{
    command_line, parse_outcome, value_at, ARG_DATA_DIR, ARG_LOG_LEVEL, ARG_SOCKET,
};
use crate::config::{resolve, Configuration, ResolveError};
use crate::data_dir::{
    get_data_dir, joined, DEFAULT_DATA_DIR_RELATIVE, GLOBAL_STATE_DIR,
};
use crate::error::StartupError;
use crate::lifecycle::{
    failure_of, initial_state, is_terminal, lemma_no_removal_without_file,
    lemma_socket_cleared_before_server, lemma_storage_layers_in_order, next_state, phase_of,
    successor, trace, Phase, Signal, Stage, State,
};
use crate::log_level::{LogLevel, LogLevelFilter, LogSettings, PROC_NAME};
use crate::records::{
    create_dir_failure_message, create_dir_failure_text, failure_message, failure_text,
    lemma_status_levels, listening_properties, log_listening_message, log_server_info,
    LogRecord, REMOVING_SOCKET_FILE_MESSAGE, SERVER_LISTENING_TEMPLATE, SERVER_START_MESSAGE,
};
use crate::socket::Socket;
use crate::storage::{
    addresses_view, seed_accounts, seed_for, trie_store_options, TrieStoreOptions,
};
use vstd::prelude::*;

verus! {

/// What the driver reports of the step in flight.
pub enum Event {
    /// The configuration was resolved, with the directory of the global
    /// state.
    Configured(Configuration, String),
    /// No configuration could be resolved, for this reason.
    ConfigurationFailed(StartupError),
    /// The work was done.
    Done,
    /// The work failed.
    Failed,
    /// The trie store was built; its environment holds this many entries.
    TrieStoreOpened { entries: usize },
    /// The socket's path was looked at; a file exists there, or none.
    SocketChecked { exists: bool },
}

/// What the driver is asked to do.
pub enum Action {
    /// Resolve the configuration from the process arguments.
    ResolveConfiguration,
    /// Create this directory, with its parents, unless it exists.
    CreateDirectory(String),
    /// Install the hook that logs a failure under these settings.
    InstallFailureHook(LogSettings),
    /// Write this line to the log.
    Log(LogRecord),
    /// Open the storage environment in this directory.
    OpenEnvironment(String),
    /// Build the trie store on the environment, with these options.
    OpenTrieStore(TrieStoreOptions),
    /// Build the global state on the environment and the trie store, seeded
    /// with the accounts at these addresses.
    BuildGlobalState(Vec<[u8; 20]>),
    /// Wrap the global state for the engine.
    WrapEngineState,
    /// Report whether a file exists at this path.
    CheckSocket(String),
    /// Remove the file at this path.
    RemoveSocket(String),
    /// Build and start the server on this socket, with the engine state.
    StartServer(String),
    /// Park the thread for good.
    Block,
    /// End the process with this error, reported with this message.
    Abort(StartupError, String),
}

/// What the machine took from the configuration, as text.
pub ghost struct Plan {
    pub socket: Seq<char>,
    pub storage_path: Seq<char>,
    pub log_level: LogLevel,
}

/// A store has a root as soon as its environment holds an entry.
pub open spec fn store_has_root(entries: usize) -> bool {
    entries > 0
}

/// The message with which a machine that stopped in `state` on `error`
/// reports it: the error's own message, and for a directory that could not
/// be created the message that names its path.
pub open spec fn abort_text(state: State, plan: Plan, error: StartupError) -> Seq<char> {
    if state.stage == Stage::CreatingDataDirectory && error == StartupError::CreateDataDir {
        create_dir_failure_text(plan.storage_path)
    } else {
        failure_text(error, None)
    }
}

/// The signal that an event stands for in the order of startup.
pub open spec fn signal_of(event: Event) -> Signal {
    match event {
        Event::Configured(_, _) => Signal::Configured,
        Event::ConfigurationFailed(error) => Signal::ConfigurationFailed(error),
        Event::Done => Signal::Done,
        Event::Failed => Signal::Failed,
        Event::TrieStoreOpened { entries } => Signal::TrieStoreOpened {
            has_root: store_has_root(entries),
        },
        Event::SocketChecked { exists } => Signal::SocketChecked { exists },
    }
}

/// The plan after an event: the one that a configuration brings where the
/// machine waits for one, and otherwise the plan as it was.
pub open spec fn plan_after(state: State, plan: Plan, event: Event) -> Plan {
    match event {
        Event::Configured(configuration, storage_path) => if !is_terminal(state) && state.stage
            == Stage::ResolvingConfiguration {
            Plan {
                socket: configuration.socket_path@,
                storage_path: storage_path@,
                log_level: configuration.log_level,
            }
        } else {
            plan
        },
        _ => plan,
    }
}

/// `action` is what a machine in `state` with `plan` asks for: the work of
/// the stage in flight, on the paths and under the level of the plan, or the
/// end of the process where the machine has stopped on a failure.
pub open spec fn asks_for(state: State, plan: Plan, action: Action) -> bool {
    match state.failure {
        Some(error) => action matches Action::Abort(reason, message) && reason == error
            && message@ == abort_text(state, plan, error),
        None => match state.stage {
            Stage::ResolvingConfiguration => action is ResolveConfiguration,
            Stage::CreatingDataDirectory => action matches Action::CreateDirectory(path) && path@
                == plan.storage_path,
            Stage::InstallingFailureHook => action matches Action::InstallFailureHook(settings)
                && settings.process_name@ == PROC_NAME@ && settings.level_filter.level
                == plan.log_level,
            Stage::AnnouncingStart => action matches Action::Log(record) && record.is_plain(
                LogLevel::Debug,
                SERVER_START_MESSAGE@,
            ),
            Stage::OpeningEnvironment => action matches Action::OpenEnvironment(path) && path@
                == plan.storage_path,
            Stage::OpeningTrieStore => action matches Action::OpenTrieStore(options)
                && options.is_default(),
            Stage::BuildingGlobalState { has_root } => action matches Action::BuildGlobalState(seed)
                && addresses_view(seed@) == seed_for(has_root),
            Stage::WrappingEngineState => action is WrapEngineState,
            Stage::CheckingSocket => action matches Action::CheckSocket(path) && path@
                == plan.socket,
            Stage::AnnouncingRemoval => action matches Action::Log(record) && record.is_plain(
                LogLevel::Info,
                REMOVING_SOCKET_FILE_MESSAGE@,
            ),
            Stage::RemovingSocket => action matches Action::RemoveSocket(path) && path@
                == plan.socket,
            Stage::StartingServer => action matches Action::StartServer(path) && path@
                == plan.socket,
            Stage::AnnouncingListening => action matches Action::Log(record) && record.level
                == LogLevel::Info && record.message@ == SERVER_LISTENING_TEMPLATE@
                && record.properties@ == listening_properties(plan.socket),
            Stage::Blocked => action is Block,
        },
    }
}

/// The signal that an event stands for.
pub fn signal(event: &Event) -> (signal: Signal)
    ensures
        signal == signal_of(*event),
{
    match event {
        Event::Configured(_, _) => Signal::Configured,
        Event::ConfigurationFailed(error) => Signal::ConfigurationFailed(*error),
        Event::Done => Signal::Done,
        Event::Failed => Signal::Failed,
        Event::TrieStoreOpened { entries } => Signal::TrieStoreOpened { has_root: *entries > 0 },
        Event::SocketChecked { exists } => Signal::SocketChecked { exists: *exists },
    }
}

/// The stage that follows when `signal` ends `stage` well.
fn follow(stage: Stage, signal: Signal) -> (next: Option<Stage>)
    ensures
        next == successor(stage, signal),
{
    match stage {
        Stage::ResolvingConfiguration => match signal {
            Signal::Configured => Some(Stage::CreatingDataDirectory),
            _ => None,
        },
        Stage::CreatingDataDirectory => match signal {
            Signal::Done => Some(Stage::InstallingFailureHook),
            _ => None,
        },
        Stage::InstallingFailureHook => match signal {
            Signal::Done => Some(Stage::AnnouncingStart),
            _ => None,
        },
        Stage::AnnouncingStart => match signal {
            Signal::Done => Some(Stage::OpeningEnvironment),
            _ => None,
        },
        Stage::OpeningEnvironment => match signal {
            Signal::Done => Some(Stage::OpeningTrieStore),
            _ => None,
        },
        Stage::OpeningTrieStore => match signal {
            Signal::TrieStoreOpened { has_root } => Some(Stage::BuildingGlobalState { has_root }),
            _ => None,
        },
        Stage::BuildingGlobalState { .. } => match signal {
            Signal::Done => Some(Stage::WrappingEngineState),
            _ => None,
        },
        Stage::WrappingEngineState => match signal {
            Signal::Done => Some(Stage::CheckingSocket),
            _ => None,
        },
        Stage::CheckingSocket => match signal {
            Signal::SocketChecked { exists } => if exists {
                Some(Stage::AnnouncingRemoval)
            } else {
                Some(Stage::StartingServer)
            },
            _ => None,
        },
        Stage::AnnouncingRemoval => match signal {
            Signal::Done => Some(Stage::RemovingSocket),
            _ => None,
        },
        Stage::RemovingSocket => match signal {
            Signal::Done => Some(Stage::StartingServer),
            _ => None,
        },
        Stage::StartingServer => match signal {
            Signal::Done => Some(Stage::AnnouncingListening),
            _ => None,
        },
        Stage::AnnouncingListening => match signal {
            Signal::Done => Some(Stage::Blocked),
            _ => None,
        },
        Stage::Blocked => None,
    }
}

/// The failure on which the machine stops when `signal` does not end
/// `stage` well.
fn failure(stage: Stage, signal: Signal) -> (error: StartupError)
    ensures
        error == failure_of(stage, signal),
{
    match signal {
        Signal::ConfigurationFailed(error) => match stage {
            Stage::ResolvingConfiguration => error,
            _ => StartupError::UnexpectedEvent,
        },
        Signal::Failed => match stage {
            Stage::CreatingDataDirectory => StartupError::CreateDataDir,
            Stage::OpeningEnvironment => StartupError::Environment,
            Stage::OpeningTrieStore => StartupError::TrieStore,
            Stage::BuildingGlobalState { .. } => StartupError::GlobalState,
            Stage::RemovingSocket => StartupError::RemoveSocket,
            Stage::StartingServer => StartupError::ServerStart,
            _ => StartupError::UnexpectedEvent,
        },
        _ => StartupError::UnexpectedEvent,
    }
}

/// Whether nothing moves the machine from this state.
fn terminal(state: State) -> (ended: bool)
    ensures
        ended == is_terminal(state),
{
    match state.failure {
        Some(_) => true,
        None => match state.stage {
            Stage::Blocked => true,
            _ => false,
        },
    }
}

/// The state after `signal` arrives in `state`.
pub fn advance(state: State, signal: Signal) -> (next: State)
    ensures
        next == next_state(state, signal),
{
    if terminal(state) {
        state
    } else {
        match follow(state.stage, signal) {
            Some(stage) => State { stage, failure: None },
            None => State { stage: state.stage, failure: Some(failure(state.stage, signal)) },
        }
    }
}

/// The phase that a stage belongs to.
pub fn phase(stage: Stage) -> (phase: Phase)
    ensures
        phase == phase_of(stage),
{
    match stage {
        Stage::ResolvingConfiguration | Stage::CreatingDataDirectory => Phase::Unconfigured,
        Stage::InstallingFailureHook
        | Stage::AnnouncingStart
        | Stage::OpeningEnvironment
        | Stage::OpeningTrieStore
        | Stage::BuildingGlobalState { .. }
        | Stage::WrappingEngineState => Phase::Configured,
        Stage::CheckingSocket
        | Stage::AnnouncingRemoval
        | Stage::RemovingSocket
        | Stage::StartingServer => Phase::StorageReady,
        Stage::AnnouncingListening => Phase::Listening,
        Stage::Blocked => Phase::Blocked,
    }
}

/// The startup of one process: where it stands, what it took from the
/// configuration, and, for proofs only, the signals that led here.
pub struct Startup {
    state: State,
    socket: Socket,
    storage_path: String,
    log_level: LogLevel,
    history: Ghost<Seq<Signal>>,
}

impl Startup {
    #[verifier::type_invariant]
    spec fn follows_history(self) -> bool {
        self.state == trace(self.history@).last()
    }

    /// Where the machine stands.
    pub closed spec fn state(&self) -> State {
        self.state
    }

    /// The signals that the machine has taken, oldest first.
    pub closed spec fn history(&self) -> Seq<Signal> {
        self.history@
    }

    /// What the machine took from the configuration.
    pub closed spec fn plan(&self) -> Plan {
        Plan {
            socket: self.socket@,
            storage_path: self.storage_path@,
            log_level: self.log_level,
        }
    }

    /// A machine before any event: it waits for the configuration.
    pub fn new() -> (startup: Startup)
        ensures
            startup.state() == initial_state(),
            startup.history() == Seq::<Signal>::empty(),
    {
        Startup {
            state: State { stage: Stage::ResolvingConfiguration, failure: None },
            socket: Socket::new(String::new()),
            storage_path: String::new(),
            log_level: LogLevel::Info,
            history: Ghost(Seq::empty()),
        }
    }

    /// The step in flight. The machine stands where its signals lead, so
    /// what holds of the last state of every trace holds of this stage.
    pub fn stage(&self) -> (stage: Stage)
        ensures
            stage == self.state().stage,
            self.state() == trace(self.history()).last(),
    {
        proof {
            use_type_invariant(self);
        }
        self.state.stage
    }

    /// The failure on which the machine stopped, if it has.
    pub fn failure(&self) -> (failure: Option<StartupError>)
        ensures
            failure == self.state().failure,
    {
        self.state.failure
    }

    /// The phase of the process.
    pub fn phase(&self) -> (phase: Phase)
        ensures
            phase == phase_of(self.state().stage),
    {
        phase(self.state.stage)
    }

    /// What the machine asks for as it stands: the work of the step in
    /// flight, or the end of the process where it has stopped on a failure.
    pub fn action(&self) -> (action: Action)
        ensures
            asks_for(self.state(), self.plan(), action),
    {
        proof {
            lemma_status_levels();
        }
        match self.state.failure {
            Some(error) => {
                let creating = match self.state.stage {
                    Stage::CreatingDataDirectory => true,
                    _ => false,
                };
                let message = match error {
                    StartupError::CreateDataDir if creating => create_dir_failure_message(
                        self.storage_path.as_str(),
                    ),
                    _ => failure_message(error, None),
                };
                Action::Abort(error, message)
            },
            None => match self.state.stage {
                Stage::ResolvingConfiguration => Action::ResolveConfiguration,
                Stage::CreatingDataDirectory => Action::CreateDirectory(self.storage_path.clone()),
                Stage::InstallingFailureHook => Action::InstallFailureHook(
                    LogSettings::new(PROC_NAME, LogLevelFilter::new(self.log_level)),
                ),
                Stage::AnnouncingStart => Action::Log(log_server_info(SERVER_START_MESSAGE)),
                Stage::OpeningEnvironment => Action::OpenEnvironment(self.storage_path.clone()),
                Stage::OpeningTrieStore => Action::OpenTrieStore(trie_store_options()),
                Stage::BuildingGlobalState { has_root } => Action::BuildGlobalState(
                    seed_accounts(has_root),
                ),
                Stage::WrappingEngineState => Action::WrapEngineState,
                Stage::CheckingSocket => Action::CheckSocket(self.socket.value()),
                Stage::AnnouncingRemoval => Action::Log(
                    log_server_info(REMOVING_SOCKET_FILE_MESSAGE),
                ),
                Stage::RemovingSocket => Action::RemoveSocket(self.socket.value()),
                Stage::StartingServer => Action::StartServer(self.socket.value()),
                Stage::AnnouncingListening => Action::Log(log_listening_message(&self.socket)),
                Stage::Blocked => Action::Block,
            },
        }
    }

    /// Takes the driver's report on the step in flight and answers with what
    /// to do next. The machine moves as `next_state` says; a configuration
    /// that arrives while the machine waits for one becomes its plan.
    pub fn step(&mut self, event: Event) -> (action: Action)
        ensures
            final(self).state() == next_state(old(self).state(), signal_of(event)),
            final(self).history() == old(self).history().push(signal_of(event)),
            final(self).state() == trace(final(self).history()).last(),
            final(self).plan() == plan_after(old(self).state(), old(self).plan(), event),
            asks_for(final(self).state(), final(self).plan(), action),
    {
        let mut taken = Startup::new();
        core::mem::swap(self, &mut taken);
        proof {
            use_type_invariant(&taken);
            assert(taken.history@.push(signal_of(event)).drop_last() =~= taken.history@);
        }
        let next = advance(taken.state, signal(&event));
        let waiting = !terminal(taken.state) && match taken.state.stage {
            Stage::ResolvingConfiguration => true,
            _ => false,
        };
        let history = Ghost(taken.history@.push(signal_of(event)));
        *self = match event {
            Event::Configured(configuration, storage_path) if waiting => Startup {
                state: next,
                socket: Socket::new(configuration.socket_path),
                storage_path,
                log_level: configuration.log_level,
                history,
            },
            _ => Startup {
                state: next,
                socket: taken.socket,
                storage_path: taken.storage_path,
                log_level: taken.log_level,
                history,
            },
        };
        self.action()
    }
}

/// Whatever the driver reports, each storage layer is asked for only once
/// the layer below it stands: the trie store after the environment was
/// reported open, the global state after the trie store was reported built,
/// and the server after the global state was reported built and wrapped.
pub proof fn lemma_layers_asked_for_in_order(
    signals: Seq<Signal>,
    k: int,
    plan: Plan,
    action: Action,
)
    requires
        0 <= k <= signals.len(),
        asks_for(trace(signals)[k], plan, action),
    ensures
        action is OpenTrieStore ==> exists|i: int|
            0 <= i < k && #[trigger] trace(signals)[i] == (State {
                stage: Stage::OpeningEnvironment,
                failure: None,
            }) && signals[i] == Signal::Done,
        action is BuildGlobalState ==> exists|i: int|
            0 <= i < k && #[trigger] trace(signals)[i] == (State {
                stage: Stage::OpeningTrieStore,
                failure: None,
            }) && signals[i] is TrieStoreOpened,
        action is StartServer ==> exists|i: int|
            0 <= i < k && (#[trigger] trace(signals)[i]).stage is BuildingGlobalState
                && trace(signals)[i].failure is None && signals[i] == Signal::Done,
        action is StartServer ==> exists|i: int|
            0 <= i < k && #[trigger] trace(signals)[i] == (State {
                stage: Stage::WrappingEngineState,
                failure: None,
            }) && signals[i] == Signal::Done,
{
    lemma_storage_layers_in_order(signals, k);
}

/// Whatever the driver reports, the server is asked for only after the
/// socket's path was looked at, and either no file was there or the file
/// was removed, with success, in between.
pub proof fn lemma_server_asked_for_on_clear_socket(
    signals: Seq<Signal>,
    k: int,
    plan: Plan,
    action: Action,
)
    requires
        0 <= k <= signals.len(),
        asks_for(trace(signals)[k], plan, action),
        action is StartServer,
    ensures
        exists|i: int|
            0 <= i < k && #[trigger] trace(signals)[i] == (State {
                stage: Stage::CheckingSocket,
                failure: None,
            }) && (signals[i] == (Signal::SocketChecked { exists: false }) || (signals[i] == (
            Signal::SocketChecked { exists: true }) && exists|j: int|
                i < j < k && #[trigger] trace(signals)[j] == (State {
                    stage: Stage::RemovingSocket,
                    failure: None,
                }) && signals[j] == Signal::Done)),
{
    lemma_socket_cleared_before_server(signals, k);
}

/// Where the socket's path was looked at and no file was there, the driver
/// is never asked to remove one, and never to log that one is removed.
pub proof fn lemma_no_removal_asked_for_without_file(
    signals: Seq<Signal>,
    i: int,
    j: int,
    plan: Plan,
    action: Action,
)
    requires
        0 <= i < signals.len(),
        trace(signals)[i] == (State { stage: Stage::CheckingSocket, failure: None }),
        signals[i] == (Signal::SocketChecked { exists: false }),
        0 <= j <= signals.len(),
        asks_for(trace(signals)[j], plan, action),
    ensures
        !(action is RemoveSocket),
        action matches Action::Log(record) ==> record.message@ != REMOVING_SOCKET_FILE_MESSAGE@,
{
    lemma_no_removal_without_file(signals, i, j);
    reveal_strlit("starting Execution Engine Server");
    reveal_strlit("{listener} is listening on socket: {socket}");
    reveal_strlit("removing old socket file");
    assert(SERVER_START_MESSAGE@[0] == 's');
    assert(SERVER_LISTENING_TEMPLATE@[0] == '{');
    assert(REMOVING_SOCKET_FILE_MESSAGE@[0] == 'r');
}

/// `event` is what comes of the values that the parser matched: a
/// configuration that stands for them, with the directory of the global
/// state below the data directory, or below the default directory of some
/// home; or the reason for which there is none, a missing socket path or,
/// only where no data directory is given, an unknown home directory.
pub open spec fn configured_by(values: Map<Seq<char>, Seq<char>>, event: Event) -> bool {
    match value_at(values, ARG_SOCKET@) {
        None => event == Event::ConfigurationFailed(StartupError::SocketRequired),
        Some(socket) => match event {
            Event::Configured(configuration, storage_path) => {
                &&& configuration.stands_for(
                    socket,
                    value_at(values, ARG_LOG_LEVEL@),
                    value_at(values, ARG_DATA_DIR@),
                )
                &&& match value_at(values, ARG_DATA_DIR@) {
                    Some(dir) => storage_path@ == joined(dir, GLOBAL_STATE_DIR@),
                    None => exists|home: Seq<char>|
                        storage_path@ == joined(
                            #[trigger] joined(home, DEFAULT_DATA_DIR_RELATIVE@),
                            GLOBAL_STATE_DIR@,
                        ),
                }
            },
            Event::ConfigurationFailed(error) => error == StartupError::HomeDirectory && value_at(
                values,
                ARG_DATA_DIR@,
            ) is None,
            _ => false,
        },
    }
}

/// Does the work of the first step but for reading the process arguments:
/// parses them, the program's name first, applies the server's rules and
/// resolves the directory of the global state. Where the parser turns the
/// arguments down, its error comes back for the driver to show; everything
/// else is an event for the machine.
pub fn configure(args: &Vec<String>) -> (event: Result<Event, clap::Error>)
    ensures
        match parse_outcome(command_line(), args.deep_view()) {
            None => event is Err,
            Some(values) => event matches Ok(found) && configured_by(values, found),
        },
{
    match resolve(args) {
        Ok(configuration) => {
            match get_data_dir(configuration.data_dir()) {
                Ok(storage_path) => Ok(Event::Configured(configuration, storage_path)),
                Err(error) => Ok(Event::ConfigurationFailed(error)),
            }
        },
        Err(ResolveError::Invalid(error)) => Ok(Event::ConfigurationFailed(error)),
        Err(ResolveError::Rejected(error)) => Err(error),
    }
}

} // verus!
