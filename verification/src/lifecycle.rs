//! The order of startup as a state machine: which step is in flight, what
//! ends it, and what follows.
//!
//! The machine decides and does nothing else. Its driver performs the work of
//! the step in flight and reports how it ended as a signal; the machine
//! answers with the next step. The laws at the end of this file hold of every
//! sequence of signals, whatever the driver reports.

use crate::error::StartupError;
use vstd::prelude::*;

verus! {

/// The states that the process passes through, in order. There is no way
/// back, and `Blocked` is left only when the process ends.
#[derive(Clone, Copy, Debug, PartialEq, Eq, Structural)]
pub enum Phase {
    /// No configuration yet.
    Unconfigured,
    /// The configuration is resolved and its data directory exists.
    Configured,
    /// The storage layers are built and wrapped for the engine.
    StorageReady,
    /// The server is started on the socket.
    Listening,
    /// The main thread is parked for good.
    Blocked,
}

/// The step in flight: the work that the driver has been asked for and has
/// not yet reported on.
#[derive(Clone, Copy, Debug, PartialEq, Eq, Structural)]
pub enum Stage {
    /// Reading the command line and resolving the configuration.
    ResolvingConfiguration,
    /// Creating the directory of the global state, with its parents.
    CreatingDataDirectory,
    /// Installing the hook that logs a failure before the process ends.
    InstallingFailureHook,
    /// Logging that startup begins.
    AnnouncingStart,
    /// Opening the storage environment in the data directory.
    OpeningEnvironment,
    /// Building the trie store on the environment.
    OpeningTrieStore,
    /// Building the global state on the trie store, seeded unless the store
    /// has a root.
    BuildingGlobalState { has_root: bool },
    /// Wrapping the global state for the engine.
    WrappingEngineState,
    /// Looking for a file at the socket's path.
    CheckingSocket,
    /// Logging that a stale socket file is removed.
    AnnouncingRemoval,
    /// Removing the stale socket file.
    RemovingSocket,
    /// Building and starting the server on the socket.
    StartingServer,
    /// Logging that the server listens.
    AnnouncingListening,
    /// Parked: nothing more is asked for.
    Blocked,
}

/// How the step in flight ended, as far as the order of startup depends on
/// it.
#[derive(Clone, Copy, Debug, PartialEq, Eq, Structural)]
pub enum Signal {
    /// The configuration was resolved.
    Configured,
    /// No configuration could be resolved, for this reason.
    ConfigurationFailed(StartupError),
    /// The work was done.
    Done,
    /// The work failed.
    Failed,
    /// The trie store was built; the store has a root, or has none.
    TrieStoreOpened { has_root: bool },
    /// The socket's path was looked at; a file exists there, or none.
    SocketChecked { exists: bool },
}

/// Where the machine stands: the step in flight, and the failure on which it
/// stopped, if it has.
#[derive(Clone, Copy, Debug, PartialEq, Eq, Structural)]
pub struct State {
    pub stage: Stage,
    pub failure: Option<StartupError>,
}

/// The place of a stage in the order of startup.
pub open spec fn rank(stage: Stage) -> nat {
    match stage {
        Stage::ResolvingConfiguration => 0,
        Stage::CreatingDataDirectory => 1,
        Stage::InstallingFailureHook => 2,
        Stage::AnnouncingStart => 3,
        Stage::OpeningEnvironment => 4,
        Stage::OpeningTrieStore => 5,
        Stage::BuildingGlobalState { .. } => 6,
        Stage::WrappingEngineState => 7,
        Stage::CheckingSocket => 8,
        Stage::AnnouncingRemoval => 9,
        Stage::RemovingSocket => 10,
        Stage::StartingServer => 11,
        Stage::AnnouncingListening => 12,
        Stage::Blocked => 13,
    }
}

/// The phase that a stage belongs to.
pub open spec fn phase_of(stage: Stage) -> Phase {
    match stage {
        Stage::ResolvingConfiguration | Stage::CreatingDataDirectory => Phase::Unconfigured,
        Stage::InstallingFailureHook
        | Stage::AnnouncingStart
        | Stage::OpeningEnvironment
        | Stage::OpeningTrieStore
        | Stage::BuildingGlobalState { .. }
        | Stage::WrappingEngineState => Phase::Configured,
        Stage::CheckingSocket
        | Stage::AnnouncingRemoval
        | Stage::RemovingSocket
        | Stage::StartingServer => Phase::StorageReady,
        Stage::AnnouncingListening => Phase::Listening,
        Stage::Blocked => Phase::Blocked,
    }
}

/// The place of a phase in the order of startup.
pub open spec fn phase_rank(phase: Phase) -> nat {
    match phase {
        Phase::Unconfigured => 0,
        Phase::Configured => 1,
        Phase::StorageReady => 2,
        Phase::Listening => 3,
        Phase::Blocked => 4,
    }
}

/// The stage that follows when `signal` ends `stage` well; `None` where the
/// signal is not one that ends this stage well. A stale socket file is
/// announced and removed before the server starts; without one the server
/// starts at once.
pub open spec fn successor(stage: Stage, signal: Signal) -> Option<Stage> {
    match (stage, signal) {
        (Stage::ResolvingConfiguration, Signal::Configured) => Some(Stage::CreatingDataDirectory),
        (Stage::CreatingDataDirectory, Signal::Done) => Some(Stage::InstallingFailureHook),
        (Stage::InstallingFailureHook, Signal::Done) => Some(Stage::AnnouncingStart),
        (Stage::AnnouncingStart, Signal::Done) => Some(Stage::OpeningEnvironment),
        (Stage::OpeningEnvironment, Signal::Done) => Some(Stage::OpeningTrieStore),
        (Stage::OpeningTrieStore, Signal::TrieStoreOpened { has_root }) => Some(
            Stage::BuildingGlobalState { has_root },
        ),
        (Stage::BuildingGlobalState { .. }, Signal::Done) => Some(Stage::WrappingEngineState),
        (Stage::WrappingEngineState, Signal::Done) => Some(Stage::CheckingSocket),
        (Stage::CheckingSocket, Signal::SocketChecked { exists }) => if exists {
            Some(Stage::AnnouncingRemoval)
        } else {
            Some(Stage::StartingServer)
        },
        (Stage::AnnouncingRemoval, Signal::Done) => Some(Stage::RemovingSocket),
        (Stage::RemovingSocket, Signal::Done) => Some(Stage::StartingServer),
        (Stage::StartingServer, Signal::Done) => Some(Stage::AnnouncingListening),
        (Stage::AnnouncingListening, Signal::Done) => Some(Stage::Blocked),
        _ => None,
    }
}

/// The failure on which the machine stops when `signal` does not end
/// `stage` well: the reason given for a configuration, the stage's own
/// reason where its work failed, and `UnexpectedEvent` for a signal that the
/// stage does not end with.
pub open spec fn failure_of(stage: Stage, signal: Signal) -> StartupError {
    match (stage, signal) {
        (Stage::ResolvingConfiguration, Signal::ConfigurationFailed(error)) => error,
        (Stage::CreatingDataDirectory, Signal::Failed) => StartupError::CreateDataDir,
        (Stage::OpeningEnvironment, Signal::Failed) => StartupError::Environment,
        (Stage::OpeningTrieStore, Signal::Failed) => StartupError::TrieStore,
        (Stage::BuildingGlobalState { .. }, Signal::Failed) => StartupError::GlobalState,
        (Stage::RemovingSocket, Signal::Failed) => StartupError::RemoveSocket,
        (Stage::StartingServer, Signal::Failed) => StartupError::ServerStart,
        _ => StartupError::UnexpectedEvent,
    }
}

/// Nothing moves the machine from this state: it has stopped on a failure,
/// or is blocked.
pub open spec fn is_terminal(state: State) -> bool {
    state.failure is Some || state.stage is Blocked
}

/// The state before any signal.
pub open spec fn initial_state() -> State {
    State { stage: Stage::ResolvingConfiguration, failure: None }
}

/// The state after `signal` arrives in `state`. A signal that ends the stage
/// well moves on to its successor; any other stops the machine on a failure,
/// at the stage where it stood.
pub open spec fn next_state(state: State, signal: Signal) -> State {
    if is_terminal(state) {
        state
    } else {
        match successor(state.stage, signal) {
            Some(stage) => State { stage, failure: None },
            None => State { stage: state.stage, failure: Some(failure_of(state.stage, signal)) },
        }
    }
}

/// The states that the machine passes through on the given signals: the
/// initial one, and after it the state that each signal leads to.
pub open spec fn trace(signals: Seq<Signal>) -> Seq<State>
    decreases signals.len(),
{
    if signals.len() == 0 {
        seq![initial_state()]
    } else {
        let before = trace(signals.drop_last());
        before.push(next_state(before.last(), signals.last()))
    }
}

/// Signal `i` found the machine at a stage of rank `at`, not stopped, and
/// ended that stage well.
pub open spec fn completed_at(signals: Seq<Signal>, i: int, at: nat) -> bool {
    &&& 0 <= i < signals.len()
    &&& rank(trace(signals)[i].stage) == at
    &&& trace(signals)[i].failure is None
    &&& successor(trace(signals)[i].stage, signals[i]) is Some
}

/// A signal never moves the machine back: neither to an earlier stage nor to
/// an earlier phase. A machine that has stopped or is blocked stays as it
/// is, and a failure never comes with a move.
pub proof fn lemma_no_transition_back(state: State, signal: Signal)
    ensures
        rank(next_state(state, signal).stage) >= rank(state.stage),
        phase_rank(phase_of(next_state(state, signal).stage)) >= phase_rank(phase_of(state.stage)),
        is_terminal(state) ==> next_state(state, signal) == state,
        next_state(state, signal).failure is Some ==> next_state(state, signal).stage
            == state.stage,
{
}

/// A signal moves the machine on by one stage, or from the socket check
/// straight to the server start, and only a machine that has not stopped.
/// No phase is passed over.
pub proof fn lemma_one_stage_at_a_time(state: State, signal: Signal)
    ensures
        phase_rank(phase_of(next_state(state, signal).stage)) <= phase_rank(phase_of(state.stage))
            + 1,
        rank(next_state(state, signal).stage) > rank(state.stage) ==> {
            &&& state.failure is None
            &&& successor(state.stage, signal) is Some
            &&& (rank(next_state(state, signal).stage) == rank(state.stage) + 1 || (state.stage
                == Stage::CheckingSocket && signal == (Signal::SocketChecked { exists: false })
                && next_state(state, signal).stage == Stage::StartingServer))
        },
{
}

/// The trace has one state more than there are signals, begins with the
/// initial state, and each signal leads from its state to the next.
pub proof fn lemma_trace_steps(signals: Seq<Signal>)
    ensures
        trace(signals).len() == signals.len() + 1,
        trace(signals)[0] == initial_state(),
        forall|k: int|
            0 <= k < signals.len() ==> #[trigger] trace(signals)[k + 1] == next_state(
                trace(signals)[k],
                signals[k],
            ),
    decreases signals.len(),
{
    if signals.len() > 0 {
        let shorter = signals.drop_last();
        lemma_trace_steps(shorter);
        assert forall|k: int| 0 <= k < signals.len() implies #[trigger] trace(signals)[k + 1]
            == next_state(trace(signals)[k], signals[k]) by {
            if k < shorter.len() {
                assert(trace(signals)[k + 1] == trace(shorter)[k + 1]);
            }
        }
    }
}

/// Along a trace the stages never go back.
pub proof fn lemma_trace_never_goes_back(signals: Seq<Signal>, i: int, j: int)
    requires
        0 <= i <= j <= signals.len(),
    ensures
        rank(trace(signals)[i].stage) <= rank(trace(signals)[j].stage),
        phase_rank(phase_of(trace(signals)[i].stage)) <= phase_rank(
            phase_of(trace(signals)[j].stage),
        ),
    decreases j - i,
{
    if i < j {
        lemma_trace_steps(signals);
        lemma_trace_never_goes_back(signals, i, j - 1);
        assert(trace(signals)[(j - 1) + 1] == next_state(trace(signals)[j - 1], signals[j - 1]));
        lemma_no_transition_back(trace(signals)[j - 1], signals[j - 1]);
    }
}

/// Between two places of a trace, every stage that lies between the stages
/// found there was stood at and ended well. The two stages of removing a
/// stale socket file are passed over where no such file exists, so for them
/// this holds only from a place at or after the first of them.
pub proof fn lemma_stages_in_order(signals: Seq<Signal>, from: int, to: int, at: nat)
    requires
        0 <= from <= to <= signals.len(),
        rank(trace(signals)[from].stage) <= at < rank(trace(signals)[to].stage),
        at == rank(Stage::AnnouncingRemoval) || at == rank(Stage::RemovingSocket) ==> rank(
            Stage::AnnouncingRemoval,
        ) <= rank(trace(signals)[from].stage),
    ensures
        exists|i: int| from <= i < to && completed_at(signals, i, at),
    decreases to - from,
{
    lemma_trace_steps(signals);
    let last = to - 1;
    assert(trace(signals)[last + 1] == next_state(trace(signals)[last], signals[last]));
    if at < rank(trace(signals)[last].stage) {
        lemma_stages_in_order(signals, from, last, at);
        let i = choose|i: int| from <= i < last && completed_at(signals, i, at);
        assert(from <= i < to && completed_at(signals, i, at));
    } else {
        lemma_one_stage_at_a_time(trace(signals)[last], signals[last]);
        lemma_trace_never_goes_back(signals, from, last);
        assert(completed_at(signals, last, at));
    }
}

/// The storage layers are built bottom up, each on the one before: the trie
/// store is asked for only after the environment was opened, the global
/// state only after the trie store was built, and the server is started only
/// after the global state was built and wrapped. No sequence of signals
/// leads around this order.
pub proof fn lemma_storage_layers_in_order(signals: Seq<Signal>, k: int)
    requires
        0 <= k <= signals.len(),
    ensures
        rank(trace(signals)[k].stage) >= rank(Stage::OpeningTrieStore) ==> exists|i: int|
            0 <= i < k && #[trigger] trace(signals)[i] == (State {
                stage: Stage::OpeningEnvironment,
                failure: None,
            }) && signals[i] == Signal::Done,
        rank(trace(signals)[k].stage) > rank(Stage::OpeningTrieStore) ==> exists|i: int|
            0 <= i < k && #[trigger] trace(signals)[i] == (State {
                stage: Stage::OpeningTrieStore,
                failure: None,
            }) && signals[i] is TrieStoreOpened,
        rank(trace(signals)[k].stage) >= rank(Stage::WrappingEngineState) ==> exists|i: int|
            0 <= i < k && (#[trigger] trace(signals)[i]).stage is BuildingGlobalState
                && trace(signals)[i].failure is None && signals[i] == Signal::Done,
        rank(trace(signals)[k].stage) >= rank(Stage::CheckingSocket) ==> exists|i: int|
            0 <= i < k && #[trigger] trace(signals)[i] == (State {
                stage: Stage::WrappingEngineState,
                failure: None,
            }) && signals[i] == Signal::Done,
{
    lemma_trace_steps(signals);
    let reached = rank(trace(signals)[k].stage);
    if reached >= rank(Stage::OpeningTrieStore) {
        let at = rank(Stage::OpeningEnvironment);
        lemma_stages_in_order(signals, 0, k, at);
        let i = choose|i: int| 0 <= i < k && completed_at(signals, i, at);
        assert(trace(signals)[i].stage == Stage::OpeningEnvironment);
    }
    if reached > rank(Stage::OpeningTrieStore) {
        let at = rank(Stage::OpeningTrieStore);
        lemma_stages_in_order(signals, 0, k, at);
        let i = choose|i: int| 0 <= i < k && completed_at(signals, i, at);
        assert(trace(signals)[i].stage == Stage::OpeningTrieStore);
    }
    if reached >= rank(Stage::WrappingEngineState) {
        let at = rank(Stage::BuildingGlobalState { has_root: false });
        lemma_stages_in_order(signals, 0, k, at);
        let i = choose|i: int| 0 <= i < k && completed_at(signals, i, at);
        assert(trace(signals)[i].stage is BuildingGlobalState);
    }
    if reached >= rank(Stage::CheckingSocket) {
        let at = rank(Stage::WrappingEngineState);
        lemma_stages_in_order(signals, 0, k, at);
        let i = choose|i: int| 0 <= i < k && completed_at(signals, i, at);
        assert(trace(signals)[i].stage == Stage::WrappingEngineState);
    }
}

/// Before the server is started the socket's path was looked at, and either
/// no file was there, or the file was removed, with success, in between.
pub proof fn lemma_socket_cleared_before_server(signals: Seq<Signal>, k: int)
    requires
        0 <= k <= signals.len(),
        rank(trace(signals)[k].stage) >= rank(Stage::StartingServer),
    ensures
        exists|i: int|
            0 <= i < k && #[trigger] trace(signals)[i] == (State {
                stage: Stage::CheckingSocket,
                failure: None,
            }) && (signals[i] == (Signal::SocketChecked { exists: false }) || (signals[i] == (
            Signal::SocketChecked { exists: true }) && exists|j: int|
                i < j < k && #[trigger] trace(signals)[j] == (State {
                    stage: Stage::RemovingSocket,
                    failure: None,
                }) && signals[j] == Signal::Done)),
{
    lemma_trace_steps(signals);
    let checking = rank(Stage::CheckingSocket);
    lemma_stages_in_order(signals, 0, k, checking);
    let i = choose|i: int| 0 <= i < k && completed_at(signals, i, checking);
    assert(trace(signals)[i].stage == Stage::CheckingSocket);
    if signals[i] == (Signal::SocketChecked { exists: true }) {
        let removing = rank(Stage::RemovingSocket);
        assert(trace(signals)[i + 1].stage == Stage::AnnouncingRemoval);
        lemma_stages_in_order(signals, i + 1, k, removing);
        let j = choose|j: int| i + 1 <= j < k && completed_at(signals, j, removing);
        assert(trace(signals)[j].stage == Stage::RemovingSocket);
    }
}

/// Where the socket's path was looked at and no file was there, no removal
/// is ever asked for, and none is announced in the log.
pub proof fn lemma_no_removal_without_file(signals: Seq<Signal>, i: int, j: int)
    requires
        0 <= i < signals.len(),
        trace(signals)[i] == (State { stage: Stage::CheckingSocket, failure: None }),
        signals[i] == (Signal::SocketChecked { exists: false }),
        0 <= j <= signals.len(),
    ensures
        trace(signals)[j].stage != Stage::AnnouncingRemoval,
        trace(signals)[j].stage != Stage::RemovingSocket,
{
    lemma_trace_steps(signals);
    if j <= i {
        lemma_trace_never_goes_back(signals, j, i);
    } else {
        assert(trace(signals)[i + 1].stage == Stage::StartingServer);
        lemma_trace_never_goes_back(signals, i + 1, j);
    }
}

} // verus!
