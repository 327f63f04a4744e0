use casperlabs_engine_grpc_server::config::Configuration;
use casperlabs_engine_grpc_server::error::StartupError;
use casperlabs_engine_grpc_server::lifecycle::{Phase, Signal, Stage, State};
use casperlabs_engine_grpc_server::log_level::LogLevel;
use casperlabs_engine_grpc_server::startup::{
    advance, configure, phase, signal, Action, Event, Startup,
};

fn configuration(socket: &str, level: LogLevel) -> Configuration {
    Configuration { socket_path: socket.to_string(), data_dir: None, log_level: level }
}

fn configured(socket: &str, path: &str) -> Event {
    Event::Configured(configuration(socket, LogLevel::Debug), path.to_string())
}

fn describe(action: &Action) -> String {
    match action {
        Action::ResolveConfiguration => "resolve".to_string(),
        Action::CreateDirectory(path) => format!("mkdir {}", path),
        Action::InstallFailureHook(settings) => {
            format!("hook {} {:?}", settings.process_name, settings.level_filter.level)
        }
        Action::Log(record) => {
            let mut line = format!("log {:?} {}", record.level, record.message);
            for entry in record.properties.entries().iter() {
                line = format!("{} {}={}", line, entry.key, entry.value);
            }
            line
        }
        Action::OpenEnvironment(path) => format!("environment {}", path),
        Action::OpenTrieStore(options) => {
            format!("trie store {:?} {}", options.name, options.flags.bits())
        }
        Action::BuildGlobalState(seed) => format!("global state {:?}", seed),
        Action::WrapEngineState => "engine state".to_string(),
        Action::CheckSocket(path) => format!("check {}", path),
        Action::RemoveSocket(path) => format!("remove {}", path),
        Action::StartServer(path) => format!("serve {}", path),
        Action::Block => "block".to_string(),
        Action::Abort(error, _) => format!("abort {:?}", error),
    }
}

fn run(events: Vec<Event>) -> (Startup, Vec<String>) {
    let mut startup = Startup::new();
    let mut asked = vec![describe(&startup.action())];
    for event in events {
        let action = startup.step(event);
        asked.push(describe(&action));
    }
    (startup, asked)
}

fn until_socket_check() -> Vec<Event> {
    vec![
        configured("/tmp/sock", "/data/global_state"),
        Event::Done,
        Event::Done,
        Event::Done,
        Event::Done,
        Event::TrieStoreOpened { entries: 0 },
        Event::Done,
        Event::Done,
    ]
}

#[test]
fn new_machine_waits_for_the_configuration() {
    let startup = Startup::new();
    assert_eq!(startup.stage(), Stage::ResolvingConfiguration);
    assert_eq!(startup.failure(), None);
    assert_eq!(startup.phase(), Phase::Unconfigured);
    assert_eq!(describe(&startup.action()), "resolve");
}

#[test]
fn startup_without_stale_socket_runs_straight_to_blocked() {
    let mut events = until_socket_check();
    events.push(Event::SocketChecked { exists: false });
    events.push(Event::Done);
    events.push(Event::Done);
    let (startup, asked) = run(events);
    assert_eq!(
        asked,
        vec![
            "resolve".to_string(),
            "mkdir /data/global_state".to_string(),
            "hook casperlabs-engine-grpc-server Debug".to_string(),
            "log Debug starting Execution Engine Server".to_string(),
            "environment /data/global_state".to_string(),
            "trie store None 0".to_string(),
            format!("global state {:?}", vec![[0u8; 20]]),
            "engine state".to_string(),
            "check /tmp/sock".to_string(),
            "serve /tmp/sock".to_string(),
            "log Info {listener} is listening on socket: {socket} \
             listener=casperlabs-engine-grpc-server socket=/tmp/sock"
                .to_string(),
            "block".to_string(),
        ]
    );
    assert_eq!(startup.stage(), Stage::Blocked);
    assert_eq!(startup.phase(), Phase::Blocked);
    assert_eq!(startup.failure(), None);
}

#[test]
fn stale_socket_is_announced_and_removed_before_the_server_starts() {
    let mut events = until_socket_check();
    events.push(Event::SocketChecked { exists: true });
    events.push(Event::Done);
    events.push(Event::Done);
    let (startup, asked) = run(events);
    let tail: Vec<String> = asked[8..].to_vec();
    assert_eq!(
        tail,
        vec![
            "check /tmp/sock".to_string(),
            "log Info removing old socket file".to_string(),
            "remove /tmp/sock".to_string(),
            "serve /tmp/sock".to_string(),
        ]
    );
    assert_eq!(startup.stage(), Stage::StartingServer);
    assert_eq!(startup.phase(), Phase::StorageReady);
}

#[test]
fn absent_socket_file_means_no_removal_and_no_removal_line() {
    let mut events = until_socket_check();
    events.push(Event::SocketChecked { exists: false });
    events.push(Event::Done);
    events.push(Event::Done);
    events.push(Event::Done);
    let (_, asked) = run(events);
    for line in asked.iter() {
        assert!(!line.starts_with("remove "));
        assert!(!line.contains("removing old socket file"));
    }
}

#[test]
fn unremovable_stale_socket_is_fatal() {
    let mut events = until_socket_check();
    events.push(Event::SocketChecked { exists: true });
    events.push(Event::Done);
    events.push(Event::Failed);
    let (startup, asked) = run(events);
    assert_eq!(asked.last().unwrap(), "abort RemoveSocket");
    assert_eq!(startup.failure(), Some(StartupError::RemoveSocket));
    assert_eq!(startup.stage(), Stage::RemovingSocket);
}

#[test]
fn store_with_a_root_gets_no_seed() {
    let events = vec![
        configured("/tmp/sock", "/data/global_state"),
        Event::Done,
        Event::Done,
        Event::Done,
        Event::Done,
        Event::TrieStoreOpened { entries: 3 },
    ];
    let (startup, asked) = run(events);
    assert_eq!(asked.last().unwrap(), &format!("global state {:?}", Vec::<[u8; 20]>::new()));
    assert_eq!(startup.stage(), Stage::BuildingGlobalState { has_root: true });
}

#[test]
fn each_storage_layer_fails_with_its_own_reason() {
    let prefix = |count: usize| -> Vec<Event> {
        let mut events = vec![configured("s", "/d")];
        for _ in 0..count {
            events.push(Event::Done);
        }
        events
    };
    let mut directory = prefix(0);
    directory.push(Event::Failed);
    let (machine, asked) = run(directory);
    assert_eq!(asked.last().unwrap(), "abort CreateDataDir");
    assert_eq!(machine.phase(), Phase::Unconfigured);

    let mut environment = prefix(3);
    environment.push(Event::Failed);
    let (machine, asked) = run(environment);
    assert_eq!(asked.last().unwrap(), "abort Environment");
    assert_eq!(machine.stage(), Stage::OpeningEnvironment);
    assert_eq!(machine.phase(), Phase::Configured);

    let mut trie = prefix(4);
    trie.push(Event::Failed);
    let (_, asked) = run(trie);
    assert_eq!(asked.last().unwrap(), "abort TrieStore");

    let mut global = prefix(4);
    global.push(Event::TrieStoreOpened { entries: 0 });
    global.push(Event::Failed);
    let (_, asked) = run(global);
    assert_eq!(asked.last().unwrap(), "abort GlobalState");
}

#[test]
fn server_that_does_not_start_is_fatal() {
    let mut events = until_socket_check();
    events.push(Event::SocketChecked { exists: false });
    events.push(Event::Failed);
    let (startup, asked) = run(events);
    assert_eq!(asked.last().unwrap(), "abort ServerStart");
    assert_eq!(startup.failure(), Some(StartupError::ServerStart));
    assert_eq!(startup.phase(), Phase::StorageReady);
}

#[test]
fn failed_configuration_stops_the_machine_with_its_reason() {
    let (startup, asked) = run(vec![Event::ConfigurationFailed(StartupError::HomeDirectory)]);
    assert_eq!(asked, vec!["resolve".to_string(), "abort HomeDirectory".to_string()]);
    assert_eq!(startup.stage(), Stage::ResolvingConfiguration);
    let (_, asked) = run(vec![Event::ConfigurationFailed(StartupError::SocketRequired)]);
    assert_eq!(asked.last().unwrap(), "abort SocketRequired");
}

#[test]
fn layers_cannot_be_asked_for_out_of_order() {
    let (startup, asked) = run(vec![Event::TrieStoreOpened { entries: 0 }]);
    assert_eq!(asked.last().unwrap(), "abort UnexpectedEvent");
    assert_eq!(startup.stage(), Stage::ResolvingConfiguration);

    let (startup, asked) = run(vec![
        configured("s", "/d"),
        Event::Done,
        Event::Done,
        Event::Done,
        Event::TrieStoreOpened { entries: 0 },
    ]);
    assert_eq!(asked.last().unwrap(), "abort UnexpectedEvent");
    assert_eq!(startup.stage(), Stage::OpeningEnvironment);
    for line in asked.iter() {
        assert!(!line.starts_with("global state"));
        assert!(!line.starts_with("serve"));
    }

    let (_, asked) = run(vec![
        configured("s", "/d"),
        Event::Done,
        Event::Done,
        Event::Done,
        Event::Done,
        Event::Done,
    ]);
    assert_eq!(asked.last().unwrap(), "abort UnexpectedEvent");

    let (_, asked) = run(vec![configured("s", "/d"), Event::SocketChecked { exists: false }]);
    assert_eq!(asked.last().unwrap(), "abort UnexpectedEvent");
}

#[test]
fn stopped_machine_stays_stopped() {
    let (mut startup, _) = run(vec![configured("s", "/d"), Event::Failed]);
    assert_eq!(startup.failure(), Some(StartupError::CreateDataDir));
    for event in vec![
        Event::Done,
        Event::Failed,
        configured("other", "/elsewhere"),
        Event::SocketChecked { exists: false },
    ] {
        let action = startup.step(event);
        assert_eq!(describe(&action), "abort CreateDataDir");
        assert_eq!(startup.stage(), Stage::CreatingDataDirectory);
    }
}

#[test]
fn blocked_machine_stays_blocked() {
    let mut events = until_socket_check();
    events.push(Event::SocketChecked { exists: false });
    events.push(Event::Done);
    events.push(Event::Done);
    let (mut startup, _) = run(events);
    assert_eq!(startup.stage(), Stage::Blocked);
    for event in vec![Event::Done, Event::Failed, configured("other", "/elsewhere")] {
        let action = startup.step(event);
        assert_eq!(describe(&action), "block");
        assert_eq!(startup.stage(), Stage::Blocked);
        assert_eq!(startup.failure(), None);
    }
}

#[test]
fn second_configuration_is_not_taken() {
    let (startup, asked) = run(vec![configured("first", "/one"), configured("second", "/two")]);
    assert_eq!(asked, vec![
        "resolve".to_string(),
        "mkdir /one".to_string(),
        "abort UnexpectedEvent".to_string(),
    ]);
    assert_eq!(startup.stage(), Stage::CreatingDataDirectory);
}

#[test]
fn phases_follow_the_stages() {
    assert_eq!(phase(Stage::ResolvingConfiguration), Phase::Unconfigured);
    assert_eq!(phase(Stage::CreatingDataDirectory), Phase::Unconfigured);
    assert_eq!(phase(Stage::InstallingFailureHook), Phase::Configured);
    assert_eq!(phase(Stage::AnnouncingStart), Phase::Configured);
    assert_eq!(phase(Stage::OpeningEnvironment), Phase::Configured);
    assert_eq!(phase(Stage::OpeningTrieStore), Phase::Configured);
    assert_eq!(phase(Stage::BuildingGlobalState { has_root: false }), Phase::Configured);
    assert_eq!(phase(Stage::WrappingEngineState), Phase::Configured);
    assert_eq!(phase(Stage::CheckingSocket), Phase::StorageReady);
    assert_eq!(phase(Stage::AnnouncingRemoval), Phase::StorageReady);
    assert_eq!(phase(Stage::RemovingSocket), Phase::StorageReady);
    assert_eq!(phase(Stage::StartingServer), Phase::StorageReady);
    assert_eq!(phase(Stage::AnnouncingListening), Phase::Listening);
    assert_eq!(phase(Stage::Blocked), Phase::Blocked);
}

#[test]
fn advance_moves_one_state_on() {
    let start = State { stage: Stage::ResolvingConfiguration, failure: None };
    let next = advance(start, Signal::Configured);
    assert_eq!(next, State { stage: Stage::CreatingDataDirectory, failure: None });
    let failed = advance(next, Signal::Failed);
    assert_eq!(
        failed,
        State { stage: Stage::CreatingDataDirectory, failure: Some(StartupError::CreateDataDir) }
    );
    assert_eq!(advance(failed, Signal::Done), failed);
    let check = State { stage: Stage::CheckingSocket, failure: None };
    assert_eq!(advance(check, Signal::SocketChecked { exists: true }).stage, Stage::AnnouncingRemoval);
    assert_eq!(advance(check, Signal::SocketChecked { exists: false }).stage, Stage::StartingServer);
    assert_eq!(
        advance(check, Signal::Done),
        State { stage: Stage::CheckingSocket, failure: Some(StartupError::UnexpectedEvent) }
    );
}

#[test]
fn events_stand_for_their_signals() {
    assert_eq!(signal(&configured("s", "/d")), Signal::Configured);
    assert_eq!(
        signal(&Event::ConfigurationFailed(StartupError::HomeDirectory)),
        Signal::ConfigurationFailed(StartupError::HomeDirectory)
    );
    assert_eq!(signal(&Event::Done), Signal::Done);
    assert_eq!(signal(&Event::Failed), Signal::Failed);
    assert_eq!(
        signal(&Event::TrieStoreOpened { entries: 3 }),
        Signal::TrieStoreOpened { has_root: true }
    );
    assert_eq!(
        signal(&Event::TrieStoreOpened { entries: 1 }),
        Signal::TrieStoreOpened { has_root: true }
    );
    assert_eq!(
        signal(&Event::TrieStoreOpened { entries: usize::MAX }),
        Signal::TrieStoreOpened { has_root: true }
    );
    assert_eq!(
        signal(&Event::TrieStoreOpened { entries: 0 }),
        Signal::TrieStoreOpened { has_root: false }
    );
    assert_eq!(
        signal(&Event::SocketChecked { exists: false }),
        Signal::SocketChecked { exists: false }
    );
}

#[test]
fn configure_with_data_dir_fixes_the_storage_path() {
    let args: Vec<String> = ["ee", "/tmp/sock", "--loglevel", "error", "--data-dir", "/tmp/x"]
        .iter()
        .map(|item| item.to_string())
        .collect();
    match configure(&args) {
        Ok(Event::Configured(configuration, storage_path)) => {
            assert_eq!(configuration.socket_path, "/tmp/sock");
            assert_eq!(configuration.log_level, LogLevel::Error);
            assert_eq!(configuration.data_dir, Some("/tmp/x".to_string()));
            assert_eq!(storage_path, "/tmp/x/global_state");
        }
        _ => panic!("valid arguments did not configure"),
    }
}

#[test]
fn configure_hands_the_parser_error_back() {
    let args: Vec<String> = ["ee", "--loglevel", "error"].iter().map(|item| item.to_string()).collect();
    match configure(&args) {
        Err(error) => assert_eq!(error.kind, clap::ErrorKind::MissingRequiredArgument),
        Ok(_) => panic!("a command line without a socket configured"),
    }
}

#[test]
fn end_to_end_startup_from_the_command_line() {
    let args: Vec<String> = ["casperlabs-engine-grpc-server", "/tmp/sock", "--loglevel", "debug"]
        .iter()
        .map(|item| item.to_string())
        .collect();
    let home = dirs::home_dir().and_then(|path| path.into_os_string().into_string().ok());
    let mut startup = Startup::new();
    assert_eq!(describe(&startup.action()), "resolve");
    let event = configure(&args).unwrap_or_else(|_| panic!("valid arguments were turned down"));
    let home = match home {
        Some(home) => home,
        None => {
            assert!(matches!(event, Event::ConfigurationFailed(StartupError::HomeDirectory)));
            let action = startup.step(event);
            assert_eq!(describe(&action), "abort HomeDirectory");
            return;
        }
    };
    let directory = format!("{}/.casperlabs/global_state", home.trim_end_matches('/'));
    let mut asked = Vec::new();
    asked.push(describe(&startup.step(event)));
    asked.push(describe(&startup.step(Event::Done)));
    asked.push(describe(&startup.step(Event::Done)));
    asked.push(describe(&startup.step(Event::Done)));
    asked.push(describe(&startup.step(Event::Done)));
    asked.push(describe(&startup.step(Event::TrieStoreOpened { entries: 0 })));
    asked.push(describe(&startup.step(Event::Done)));
    asked.push(describe(&startup.step(Event::Done)));
    asked.push(describe(&startup.step(Event::SocketChecked { exists: false })));
    asked.push(describe(&startup.step(Event::Done)));
    asked.push(describe(&startup.step(Event::Done)));
    assert_eq!(
        asked,
        vec![
            format!("mkdir {}", directory),
            "hook casperlabs-engine-grpc-server Debug".to_string(),
            "log Debug starting Execution Engine Server".to_string(),
            format!("environment {}", directory),
            "trie store None 0".to_string(),
            format!("global state {:?}", vec![[0u8; 20]]),
            "engine state".to_string(),
            "check /tmp/sock".to_string(),
            "serve /tmp/sock".to_string(),
            "log Info {listener} is listening on socket: {socket} \
             listener=casperlabs-engine-grpc-server socket=/tmp/sock"
                .to_string(),
            "block".to_string(),
        ]
    );
    assert_eq!(startup.phase(), Phase::Blocked);
    assert_eq!(describe(&startup.step(Event::Done)), "block");
}

fn abort_message(action: Action) -> String {
    match action {
        Action::Abort(_, message) => message,
        _ => panic!("the machine did not stop"),
    }
}

#[test]
fn failed_directory_creation_names_the_full_path() {
    let mut startup = Startup::new();
    startup.step(configured("/tmp/sock", "/data/x/global_state"));
    let action = startup.step(Event::Failed);
    assert!(matches!(action, Action::Abort(StartupError::CreateDataDir, _)));
    let message = abort_message(action);
    assert_eq!(message, "Could not create directory: \"/data/x/global_state\"");
    assert!(message.starts_with("Could not create directory"));
    assert!(message.contains("/data/x/global_state"));
    assert_eq!(
        abort_message(startup.action()),
        "Could not create directory: \"/data/x/global_state\""
    );
}

#[test]
fn other_failures_are_reported_with_their_own_message() {
    let mut events = until_socket_check();
    events.push(Event::SocketChecked { exists: false });
    events.push(Event::Failed);
    let (startup, _) = run(events);
    assert_eq!(abort_message(startup.action()), "failed to start Execution Engine Server");

    let (startup, _) = run(vec![Event::ConfigurationFailed(StartupError::CreateDataDir)]);
    assert_eq!(abort_message(startup.action()), "Could not create directory");

    let (startup, _) = run(vec![Event::ConfigurationFailed(StartupError::HomeDirectory)]);
    assert_eq!(abort_message(startup.action()), "Could not get home directory");

    let (startup, _) = run(vec![configured("s", "/d"), Event::SocketChecked { exists: true }]);
    assert_eq!(abort_message(startup.action()), "unexpected event during startup");

    let (startup, _) = run(vec![
        configured("s", "/d"),
        Event::Done,
        Event::Done,
        Event::Done,
        Event::Failed,
    ]);
    assert_eq!(abort_message(startup.action()), "Could not create LmdbEnvironment");
}

#[test]
fn start_line_is_at_debug_and_comes_before_the_socket_is_looked_at() {
    let (_, asked) = run(until_socket_check());
    let start = asked.iter().position(|line| line == "log Debug starting Execution Engine Server");
    let check = asked.iter().position(|line| line.starts_with("check "));
    assert_eq!(start, Some(3));
    assert_eq!(check, Some(8));
    let logs: Vec<&String> = asked.iter().filter(|line| line.starts_with("log ")).collect();
    assert_eq!(logs.len(), 1);
}

#[test]
fn removal_line_stays_at_info() {
    let mut events = until_socket_check();
    events.push(Event::SocketChecked { exists: true });
    let (_, asked) = run(events);
    assert_eq!(asked.last().unwrap(), "log Info removing old socket file");
}
