use bench_bootstrap::backend::{ConnectFailure, ConnectionError};
use bench_bootstrap::bootstrap::{
    Action, Bootstrap, BootstrapError, Event, Failure, Outcome, Stage, EXIT_FAILURE, EXIT_SUCCESS,
};
use bench_bootstrap::config::{ConfigError, RawInputs};
use bench_bootstrap::tokenizer::{PathProbe, TokenizerError};

const LOCAL: PathProbe = PathProbe { exists: true, is_directory: true, has_definition_file: true };

const MISSING: PathProbe =
    PathProbe { exists: false, is_directory: false, has_definition_file: false };

fn scenario_inputs(socket: &str) -> RawInputs {
    let mut raw = RawInputs::for_tokenizer("/local/dir".to_string());
    raw.batch_sizes = Some(vec![1, 4]);
    raw.sequence_length = Some(10);
    raw.decode_length = Some(8);
    raw.runs = Some(3);
    raw.warmups = Some(1);
    raw.backend_socket_path = Some(socket.to_string());
    raw
}

/// Feeds the events in order and returns the last state with every action.
fn drive(events: Vec<Event>) -> (Bootstrap, Vec<Action>) {
    let mut bootstrap = Bootstrap::new();
    let mut actions = Vec::new();
    for event in events {
        let (next, action) = bootstrap.step(event);
        bootstrap = next;
        actions.push(action);
    }
    (bootstrap, actions)
}

fn is_abort(action: &Action) -> bool {
    matches!(action, Action::Abort { code, .. } if *code != 0)
}

#[test]
fn a_new_bootstrap_waits_for_inputs() {
    let bootstrap = Bootstrap::new();
    assert_eq!(bootstrap.stage(), Stage::Init);
    assert!(bootstrap.config().is_none());
    assert_eq!(bootstrap.probe(), None);
    assert!(bootstrap.failure().is_none());
    assert_eq!(bootstrap.exit_code(), None);
}

#[test]
fn exit_statuses() {
    assert_eq!(EXIT_SUCCESS, 0);
    assert_eq!(EXIT_FAILURE, 1);
}

#[test]
fn scenario_local_tokenizer_and_live_backend_runs_to_success() {
    let bootstrap = Bootstrap::new();
    let (bootstrap, action) = bootstrap.step(Event::Inputs(scenario_inputs("/tmp/valid-socket")));
    assert_eq!(bootstrap.stage(), Stage::ConfigResolved);
    assert_eq!(action, Action::ProbePath { path: "/local/dir".to_string() });

    let (bootstrap, action) = bootstrap.step(Event::PathProbed(LOCAL));
    assert_eq!(bootstrap.stage(), Stage::ConfigResolved);
    assert_eq!(bootstrap.probe(), Some(LOCAL));
    assert_eq!(action, Action::LoadLocal { directory: "/local/dir".to_string() });

    let (bootstrap, action) = bootstrap.step(Event::TokenizerLoaded);
    assert_eq!(bootstrap.stage(), Stage::TokenizerReady);
    assert_eq!(action, Action::StartRuntime);

    let (bootstrap, action) = bootstrap.step(Event::RuntimeStarted);
    assert_eq!(bootstrap.stage(), Stage::RuntimeStarted);
    assert_eq!(action, Action::Connect { socket_path: "/tmp/valid-socket".to_string() });

    let (bootstrap, action) = bootstrap.step(Event::Connected);
    assert_eq!(bootstrap.stage(), Stage::BackendConnected);
    assert_eq!(action, Action::ResetCache { scope: None });

    let (bootstrap, action) = bootstrap.step(Event::CacheCleared);
    assert_eq!(bootstrap.stage(), Stage::CacheCleared);
    assert_eq!(action, Action::HandOff);
    {
        let plan = bootstrap.config().unwrap();
        assert_eq!(plan.tokenizer_id(), "/local/dir");
        assert_eq!(plan.batch_sizes(), &vec![1u32, 4]);
        assert_eq!(plan.sequence_length(), 10);
        assert_eq!(plan.decode_length(), 8);
        assert_eq!(plan.runs(), 3);
        assert_eq!(plan.warmups(), 1);
        assert_eq!(plan.backend_socket_path(), "/tmp/valid-socket");
        assert_eq!(plan.generation_params(), None);
    }

    let (bootstrap, action) = bootstrap.step(Event::HandedOff);
    assert_eq!(bootstrap.stage(), Stage::Running);
    assert_eq!(action, Action::AwaitRun);

    let (bootstrap, action) = bootstrap.step(Event::RunCompleted);
    assert_eq!(bootstrap.stage(), Stage::Terminal(Outcome::Success));
    assert_eq!(action, Action::Exit { code: 0 });
    assert_eq!(bootstrap.exit_code(), Some(0));
    assert!(bootstrap.failure().is_none());
}

#[test]
fn scenario_unreachable_socket_fails_before_the_run() {
    let (bootstrap, actions) = drive(vec![
        Event::Inputs(scenario_inputs("/tmp/unreachable-socket")),
        Event::PathProbed(LOCAL),
        Event::TokenizerLoaded,
        Event::RuntimeStarted,
        Event::ConnectFailed {
            kind: ConnectFailure::Unreachable,
            cause: "No such file or directory".to_string(),
        },
    ]);
    assert_eq!(bootstrap.stage(), Stage::Terminal(Outcome::Failure));
    assert_eq!(bootstrap.exit_code(), Some(1));
    assert_eq!(
        actions[3],
        Action::Connect { socket_path: "/tmp/unreachable-socket".to_string() }
    );
    assert_eq!(
        actions[4],
        Action::Abort {
            code: 1,
            diagnostic: "backend connection: backend unreachable: No such file or directory"
                .to_string()
        }
    );
    assert!(!actions.contains(&Action::HandOff));
    assert!(!actions.contains(&Action::AwaitRun));
    assert_eq!(
        bootstrap.failure(),
        Some(&Failure {
            stage: Stage::RuntimeStarted,
            error: BootstrapError::Connection(ConnectionError::Unreachable {
                cause: "No such file or directory".to_string()
            }),
        })
    );
}

#[test]
fn scenario_empty_batch_list_fails_at_once() {
    let mut raw = scenario_inputs("/tmp/valid-socket");
    raw.batch_sizes = Some(vec![]);
    let (bootstrap, actions) = drive(vec![Event::Inputs(raw)]);
    assert_eq!(bootstrap.stage(), Stage::Terminal(Outcome::Failure));
    assert_eq!(
        actions,
        vec![Action::Abort {
            code: 1,
            diagnostic: "configuration: batch size list is empty".to_string()
        }]
    );
    assert!(bootstrap.config().is_none());
    assert_eq!(bootstrap.probe(), None);
    assert_eq!(
        bootstrap.failure(),
        Some(&Failure {
            stage: Stage::Init,
            error: BootstrapError::Config(ConfigError::EmptyBatchSizes)
        })
    );
    assert_eq!(bootstrap.exit_code(), Some(1));
}

#[test]
fn local_directory_is_loaded_whatever_the_revision() {
    let mut raw = scenario_inputs("/tmp/valid-socket");
    raw.revision = Some("refs/pr/7".to_string());
    let (_, actions) = drive(vec![Event::Inputs(raw), Event::PathProbed(LOCAL)]);
    assert_eq!(actions[1], Action::LoadLocal { directory: "/local/dir".to_string() });
}

#[test]
fn missing_path_is_fetched_at_the_plans_revision() {
    let mut raw = scenario_inputs("/tmp/valid-socket");
    raw.tokenizer_id = Some("bigscience/bloom".to_string());
    raw.revision = Some("v2".to_string());
    let (bootstrap, actions) = drive(vec![Event::Inputs(raw), Event::PathProbed(MISSING)]);
    assert_eq!(bootstrap.stage(), Stage::ConfigResolved);
    assert_eq!(actions[0], Action::ProbePath { path: "bigscience/bloom".to_string() });
    assert_eq!(
        actions[1],
        Action::Fetch { identifier: "bigscience/bloom".to_string(), revision: "v2".to_string() }
    );
}

#[test]
fn default_revision_scopes_the_fetch() {
    let raw = RawInputs::for_tokenizer("gpt2".to_string());
    let (_, actions) = drive(vec![Event::Inputs(raw), Event::PathProbed(MISSING)]);
    assert_eq!(
        actions[1],
        Action::Fetch { identifier: "gpt2".to_string(), revision: "main".to_string() }
    );
}

#[test]
fn directory_without_definition_file_is_fetched() {
    let probe = PathProbe { exists: true, is_directory: true, has_definition_file: false };
    let (_, actions) =
        drive(vec![Event::Inputs(scenario_inputs("/tmp/s")), Event::PathProbed(probe)]);
    assert_eq!(
        actions[1],
        Action::Fetch { identifier: "/local/dir".to_string(), revision: "main".to_string() }
    );
}

#[test]
fn failed_fetch_never_reaches_the_backend() {
    let (bootstrap, actions) = drive(vec![
        Event::Inputs(scenario_inputs("/tmp/valid-socket")),
        Event::PathProbed(MISSING),
        Event::TokenizerFailed { unreadable: false, cause: "offline".to_string() },
        Event::RuntimeStarted,
        Event::Connected,
        Event::CacheCleared,
    ]);
    assert_eq!(bootstrap.stage(), Stage::Terminal(Outcome::Failure));
    let expected = Action::Abort {
        code: 1,
        diagnostic: "tokenizer acquisition: tokenizer download failed: offline".to_string(),
    };
    assert_eq!(actions[2], expected);
    assert_eq!(actions[3], expected);
    assert_eq!(actions[4], expected);
    assert_eq!(actions[5], expected);
    assert!(actions.iter().all(|a| !matches!(a, Action::Connect { .. } | Action::StartRuntime)));
    assert_eq!(
        bootstrap.failure().unwrap().error,
        BootstrapError::Tokenizer(TokenizerError::DownloadFailed { cause: "offline".to_string() })
    );
    assert!(bootstrap.config().is_some());
}

#[test]
fn failed_local_load_is_classified_by_what_failed() {
    let (bootstrap, actions) = drive(vec![
        Event::Inputs(scenario_inputs("/tmp/valid-socket")),
        Event::PathProbed(LOCAL),
        Event::TokenizerFailed { unreadable: false, cause: "expected value".to_string() },
    ]);
    assert_eq!(
        actions[2],
        Action::Abort {
            code: 1,
            diagnostic: "tokenizer acquisition: tokenizer definition is invalid: expected value"
                .to_string()
        }
    );
    assert_eq!(
        bootstrap.failure().unwrap().error,
        BootstrapError::Tokenizer(TokenizerError::InvalidFormat {
            cause: "expected value".to_string()
        })
    );

    let (bootstrap, _) = drive(vec![
        Event::Inputs(scenario_inputs("/tmp/valid-socket")),
        Event::PathProbed(LOCAL),
        Event::TokenizerFailed { unreadable: true, cause: "permission denied".to_string() },
    ]);
    assert_eq!(
        bootstrap.failure().unwrap().error,
        BootstrapError::Tokenizer(TokenizerError::NotFound {
            cause: "permission denied".to_string()
        })
    );
}

#[test]
fn tokenizer_cannot_be_reported_before_the_probe() {
    let (bootstrap, actions) = drive(vec![
        Event::Inputs(scenario_inputs("/tmp/valid-socket")),
        Event::TokenizerLoaded,
    ]);
    assert_eq!(bootstrap.stage(), Stage::Terminal(Outcome::Failure));
    assert_eq!(
        actions[1],
        Action::Abort {
            code: 1,
            diagnostic: "tokenizer acquisition: event out of order".to_string()
        }
    );
}

#[test]
fn a_second_probe_is_out_of_order() {
    let (bootstrap, actions) = drive(vec![
        Event::Inputs(scenario_inputs("/tmp/valid-socket")),
        Event::PathProbed(LOCAL),
        Event::PathProbed(MISSING),
    ]);
    assert_eq!(bootstrap.stage(), Stage::Terminal(Outcome::Failure));
    assert!(is_abort(&actions[2]));
    assert_eq!(bootstrap.probe(), Some(LOCAL));
    assert_eq!(bootstrap.failure().unwrap().error, BootstrapError::UnexpectedEvent);
}

#[test]
fn unacknowledged_reset_prevents_the_hand_off() {
    let (bootstrap, actions) = drive(vec![
        Event::Inputs(scenario_inputs("/tmp/valid-socket")),
        Event::PathProbed(LOCAL),
        Event::TokenizerLoaded,
        Event::RuntimeStarted,
        Event::Connected,
        Event::CacheResetFailed { cause: "shard 1 did not answer".to_string() },
        Event::HandedOff,
        Event::RunCompleted,
    ]);
    assert_eq!(bootstrap.stage(), Stage::Terminal(Outcome::Failure));
    assert_eq!(
        actions[5],
        Action::Abort {
            code: 1,
            diagnostic: "cache reset: cache reset failed: shard 1 did not answer".to_string()
        }
    );
    assert!(is_abort(&actions[6]));
    assert!(is_abort(&actions[7]));
    assert!(!actions.contains(&Action::HandOff));
    assert!(!actions.contains(&Action::Exit { code: 0 }));
    assert_eq!(
        bootstrap.failure().unwrap().error,
        BootstrapError::Connection(ConnectionError::ResetFailed {
            cause: "shard 1 did not answer".to_string()
        })
    );
}

#[test]
fn handshake_failure_is_kept_apart_from_unreachable() {
    let (bootstrap, actions) = drive(vec![
        Event::Inputs(scenario_inputs("/tmp/valid-socket")),
        Event::PathProbed(LOCAL),
        Event::TokenizerLoaded,
        Event::RuntimeStarted,
        Event::ConnectFailed {
            kind: ConnectFailure::HandshakeFailed,
            cause: "shard 2 refused".to_string(),
        },
    ]);
    assert_eq!(
        actions[4],
        Action::Abort {
            code: 1,
            diagnostic: "backend connection: backend handshake failed: shard 2 refused"
                .to_string()
        }
    );
    assert_eq!(
        bootstrap.failure().unwrap().error,
        BootstrapError::Connection(ConnectionError::HandshakeFailed {
            cause: "shard 2 refused".to_string()
        })
    );
}

#[test]
fn runtime_failure_ends_the_bootstrap() {
    let (bootstrap, actions) = drive(vec![
        Event::Inputs(scenario_inputs("/tmp/valid-socket")),
        Event::PathProbed(LOCAL),
        Event::TokenizerLoaded,
        Event::RuntimeFailed { cause: "no threads".to_string() },
    ]);
    assert_eq!(bootstrap.stage(), Stage::Terminal(Outcome::Failure));
    assert_eq!(
        actions[3],
        Action::Abort {
            code: 1,
            diagnostic: "runtime start: runtime could not start: no threads".to_string()
        }
    );
}

#[test]
fn failed_run_exits_non_zero() {
    let (bootstrap, actions) = drive(vec![
        Event::Inputs(scenario_inputs("/tmp/valid-socket")),
        Event::PathProbed(LOCAL),
        Event::TokenizerLoaded,
        Event::RuntimeStarted,
        Event::Connected,
        Event::CacheCleared,
        Event::HandedOff,
        Event::RunFailed { cause: "terminal closed".to_string() },
    ]);
    assert_eq!(bootstrap.stage(), Stage::Terminal(Outcome::Failure));
    assert_eq!(bootstrap.exit_code(), Some(1));
    assert_eq!(
        actions[7],
        Action::Abort {
            code: 1,
            diagnostic: "benchmark run: benchmark failed: terminal closed".to_string()
        }
    );
}

#[test]
fn event_of_another_stage_is_a_failure() {
    let (bootstrap, actions) = drive(vec![Event::Connected]);
    assert_eq!(bootstrap.stage(), Stage::Terminal(Outcome::Failure));
    assert_eq!(
        actions[0],
        Action::Abort { code: 1, diagnostic: "configuration: event out of order".to_string() }
    );
    assert_eq!(
        bootstrap.failure(),
        Some(&Failure { stage: Stage::Init, error: BootstrapError::UnexpectedEvent })
    );

    let (bootstrap, actions) = drive(vec![
        Event::Inputs(scenario_inputs("/tmp/valid-socket")),
        Event::PathProbed(LOCAL),
        Event::TokenizerLoaded,
        Event::RuntimeStarted,
        Event::CacheCleared,
    ]);
    assert_eq!(
        actions[4],
        Action::Abort { code: 1, diagnostic: "backend connection: event out of order".to_string() }
    );
    assert_eq!(bootstrap.failure().unwrap().stage, Stage::RuntimeStarted);
}

#[test]
fn no_stage_can_be_skipped() {
    let (bootstrap, actions) = drive(vec![
        Event::Inputs(scenario_inputs("/tmp/valid-socket")),
        Event::HandedOff,
    ]);
    assert_eq!(bootstrap.stage(), Stage::Terminal(Outcome::Failure));
    assert!(is_abort(&actions[1]));

    let (bootstrap, _) = drive(vec![
        Event::Inputs(scenario_inputs("/tmp/valid-socket")),
        Event::PathProbed(LOCAL),
        Event::TokenizerLoaded,
        Event::RuntimeStarted,
        Event::Connected,
        Event::HandedOff,
    ]);
    assert_eq!(bootstrap.stage(), Stage::Terminal(Outcome::Failure));
    assert_eq!(bootstrap.failure().unwrap().stage, Stage::BackendConnected);
}

#[test]
fn second_inputs_do_not_restart_the_bootstrap() {
    let (bootstrap, actions) = drive(vec![
        Event::Inputs(scenario_inputs("/tmp/valid-socket")),
        Event::Inputs(scenario_inputs("/tmp/other-socket")),
    ]);
    assert_eq!(bootstrap.stage(), Stage::Terminal(Outcome::Failure));
    assert!(is_abort(&actions[1]));
}

#[test]
fn a_finished_bootstrap_stays_finished() {
    let (bootstrap, _) = drive(vec![
        Event::Inputs(scenario_inputs("/tmp/valid-socket")),
        Event::PathProbed(LOCAL),
        Event::TokenizerLoaded,
        Event::RuntimeStarted,
        Event::Connected,
        Event::CacheCleared,
        Event::HandedOff,
        Event::RunCompleted,
    ]);
    let (bootstrap, action) = bootstrap.step(Event::RunFailed { cause: "late".to_string() });
    assert_eq!(bootstrap.stage(), Stage::Terminal(Outcome::Success));
    assert_eq!(action, Action::Exit { code: 0 });
    let (bootstrap, action) = bootstrap.step(Event::Inputs(scenario_inputs("/tmp/x")));
    assert_eq!(bootstrap.stage(), Stage::Terminal(Outcome::Success));
    assert_eq!(action, Action::Exit { code: 0 });
    assert_eq!(bootstrap.config().unwrap().backend_socket_path(), "/tmp/valid-socket");
}

#[test]
fn stage_names() {
    assert_eq!(Stage::Init.name(), "configuration");
    assert_eq!(Stage::ConfigResolved.name(), "tokenizer acquisition");
    assert_eq!(Stage::TokenizerReady.name(), "runtime start");
    assert_eq!(Stage::RuntimeStarted.name(), "backend connection");
    assert_eq!(Stage::BackendConnected.name(), "cache reset");
    assert_eq!(Stage::CacheCleared.name(), "benchmark hand-off");
    assert_eq!(Stage::Running.name(), "benchmark run");
    assert_eq!(Stage::Terminal(Outcome::Success).name(), "shutdown");
    assert_eq!(Stage::Terminal(Outcome::Failure).name(), "shutdown");
}

#[test]
fn only_terminal_stages_are_terminal() {
    assert!(Stage::Terminal(Outcome::Success).is_terminal());
    assert!(Stage::Terminal(Outcome::Failure).is_terminal());
    assert!(!Stage::Init.is_terminal());
    assert!(!Stage::Running.is_terminal());
}

#[test]
fn bootstrap_error_messages() {
    assert_eq!(
        BootstrapError::Config(ConfigError::InvalidRuns).message(),
        "run count is below one or too large"
    );
    assert_eq!(
        BootstrapError::Tokenizer(TokenizerError::NotFound { cause: "gone".to_string() })
            .message(),
        "tokenizer not found: gone"
    );
    assert_eq!(
        BootstrapError::Runtime { cause: "no threads".to_string() }.message(),
        "runtime could not start: no threads"
    );
    assert_eq!(
        BootstrapError::Connection(ConnectionError::ResetFailed { cause: "x".to_string() })
            .message(),
        "cache reset failed: x"
    );
    assert_eq!(
        BootstrapError::Benchmark { cause: "boom".to_string() }.message(),
        "benchmark failed: boom"
    );
    assert_eq!(BootstrapError::UnexpectedEvent.message(), "event out of order");
}

#[test]
fn diagnostic_names_stage_and_cause() {
    let failure = Failure {
        stage: Stage::ConfigResolved,
        error: BootstrapError::Tokenizer(TokenizerError::InvalidFormat {
            cause: "expected value".to_string(),
        }),
    };
    assert_eq!(
        failure.diagnostic(),
        "tokenizer acquisition: tokenizer definition is invalid: expected value"
    );
}

#[test]
fn rejected_inputs_name_their_rule() {
    let mut raw = scenario_inputs("/tmp/valid-socket");
    raw.runs = Some(0);
    let (_, actions) = drive(vec![Event::Inputs(raw)]);
    assert_eq!(
        actions[0],
        Action::Abort {
            code: 1,
            diagnostic: "configuration: run count is below one or too large".to_string()
        }
    );
}
