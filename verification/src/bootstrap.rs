//! The start-up sequence as a state machine.
//!
//! A bootstrap walks through its stages strictly in order:
//!
//! `Init → ConfigResolved → TokenizerReady → RuntimeStarted →
//! BackendConnected → CacheCleared → Running → Terminal`.
//!
//! The machine decides; the driver acts.  The driver hands in an [`Event`]
//! (what the last piece of outside work yielded), and [`Bootstrap::step`]
//! answers with the next state and the [`Action`] to perform.  The first
//! event is [`Event::Inputs`].  Any failure, and any event that does not
//! belong to the current stage, ends the sequence in
//! `Terminal(Failure)`; nothing is retried and no stage is skipped.
//!
//! Acquiring the tokenizer takes two steps inside `ConfigResolved`: the
//! driver first probes the identifier as a path, and the bootstrap then
//! asks for a local load or for a registry fetch.
//!
//! [`transition`] is the mathematical statement of one step; the laws at
//! the end of the file are proved about it and about whole event
//! histories ([`replay`], [`emitted`]).

use vstd::prelude::*;
use vstd::string::*;
use crate::backend::{connect_failure, ConnectFailure, ConnectionError, ConnectionErrorView};
use crate::config::{
    resolution,
    resolve,
    valid_plan,
    ConfigError,
    RawInputs,
    RawInputsView,
    RunConfig,
    RunConfigView,
};
use crate::tokenizer::{
    failure_for,
    load_failure,
    select_source,
    source_for,
    PathProbe,
    TokenizerError,
    TokenizerErrorView,
    TokenizerSource,
    TokenizerSourceView,
};

verus! {

/// How a bootstrap ended.
#[derive(Clone, Copy, Debug, PartialEq, Eq, Structural)]
pub enum Outcome {
    Success,
    Failure,
}

/// The stages of a bootstrap, in the order in which they are passed.
#[derive(Clone, Copy, Debug, PartialEq, Eq, Structural)]
pub enum Stage {
    /// Nothing has happened yet; the inputs are awaited.
    Init,
    /// The plan is resolved; the tokenizer is being acquired.
    ConfigResolved,
    /// The tokenizer is ready; the concurrent runtime is being started.
    TokenizerReady,
    /// The runtime runs; the backend is being connected.
    RuntimeStarted,
    /// Every shard is attached; the cache reset is under way.
    BackendConnected,
    /// Every shard acknowledged the reset; the hand-off is under way.
    CacheCleared,
    /// The benchmark run holds the connection.
    Running,
    /// The bootstrap is over.
    Terminal(Outcome),
}

impl Stage {
    /// Position of the stage in the sequence, from 0 for `Init` to 7 for
    /// both terminal stages.
    pub open spec fn rank(self) -> int {
        match self {
            Stage::Init => 0,
            Stage::ConfigResolved => 1,
            Stage::TokenizerReady => 2,
            Stage::RuntimeStarted => 3,
            Stage::BackendConnected => 4,
            Stage::CacheCleared => 5,
            Stage::Running => 6,
            Stage::Terminal(_) => 7,
        }
    }

    /// The stage that follows when the work of this stage succeeds.  A
    /// terminal stage is followed by itself.
    pub open spec fn successor(self) -> Stage {
        match self {
            Stage::Init => Stage::ConfigResolved,
            Stage::ConfigResolved => Stage::TokenizerReady,
            Stage::TokenizerReady => Stage::RuntimeStarted,
            Stage::RuntimeStarted => Stage::BackendConnected,
            Stage::BackendConnected => Stage::CacheCleared,
            Stage::CacheCleared => Stage::Running,
            Stage::Running => Stage::Terminal(Outcome::Success),
            Stage::Terminal(outcome) => Stage::Terminal(outcome),
        }
    }

    /// Name of the work that a stage performs, as the diagnostic line
    /// shows it.
    pub open spec fn label(self) -> Seq<char> {
        match self {
            Stage::Init => "configuration"@,
            Stage::ConfigResolved => "tokenizer acquisition"@,
            Stage::TokenizerReady => "runtime start"@,
            Stage::RuntimeStarted => "backend connection"@,
            Stage::BackendConnected => "cache reset"@,
            Stage::CacheCleared => "benchmark hand-off"@,
            Stage::Running => "benchmark run"@,
            Stage::Terminal(_) => "shutdown"@,
        }
    }

    /// Name of the work that a stage performs.
    pub fn name(&self) -> (name: String)
        ensures
            name@ == self.label(),
    {
        match self {
            Stage::Init => String::from_str("configuration"),
            Stage::ConfigResolved => String::from_str("tokenizer acquisition"),
            Stage::TokenizerReady => String::from_str("runtime start"),
            Stage::RuntimeStarted => String::from_str("backend connection"),
            Stage::BackendConnected => String::from_str("cache reset"),
            Stage::CacheCleared => String::from_str("benchmark hand-off"),
            Stage::Running => String::from_str("benchmark run"),
            Stage::Terminal(_) => String::from_str("shutdown"),
        }
    }

    /// Whether the bootstrap is over.
    pub fn is_terminal(&self) -> (answer: bool)
        ensures
            answer == (self is Terminal),
    {
        match self {
            Stage::Terminal(_) => true,
            _ => false,
        }
    }
}

/// What the driver reports after a piece of outside work.
#[derive(Debug, PartialEq, Eq)]
pub enum Event {
    /// The raw inputs were read.
    Inputs(RawInputs),
    /// The tokenizer identifier was probed as a path.
    PathProbed(PathProbe),
    /// The tokenizer was loaded or fetched and is ready.
    TokenizerLoaded,
    /// The load or the fetch failed.  `unreadable` says that the definition
    /// could not be read, as opposed to its content being refused.
    TokenizerFailed { unreadable: bool, cause: String },
    /// The concurrent runtime is up.
    RuntimeStarted,
    /// The concurrent runtime could not be started.
    RuntimeFailed { cause: String },
    /// Every shard behind the control socket is attached.
    Connected,
    /// The connection failed as a whole.
    ConnectFailed { kind: ConnectFailure, cause: String },
    /// Every shard acknowledged the cache reset.
    CacheCleared,
    /// At least one shard did not acknowledge the cache reset.
    CacheResetFailed { cause: String },
    /// The benchmark run was given plan, tokenizer and connection.
    HandedOff,
    /// The benchmark run returned normally.
    RunCompleted,
    /// The benchmark run failed.
    RunFailed { cause: String },
}

/// Mathematical model of an [`Event`].
pub enum EventView {
    Inputs(RawInputsView),
    PathProbed(PathProbe),
    TokenizerLoaded,
    TokenizerFailed { unreadable: bool, cause: Seq<char> },
    RuntimeStarted,
    RuntimeFailed { cause: Seq<char> },
    Connected,
    ConnectFailed { kind: ConnectFailure, cause: Seq<char> },
    CacheCleared,
    CacheResetFailed { cause: Seq<char> },
    HandedOff,
    RunCompleted,
    RunFailed { cause: Seq<char> },
}

impl View for Event {
    type V = EventView;

    open spec fn view(&self) -> EventView {
        match self {
            Event::Inputs(raw) => EventView::Inputs(raw@),
            Event::PathProbed(probe) => EventView::PathProbed(*probe),
            Event::TokenizerLoaded => EventView::TokenizerLoaded,
            Event::TokenizerFailed { unreadable, cause } => EventView::TokenizerFailed {
                unreadable: *unreadable,
                cause: cause@,
            },
            Event::RuntimeStarted => EventView::RuntimeStarted,
            Event::RuntimeFailed { cause } => EventView::RuntimeFailed { cause: cause@ },
            Event::Connected => EventView::Connected,
            Event::ConnectFailed { kind, cause } => EventView::ConnectFailed {
                kind: *kind,
                cause: cause@,
            },
            Event::CacheCleared => EventView::CacheCleared,
            Event::CacheResetFailed { cause } => EventView::CacheResetFailed { cause: cause@ },
            Event::HandedOff => EventView::HandedOff,
            Event::RunCompleted => EventView::RunCompleted,
            Event::RunFailed { cause } => EventView::RunFailed { cause: cause@ },
        }
    }
}

/// What the driver has to do next.
#[derive(Debug, PartialEq, Eq)]
pub enum Action {
    /// Probe the tokenizer identifier as a path; answer `PathProbed`.
    ProbePath { path: String },
    /// Load the tokenizer from the definition file in the directory; answer
    /// `TokenizerLoaded` or `TokenizerFailed`.
    LoadLocal { directory: String },
    /// Fetch the tokenizer from the registry at the revision; answer
    /// `TokenizerLoaded` or `TokenizerFailed`.
    Fetch { identifier: String, revision: String },
    /// Start the concurrent runtime; answer `RuntimeStarted` or
    /// `RuntimeFailed`.
    StartRuntime,
    /// Connect to every shard through the control socket; answer
    /// `Connected` or `ConnectFailed`.
    Connect { socket_path: String },
    /// Ask every shard to drop its cached state (`scope` is `None`: all of
    /// it); answer `CacheCleared` or `CacheResetFailed`.
    ResetCache { scope: Option<u64> },
    /// Give plan, tokenizer and connection to the benchmark run; answer
    /// `HandedOff`.
    HandOff,
    /// Wait for the benchmark run; answer `RunCompleted` or `RunFailed`.
    AwaitRun,
    /// Leave with the given status: the run completed.
    Exit { code: i32 },
    /// Write the diagnostic line and leave with the given status.
    Abort { code: i32, diagnostic: String },
}

/// Mathematical model of an [`Action`].
pub enum ActionView {
    ProbePath { path: Seq<char> },
    LoadLocal { directory: Seq<char> },
    Fetch { identifier: Seq<char>, revision: Seq<char> },
    StartRuntime,
    Connect { socket_path: Seq<char> },
    ResetCache { scope: Option<u64> },
    HandOff,
    AwaitRun,
    Exit { code: i32 },
    Abort { code: i32, diagnostic: Seq<char> },
}

impl View for Action {
    type V = ActionView;

    open spec fn view(&self) -> ActionView {
        match self {
            Action::ProbePath { path } => ActionView::ProbePath { path: path@ },
            Action::LoadLocal { directory } => ActionView::LoadLocal { directory: directory@ },
            Action::Fetch { identifier, revision } => ActionView::Fetch {
                identifier: identifier@,
                revision: revision@,
            },
            Action::StartRuntime => ActionView::StartRuntime,
            Action::Connect { socket_path } => ActionView::Connect { socket_path: socket_path@ },
            Action::ResetCache { scope } => ActionView::ResetCache { scope: *scope },
            Action::HandOff => ActionView::HandOff,
            Action::AwaitRun => ActionView::AwaitRun,
            Action::Exit { code } => ActionView::Exit { code: *code },
            Action::Abort { code, diagnostic } => ActionView::Abort {
                code: *code,
                diagnostic: diagnostic@,
            },
        }
    }
}

/// Exit status after a completed run.
pub const EXIT_SUCCESS: i32 = 0;

/// Exit status after any failure.
pub const EXIT_FAILURE: i32 = 1;

/// Why a bootstrap failed.
#[derive(Debug, PartialEq, Eq)]
pub enum BootstrapError {
    /// The inputs break a rule.
    Config(ConfigError),
    /// No tokenizer could be had.
    Tokenizer(TokenizerError),
    /// The concurrent runtime could not be started.
    Runtime { cause: String },
    /// The backend could not be connected or reset.
    Connection(ConnectionError),
    /// The benchmark run failed.
    Benchmark { cause: String },
    /// The driver reported an event that does not belong to the stage.
    UnexpectedEvent,
}

/// Mathematical model of a [`BootstrapError`].
pub enum BootstrapErrorView {
    Config(ConfigError),
    Tokenizer(TokenizerErrorView),
    Runtime { cause: Seq<char> },
    Connection(ConnectionErrorView),
    Benchmark { cause: Seq<char> },
    UnexpectedEvent,
}

impl BootstrapErrorView {
    /// The text of the error: what failed, then the underlying cause.
    pub open spec fn text(self) -> Seq<char> {
        match self {
            BootstrapErrorView::Config(reason) => reason.text(),
            BootstrapErrorView::Tokenizer(error) => error.text(),
            BootstrapErrorView::Runtime { cause } => "runtime could not start: "@ + cause,
            BootstrapErrorView::Connection(error) => error.text(),
            BootstrapErrorView::Benchmark { cause } => "benchmark failed: "@ + cause,
            BootstrapErrorView::UnexpectedEvent => "event out of order"@,
        }
    }
}

impl View for BootstrapError {
    type V = BootstrapErrorView;

    open spec fn view(&self) -> BootstrapErrorView {
        match self {
            BootstrapError::Config(reason) => BootstrapErrorView::Config(*reason),
            BootstrapError::Tokenizer(error) => BootstrapErrorView::Tokenizer(error@),
            BootstrapError::Runtime { cause } => BootstrapErrorView::Runtime { cause: cause@ },
            BootstrapError::Connection(error) => BootstrapErrorView::Connection(error@),
            BootstrapError::Benchmark { cause } => BootstrapErrorView::Benchmark { cause: cause@ },
            BootstrapError::UnexpectedEvent => BootstrapErrorView::UnexpectedEvent,
        }
    }
}

impl BootstrapError {
    /// The text of the error.
    pub fn message(&self) -> (text: String)
        ensures
            text@ == self@.text(),
    {
        match self {
            BootstrapError::Config(reason) => reason.message(),
            BootstrapError::Tokenizer(error) => error.message(),
            BootstrapError::Runtime { cause } => String::from_str(
                "runtime could not start: ",
            ).concat(cause.as_str()),
            BootstrapError::Connection(error) => error.message(),
            BootstrapError::Benchmark { cause } => String::from_str("benchmark failed: ").concat(
                cause.as_str(),
            ),
            BootstrapError::UnexpectedEvent => String::from_str("event out of order"),
        }
    }
}

/// A failure together with the stage whose work failed.
#[derive(Debug, PartialEq, Eq)]
pub struct Failure {
    pub stage: Stage,
    pub error: BootstrapError,
}

/// Mathematical model of a [`Failure`].
pub struct FailureView {
    pub stage: Stage,
    pub error: BootstrapErrorView,
}

impl FailureView {
    /// The diagnostic line: the failing stage, a colon, and the error with
    /// its cause.
    pub open spec fn diagnostic(self) -> Seq<char> {
        self.stage.label() + ": "@ + self.error.text()
    }
}

impl View for Failure {
    type V = FailureView;

    open spec fn view(&self) -> FailureView {
        FailureView { stage: self.stage, error: self.error@ }
    }
}

impl Failure {
    /// The single diagnostic line of the failure.
    pub fn diagnostic(&self) -> (line: String)
        ensures
            line@ == self@.diagnostic(),
    {
        let text = self.error.message();
        self.stage.name().concat(": ").concat(text.as_str())
    }
}

/// Mathematical model of a [`Bootstrap`].
pub struct BootstrapView {
    pub stage: Stage,
    /// The resolved plan, from `ConfigResolved` on.
    pub config: Option<RunConfigView>,
    /// What the probe of the tokenizer path reported, once it has.
    pub probe: Option<PathProbe>,
    /// The failure, in `Terminal(Failure)`.
    pub failure: Option<FailureView>,
}

/// The state before anything happened.
pub open spec fn initial() -> BootstrapView {
    BootstrapView { stage: Stage::Init, config: None, probe: None, failure: None }
}

/// What a bootstrap holds while the work of a stage is under way: nothing
/// in `Init`, the plan from `ConfigResolved` on, and the probe from
/// `TokenizerReady` on (in `ConfigResolved` it arrives).
pub open spec fn holds_at(stage: Stage, has_plan: bool, has_probe: bool) -> bool {
    match stage {
        Stage::Init => !has_plan && !has_probe,
        Stage::ConfigResolved => has_plan,
        Stage::Terminal(Outcome::Failure) => false,
        _ => has_plan && has_probe,
    }
}

/// The states that a bootstrap can be in: the plan obeys the plan's rules,
/// a failure is recorded exactly in `Terminal(Failure)`, and plan and probe
/// are held as the stage (after a failure: the failed stage) requires.
pub open spec fn valid(state: BootstrapView) -> bool {
    &&& state.config matches Some(plan) ==> valid_plan(plan)
    &&& (state.failure is Some <==> state.stage == Stage::Terminal(Outcome::Failure))
    &&& holds_at(
        if state.failure is Some {
            state.failure->0.stage
        } else {
            state.stage
        },
        state.config is Some,
        state.probe is Some,
    )
}

/// The number of events that a state has behind it when every one of
/// them reported success: the position in the sequence.
pub open spec fn progress(state: BootstrapView) -> int {
    match state.stage {
        Stage::Init => 0,
        Stage::ConfigResolved => if state.probe is None {
            1
        } else {
            2
        },
        Stage::TokenizerReady => 3,
        Stage::RuntimeStarted => 4,
        Stage::BackendConnected => 5,
        Stage::CacheCleared => 6,
        Stage::Running => 7,
        Stage::Terminal(_) => 8,
    }
}

/// The source of the tokenizer that plan and probe determine.
pub open spec fn chosen_source(plan: RunConfigView, probe: PathProbe) -> TokenizerSourceView {
    source_for(plan.tokenizer_id, plan.revision, probe)
}

/// The action that acquires the tokenizer from a source.
pub open spec fn acquisition(source: TokenizerSourceView) -> ActionView {
    match source {
        TokenizerSourceView::Local { directory } => ActionView::LoadLocal { directory },
        TokenizerSourceView::Remote { identifier, revision } => ActionView::Fetch {
            identifier,
            revision,
        },
    }
}

/// The state and the action after a failure at the current stage.
pub open spec fn failed(state: BootstrapView, error: BootstrapErrorView) -> (
    BootstrapView,
    ActionView,
) {
    let failure = FailureView { stage: state.stage, error };
    (
        BootstrapView {
            stage: Stage::Terminal(Outcome::Failure),
            config: state.config,
            probe: state.probe,
            failure: Some(failure),
        },
        ActionView::Abort { code: EXIT_FAILURE, diagnostic: failure.diagnostic() },
    )
}

/// The state and the action after the work of the current stage succeeded.
pub open spec fn advanced(state: BootstrapView, action: ActionView) -> (BootstrapView, ActionView) {
    (
        BootstrapView {
            stage: state.stage.successor(),
            config: state.config,
            probe: state.probe,
            failure: None,
        },
        action,
    )
}

/// The action that a finished bootstrap keeps answering with.
pub open spec fn closing_action(state: BootstrapView) -> ActionView {
    match state.failure {
        Some(failure) => ActionView::Abort {
            code: EXIT_FAILURE,
            diagnostic: failure.diagnostic(),
        },
        None => ActionView::Exit { code: EXIT_SUCCESS },
    }
}

/// One step of the bootstrap: the state and the action that follow from a
/// state and an event.
///
/// At each position of the sequence exactly one event reports success and
/// moves one position on; the failure event of the stage, and every event
/// that belongs elsewhere, end in `Terminal(Failure)`.  A terminal state
/// stays as it is.
pub open spec fn transition(state: BootstrapView, event: EventView) -> (BootstrapView, ActionView) {
    match state.stage {
        Stage::Init => match event {
            EventView::Inputs(raw) => match resolution(raw) {
                Ok(plan) => (
                    BootstrapView {
                        stage: Stage::ConfigResolved,
                        config: Some(plan),
                        probe: None,
                        failure: None,
                    },
                    ActionView::ProbePath { path: plan.tokenizer_id },
                ),
                Err(reason) => failed(state, BootstrapErrorView::Config(reason)),
            },
            _ => failed(state, BootstrapErrorView::UnexpectedEvent),
        },
        Stage::ConfigResolved => match state.probe {
            None => match event {
                EventView::PathProbed(probe) => (
                    BootstrapView {
                        stage: Stage::ConfigResolved,
                        config: state.config,
                        probe: Some(probe),
                        failure: None,
                    },
                    acquisition(chosen_source(state.config->0, probe)),
                ),
                _ => failed(state, BootstrapErrorView::UnexpectedEvent),
            },
            Some(probe) => match event {
                EventView::TokenizerLoaded => advanced(state, ActionView::StartRuntime),
                EventView::TokenizerFailed { unreadable, cause } => failed(
                    state,
                    BootstrapErrorView::Tokenizer(
                        failure_for(chosen_source(state.config->0, probe), unreadable, cause),
                    ),
                ),
                _ => failed(state, BootstrapErrorView::UnexpectedEvent),
            },
        },
        Stage::TokenizerReady => match event {
            EventView::RuntimeStarted => advanced(
                state,
                ActionView::Connect { socket_path: state.config->0.backend_socket_path },
            ),
            EventView::RuntimeFailed { cause } => failed(
                state,
                BootstrapErrorView::Runtime { cause },
            ),
            _ => failed(state, BootstrapErrorView::UnexpectedEvent),
        },
        Stage::RuntimeStarted => match event {
            EventView::Connected => advanced(state, ActionView::ResetCache { scope: None }),
            EventView::ConnectFailed { kind, cause } => failed(
                state,
                BootstrapErrorView::Connection(connect_failure(kind, cause)),
            ),
            _ => failed(state, BootstrapErrorView::UnexpectedEvent),
        },
        Stage::BackendConnected => match event {
            EventView::CacheCleared => advanced(state, ActionView::HandOff),
            EventView::CacheResetFailed { cause } => failed(
                state,
                BootstrapErrorView::Connection(ConnectionErrorView::ResetFailed { cause }),
            ),
            _ => failed(state, BootstrapErrorView::UnexpectedEvent),
        },
        Stage::CacheCleared => match event {
            EventView::HandedOff => advanced(state, ActionView::AwaitRun),
            _ => failed(state, BootstrapErrorView::UnexpectedEvent),
        },
        Stage::Running => match event {
            EventView::RunCompleted => advanced(state, ActionView::Exit { code: EXIT_SUCCESS }),
            EventView::RunFailed { cause } => failed(
                state,
                BootstrapErrorView::Benchmark { cause },
            ),
            _ => failed(state, BootstrapErrorView::UnexpectedEvent),
        },
        Stage::Terminal(_) => (state, closing_action(state)),
    }
}

/// The state of one bootstrap.  It starts in `Init` and is changed by
/// [`Bootstrap::step`] alone.
#[derive(Debug)]
pub struct Bootstrap {
    stage: Stage,
    config: Option<RunConfig>,
    probe: Option<PathProbe>,
    failure: Option<Failure>,
}

impl View for Bootstrap {
    type V = BootstrapView;

    closed spec fn view(&self) -> BootstrapView {
        BootstrapView {
            stage: self.stage,
            config: match self.config {
                Some(plan) => Some(plan@),
                None => None,
            },
            probe: self.probe,
            failure: match self.failure {
                Some(failure) => Some(failure@),
                None => None,
            },
        }
    }
}

impl Bootstrap {
    #[verifier::type_invariant]
    closed spec fn well_formed(&self) -> bool {
        valid(self@)
    }

    /// A bootstrap in `Init`, awaiting the inputs.
    pub fn new() -> (bootstrap: Bootstrap)
        ensures
            bootstrap@ == initial(),
    {
        Bootstrap { stage: Stage::Init, config: None, probe: None, failure: None }
    }

    /// The current stage.
    pub fn stage(&self) -> (stage: Stage)
        ensures
            stage == self@.stage,
            valid(self@),
    {
        proof {
            use_type_invariant(self);
        }
        self.stage
    }

    /// The resolved plan: present from `ConfigResolved` on.
    pub fn config(&self) -> (plan: Option<&RunConfig>)
        ensures
            match plan {
                Some(plan) => self@.config == Some(plan@),
                None => self@.config is None,
            },
    {
        self.config.as_ref()
    }

    /// What the probe of the tokenizer path reported, once it has.
    pub fn probe(&self) -> (probe: Option<PathProbe>)
        ensures
            probe == self@.probe,
    {
        self.probe
    }

    /// The recorded failure: present exactly in `Terminal(Failure)`.
    pub fn failure(&self) -> (failure: Option<&Failure>)
        ensures
            match failure {
                Some(failure) => self@.failure == Some(failure@),
                None => self@.failure is None,
            },
            failure is Some <==> self@.stage == Stage::Terminal(Outcome::Failure),
    {
        proof {
            use_type_invariant(self);
        }
        self.failure.as_ref()
    }

    /// The exit status owed once the bootstrap is over: zero after a
    /// completed run, non-zero after any failure, none before the end.
    pub fn exit_code(&self) -> (code: Option<i32>)
        ensures
            code == (match self@.stage {
                Stage::Terminal(Outcome::Success) => Some(EXIT_SUCCESS),
                Stage::Terminal(Outcome::Failure) => Some(EXIT_FAILURE),
                _ => None::<i32>,
            }),
    {
        match self.stage {
            Stage::Terminal(Outcome::Success) => Some(EXIT_SUCCESS),
            Stage::Terminal(Outcome::Failure) => Some(EXIT_FAILURE),
            _ => None,
        }
    }

    /// Ends the bootstrap with a failure of the current stage.
    fn fail(
        stage: Stage,
        config: Option<RunConfig>,
        probe: Option<PathProbe>,
        error: BootstrapError,
    ) -> (result: (Bootstrap, Action))
        requires
            stage !is Terminal,
            holds_at(stage, config is Some, probe is Some),
        ensures
            (result.0@, result.1@) == failed(
                BootstrapView {
                    stage,
                    config: match config {
                        Some(plan) => Some(plan@),
                        None => None,
                    },
                    probe,
                    failure: None,
                },
                error@,
            ),
    {
        proof {
            match &config {
                Some(plan) => {
                    use_type_invariant(plan);
                },
                None => {},
            }
        }
        let failure = Failure { stage, error };
        let diagnostic = failure.diagnostic();
        (
            Bootstrap {
                stage: Stage::Terminal(Outcome::Failure),
                config,
                probe,
                failure: Some(failure),
            },
            Action::Abort { code: EXIT_FAILURE, diagnostic },
        )
    }

    /// Moves on to the next stage.
    fn advance(stage: Stage, plan: RunConfig, probe: PathProbe, action: Action) -> (result: (
        Bootstrap,
        Action,
    ))
        requires
            stage !is Terminal,
            stage != Stage::Init,
        ensures
            (result.0@, result.1@) == advanced(
                BootstrapView { stage, config: Some(plan@), probe: Some(probe), failure: None },
                action@,
            ),
    {
        let next = match stage {
            Stage::Init => Stage::ConfigResolved,
            Stage::ConfigResolved => Stage::TokenizerReady,
            Stage::TokenizerReady => Stage::RuntimeStarted,
            Stage::RuntimeStarted => Stage::BackendConnected,
            Stage::BackendConnected => Stage::CacheCleared,
            Stage::CacheCleared => Stage::Running,
            Stage::Running => Stage::Terminal(Outcome::Success),
            Stage::Terminal(outcome) => Stage::Terminal(outcome),
        };
        proof {
            use_type_invariant(&plan);
        }
        (Bootstrap { stage: next, config: Some(plan), probe: Some(probe), failure: None }, action)
    }

    /// The step from `ConfigResolved` while the probe is awaited.
    fn choose_source(plan: RunConfig, event: Event) -> (result: (Bootstrap, Action))
        ensures
            (result.0@, result.1@) == transition(
                BootstrapView {
                    stage: Stage::ConfigResolved,
                    config: Some(plan@),
                    probe: None,
                    failure: None,
                },
                event@,
            ),
    {
        match event {
            Event::PathProbed(probe) => {
                let source = select_source(
                    plan.tokenizer_id().as_str(),
                    plan.revision().as_str(),
                    probe,
                );
                let action = match source {
                    TokenizerSource::Local { directory } => Action::LoadLocal { directory },
                    TokenizerSource::Remote { identifier, revision } => Action::Fetch {
                        identifier,
                        revision,
                    },
                };
                (
                    Bootstrap {
                        stage: Stage::ConfigResolved,
                        config: Some(plan),
                        probe: Some(probe),
                        failure: None,
                    },
                    action,
                )
            },
            _ => Bootstrap::fail(
                Stage::ConfigResolved,
                Some(plan),
                None,
                BootstrapError::UnexpectedEvent,
            ),
        }
    }

    /// Takes one step: consumes the state and the driver's event, and
    /// returns the next state with the action to perform.
    ///
    /// The pair is exactly [`transition`] of the state and the event.  The
    /// function accepts every event in every state: one that does not
    /// belong to the current stage ends the bootstrap in
    /// `Terminal(Failure)`.
    pub fn step(self, event: Event) -> (result: (Bootstrap, Action))
        ensures
            (result.0@, result.1@) == transition(self@, event@),
            valid(result.0@),
    {
        proof {
            use_type_invariant(&self);
        }
        let Bootstrap { stage, config, probe, failure } = self;
        let result = match stage {
            Stage::Terminal(_) => {
                let action = match &failure {
                    Some(recorded) => Action::Abort {
                        code: EXIT_FAILURE,
                        diagnostic: recorded.diagnostic(),
                    },
                    None => Action::Exit { code: EXIT_SUCCESS },
                };
                (Bootstrap { stage, config, probe, failure }, action)
            },
            Stage::Init => match event {
                Event::Inputs(raw) => match resolve(raw) {
                    Ok(plan) => {
                        let action = Action::ProbePath { path: plan.tokenizer_id().clone() };
                        (
                            Bootstrap {
                                stage: Stage::ConfigResolved,
                                config: Some(plan),
                                probe: None,
                                failure: None,
                            },
                            action,
                        )
                    },
                    Err(reason) => Bootstrap::fail(
                        stage,
                        None,
                        None,
                        BootstrapError::Config(reason),
                    ),
                },
                _ => Bootstrap::fail(stage, None, None, BootstrapError::UnexpectedEvent),
            },
            _ => {
                let plan = config.unwrap();
                match probe {
                    None => Bootstrap::choose_source(plan, event),
                    Some(probe) => match (stage, event) {
                        (Stage::ConfigResolved, Event::TokenizerLoaded) => Bootstrap::advance(
                            stage,
                            plan,
                            probe,
                            Action::StartRuntime,
                        ),
                        (
                            Stage::ConfigResolved,
                            Event::TokenizerFailed { unreadable, cause },
                        ) => {
                            let source = select_source(
                                plan.tokenizer_id().as_str(),
                                plan.revision().as_str(),
                                probe,
                            );
                            let error = load_failure(&source, unreadable, cause);
                            Bootstrap::fail(
                                stage,
                                Some(plan),
                                Some(probe),
                                BootstrapError::Tokenizer(error),
                            )
                        },
                        (Stage::TokenizerReady, Event::RuntimeStarted) => {
                            let action = Action::Connect {
                                socket_path: plan.backend_socket_path().clone(),
                            };
                            Bootstrap::advance(stage, plan, probe, action)
                        },
                        (Stage::TokenizerReady, Event::RuntimeFailed { cause }) => {
                            Bootstrap::fail(
                                stage,
                                Some(plan),
                                Some(probe),
                                BootstrapError::Runtime { cause },
                            )
                        },
                        (Stage::RuntimeStarted, Event::Connected) => Bootstrap::advance(
                            stage,
                            plan,
                            probe,
                            Action::ResetCache { scope: None },
                        ),
                        (Stage::RuntimeStarted, Event::ConnectFailed { kind, cause }) => {
                            Bootstrap::fail(
                                stage,
                                Some(plan),
                                Some(probe),
                                BootstrapError::Connection(
                                    ConnectionError::from_connect(kind, cause),
                                ),
                            )
                        },
                        (Stage::BackendConnected, Event::CacheCleared) => Bootstrap::advance(
                            stage,
                            plan,
                            probe,
                            Action::HandOff,
                        ),
                        (Stage::BackendConnected, Event::CacheResetFailed { cause }) => {
                            Bootstrap::fail(
                                stage,
                                Some(plan),
                                Some(probe),
                                BootstrapError::Connection(ConnectionError::ResetFailed { cause }),
                            )
                        },
                        (Stage::CacheCleared, Event::HandedOff) => Bootstrap::advance(
                            stage,
                            plan,
                            probe,
                            Action::AwaitRun,
                        ),
                        (Stage::Running, Event::RunCompleted) => Bootstrap::advance(
                            stage,
                            plan,
                            probe,
                            Action::Exit { code: EXIT_SUCCESS },
                        ),
                        (Stage::Running, Event::RunFailed { cause }) => Bootstrap::fail(
                            stage,
                            Some(plan),
                            Some(probe),
                            BootstrapError::Benchmark { cause },
                        ),
                        _ => Bootstrap::fail(
                            stage,
                            Some(plan),
                            Some(probe),
                            BootstrapError::UnexpectedEvent,
                        ),
                    },
                }
            },
        };
        proof {
            use_type_invariant(&result.0);
        }
        result
    }
}

/// The state after feeding a whole history of events, one after the
/// other, to a fresh bootstrap.
pub open spec fn replay(events: Seq<EventView>) -> BootstrapView
    decreases events.len(),
{
    if events.len() == 0 {
        initial()
    } else {
        transition(replay(events.drop_last()), events.last()).0
    }
}

/// The action that the bootstrap answers to the event at position `at` of
/// a history.
pub open spec fn emitted(events: Seq<EventView>, at: int) -> ActionView
    recommends
        0 <= at < events.len(),
{
    transition(replay(events.take(at)), events[at]).1
}

/// The one event that reports success at a position of the sequence.  The
/// inputs count as success where they resolve to a plan.
pub open spec fn reports_success(position: int, event: EventView) -> bool {
    if position == 0 {
        event is Inputs && resolution(event->Inputs_0) is Ok
    } else if position == 1 {
        event is PathProbed
    } else if position == 2 {
        event is TokenizerLoaded
    } else if position == 3 {
        event is RuntimeStarted
    } else if position == 4 {
        event is Connected
    } else if position == 5 {
        event is CacheCleared
    } else if position == 6 {
        event is HandedOff
    } else if position == 7 {
        event is RunCompleted
    } else {
        false
    }
}

/// The first `count` events of a history each report success at their
/// position.
pub open spec fn succeeded_through(events: Seq<EventView>, count: int) -> bool {
    &&& 0 <= count <= events.len()
    &&& forall|j: int| 0 <= j < count ==> reports_success(j, #[trigger] events[j])
}

/// The position in the sequence at which an action is asked for.  The two
/// closing actions belong to no position.
pub open spec fn position_of(action: ActionView) -> Option<int> {
    match action {
        ActionView::ProbePath { .. } => Some(0),
        ActionView::LoadLocal { .. } => Some(1),
        ActionView::Fetch { .. } => Some(1),
        ActionView::StartRuntime => Some(2),
        ActionView::Connect { .. } => Some(3),
        ActionView::ResetCache { .. } => Some(4),
        ActionView::HandOff => Some(5),
        ActionView::AwaitRun => Some(6),
        ActionView::Exit { .. } => None,
        ActionView::Abort { .. } => None,
    }
}

/// A step never skips a stage and never goes back.  From a state that is
/// not terminal, the one event that reports success at its position leads
/// one position on, to the same stage or to its successor, with plan and
/// probe kept; every other event leads to `Terminal(Failure)`, where the
/// failed stage is recorded.  A terminal state stays as it is.  Valid
/// states lead to valid states.
pub proof fn lemma_step_is_forward_only(state: BootstrapView, event: EventView)
    requires
        valid(state),
    ensures
        valid(transition(state, event).0),
        state.stage is Terminal ==> transition(state, event).0 == state,
        state.stage !is Terminal && reports_success(progress(state), event) ==> {
            let next = transition(state, event).0;
            &&& progress(next) == progress(state) + 1
            &&& (next.stage == state.stage || next.stage == state.stage.successor())
            &&& state.stage.rank() <= next.stage.rank() <= state.stage.rank() + 1
            &&& (state.config is Some ==> next.config == state.config)
            &&& (state.probe is Some ==> next.probe == state.probe)
            &&& position_of(transition(state, event).1) == if progress(state) == 7 {
                None
            } else {
                Some(progress(state))
            }
        },
        state.stage !is Terminal && !reports_success(progress(state), event) ==> {
            let next = transition(state, event).0;
            &&& next.stage == Stage::Terminal(Outcome::Failure)
            &&& next.failure is Some
            &&& next.failure->0.stage == state.stage
            &&& transition(state, event).1 is Abort
        },
{
    if state.stage == Stage::Init {
        if let EventView::Inputs(raw) = event {
            if resolution(raw) is Ok {
                crate::config::lemma_resolved_plan_is_valid(raw);
            }
        }
    }
}

/// The exit status that a step announces is zero exactly where the step
/// ends in `Terminal(Success)`, and an `Abort` always carries a non-zero
/// status and the diagnostic line of the recorded failure.  A step ends in
/// a terminal state exactly where it answers with a closing action.
pub proof fn lemma_exit_status_tells_outcome(state: BootstrapView, event: EventView)
    requires
        valid(state),
    ensures
        transition(state, event).1 matches ActionView::Exit { code } ==> {
            &&& code == 0
            &&& transition(state, event).0.stage == Stage::Terminal(Outcome::Success)
        },
        transition(state, event).1 matches ActionView::Abort { code, diagnostic } ==> {
            &&& code != 0
            &&& transition(state, event).0.stage == Stage::Terminal(Outcome::Failure)
            &&& transition(state, event).0.failure is Some
            &&& diagnostic == transition(state, event).0.failure->0.diagnostic()
        },
        transition(state, event).0.stage is Terminal <==> position_of(transition(state, event).1)
            is None,
{
}

/// Feeding one more event to a history is one step from the state after
/// the history.
pub proof fn lemma_replay_unfolds(events: Seq<EventView>, at: int)
    requires
        0 <= at < events.len(),
    ensures
        replay(events.take(at + 1)) == transition(replay(events.take(at)), events[at]).0,
{
    let longer = events.take(at + 1);
    assert(longer.drop_last() =~= events.take(at));
    assert(longer.last() == events[at]);
}

/// Every history leads to a valid state.  Where that state is not
/// terminal, every event of the history reported success at its position,
/// so the progress of the state counts the events.
pub proof fn lemma_stage_tells_history(events: Seq<EventView>)
    ensures
        valid(replay(events)),
        replay(events).stage !is Terminal ==> {
            &&& progress(replay(events)) == events.len()
            &&& succeeded_through(events, events.len() as int)
        },
    decreases events.len(),
{
    if events.len() > 0 {
        let earlier = events.drop_last();
        lemma_stage_tells_history(earlier);
        lemma_step_is_forward_only(replay(earlier), events.last());
        if replay(events).stage !is Terminal {
            assert forall|j: int| 0 <= j < events.len() implies reports_success(
                j,
                #[trigger] events[j],
            ) by {
                if j < earlier.len() {
                    assert(events[j] == earlier[j]);
                }
            }
        }
    }
}

/// Once a history has reached a terminal state, nothing that follows
/// changes it.
pub proof fn lemma_terminal_is_final(events: Seq<EventView>, from: int, to: int)
    requires
        0 <= from <= to <= events.len(),
        replay(events.take(from)).stage is Terminal,
    ensures
        replay(events.take(to)) == replay(events.take(from)),
    decreases to - from,
{
    if from < to {
        lemma_terminal_is_final(events, from, to - 1);
        lemma_replay_unfolds(events, to - 1);
        lemma_stage_tells_history(events.take(to - 1));
        lemma_step_is_forward_only(replay(events.take(to - 1)), events[to - 1]);
    }
}

/// The state before the event at position `at` is valid; where it is not
/// terminal, all earlier events reported success and its progress is `at`.
proof fn lemma_state_before(events: Seq<EventView>, at: int)
    requires
        0 <= at <= events.len(),
    ensures
        valid(replay(events.take(at))),
        replay(events.take(at)).stage !is Terminal ==> {
            &&& progress(replay(events.take(at))) == at
            &&& succeeded_through(events, at)
        },
{
    let before = events.take(at);
    lemma_stage_tells_history(before);
    if replay(before).stage !is Terminal {
        assert forall|j: int| 0 <= j < at implies reports_success(j, #[trigger] events[j]) by {
            assert(events[j] == before[j]);
        }
    }
}

/// Plan and probe, once held, stay as they are for as long as the
/// bootstrap goes on: the plan is what the inputs resolved to, and the
/// probe is what the second event reported.
pub proof fn lemma_plan_and_probe_are_kept(events: Seq<EventView>, to: int)
    requires
        1 <= to <= events.len(),
        replay(events.take(to)).stage !is Terminal,
    ensures
        events[0] is Inputs,
        resolution(events[0]->Inputs_0) is Ok,
        replay(events.take(to)).config == Some(resolution(events[0]->Inputs_0)->Ok_0),
        to >= 2 ==> events[1] is PathProbed && replay(events.take(to)).probe == Some(
            events[1]->PathProbed_0,
        ),
    decreases to,
{
    lemma_state_before(events, to);
    assert(reports_success(0, events[0]));
    lemma_replay_unfolds(events, to - 1);
    lemma_state_before(events, to - 1);
    lemma_step_is_forward_only(replay(events.take(to - 1)), events[to - 1]);
    if to == 1 {
        assert(events.take(0) =~= Seq::<EventView>::empty());
    } else {
        assert(reports_success(1, events[1]));
        lemma_plan_and_probe_are_kept(events, to - 1);
    }
}

/// Work is asked for strictly in order and only while everything before it
/// succeeded: in every history, an action other than the two closing ones
/// is answered at its own position and nowhere else, and every event up to
/// and including that position reported success.
pub proof fn lemma_actions_follow_the_sequence(events: Seq<EventView>, at: int)
    requires
        0 <= at < events.len(),
        position_of(emitted(events, at)) is Some,
    ensures
        position_of(emitted(events, at)) == Some(at),
        succeeded_through(events, at + 1),
{
    lemma_state_before(events, at);
    let before = replay(events.take(at));
    lemma_step_is_forward_only(before, events[at]);
    lemma_exit_status_tells_outcome(before, events[at]);
    assert(reports_success(at, events[at]));
}

/// The tokenizer is acquired from the source that plan and probe
/// determine, and from no other.  In every history, a local load is asked
/// for only where the probe found a definition file in the directory that
/// the plan names, and a registry fetch only where it did not; the fetch
/// names the plan's identifier and is scoped to the plan's revision.
pub proof fn lemma_acquisition_follows_probe(events: Seq<EventView>, at: int)
    requires
        0 <= at < events.len(),
        emitted(events, at) is LoadLocal || emitted(events, at) is Fetch,
    ensures
        at == 1,
        events[0] is Inputs,
        resolution(events[0]->Inputs_0) is Ok,
        events[1] is PathProbed,
        emitted(events, at) is LoadLocal <==> events[1]->PathProbed_0.names_local_tokenizer(),
        emitted(events, at) is LoadLocal ==> emitted(events, at) == (ActionView::LoadLocal {
            directory: resolution(events[0]->Inputs_0)->Ok_0.tokenizer_id,
        }),
        emitted(events, at) is Fetch ==> emitted(events, at) == (ActionView::Fetch {
            identifier: resolution(events[0]->Inputs_0)->Ok_0.tokenizer_id,
            revision: resolution(events[0]->Inputs_0)->Ok_0.revision,
        }),
{
    lemma_actions_follow_the_sequence(events, at);
    assert(reports_success(0, events[0]));
    assert(reports_success(1, events[1]));
    lemma_state_before(events, at);
    lemma_plan_and_probe_are_kept(events, at);
}

/// Where the tokenizer identifier names a local directory with a
/// definition file, the bootstrap asks for a local load of that directory
/// and never, at any point of any history, for a registry fetch.
pub proof fn lemma_local_tokenizer_is_never_fetched(events: Seq<EventView>, at: int)
    requires
        0 <= at < events.len(),
        events.len() >= 2,
        succeeded_through(events, 1),
        events[1] is PathProbed,
        events[1]->PathProbed_0.names_local_tokenizer(),
    ensures
        emitted(events, at) !is Fetch,
        emitted(events, 1) == (ActionView::LoadLocal {
            directory: resolution(events[0]->Inputs_0)->Ok_0.tokenizer_id,
        }),
{
    if emitted(events, at) is Fetch {
        lemma_acquisition_follows_probe(events, at);
    }
    lemma_first_steps(events);
}

/// Where nothing exists at the path that the tokenizer identifier names,
/// the bootstrap asks for a registry fetch of that identifier, scoped to
/// the revision of the plan.
pub proof fn lemma_missing_path_is_fetched(events: Seq<EventView>)
    requires
        events.len() >= 2,
        succeeded_through(events, 1),
        events[1] is PathProbed,
        !events[1]->PathProbed_0.exists,
    ensures
        emitted(events, 1) == (ActionView::Fetch {
            identifier: resolution(events[0]->Inputs_0)->Ok_0.tokenizer_id,
            revision: resolution(events[0]->Inputs_0)->Ok_0.revision,
        }),
{
    lemma_first_steps(events);
}

/// The first two steps of a history whose inputs resolve and whose second
/// event is the probe.
proof fn lemma_first_steps(events: Seq<EventView>)
    requires
        events.len() >= 2,
        succeeded_through(events, 1),
        events[1] is PathProbed,
    ensures
        replay(events.take(1)) == (BootstrapView {
            stage: Stage::ConfigResolved,
            config: Some(resolution(events[0]->Inputs_0)->Ok_0),
            probe: None,
            failure: None,
        }),
        emitted(events, 1) == acquisition(
            chosen_source(resolution(events[0]->Inputs_0)->Ok_0, events[1]->PathProbed_0),
        ),
{
    assert(reports_success(0, events[0]));
    assert(events.take(0) =~= Seq::<EventView>::empty());
    lemma_replay_unfolds(events, 0);
}

/// A failed tokenizer acquisition ends the bootstrap: from that event on,
/// every answer is an `Abort` with a non-zero status, so no runtime is
/// started and no connection is attempted.  The recorded failure is the
/// tokenizer error that the chosen source and the reported cause stand
/// for.
pub proof fn lemma_tokenizer_failure_is_final(events: Seq<EventView>, at: int)
    requires
        2 <= at < events.len(),
        succeeded_through(events, 2),
        events[2] is TokenizerFailed,
    ensures
        emitted(events, at) is Abort,
        emitted(events, at)->Abort_code != 0,
        replay(events.take(at + 1)).stage == Stage::Terminal(Outcome::Failure),
        replay(events.take(at + 1)).failure == Some(
            FailureView {
                stage: Stage::ConfigResolved,
                error: BootstrapErrorView::Tokenizer(
                    failure_for(
                        chosen_source(
                            resolution(events[0]->Inputs_0)->Ok_0,
                            events[1]->PathProbed_0,
                        ),
                        events[2]->TokenizerFailed_unreadable,
                        events[2]->TokenizerFailed_cause,
                    ),
                ),
            },
        ),
{
    assert(reports_success(1, events[1]));
    lemma_first_steps(events);
    lemma_replay_unfolds(events, 1);
    lemma_replay_unfolds(events, 2);
    lemma_terminal_is_final(events, 3, at + 1);
    if 2 < at {
        lemma_terminal_is_final(events, 3, at);
    }
}

/// No runtime is started before the tokenizer is ready: in every history,
/// a `StartRuntime` is answered only to a `TokenizerLoaded` that follows
/// resolved inputs and the probe.
pub proof fn lemma_runtime_needs_tokenizer(events: Seq<EventView>, at: int)
    requires
        0 <= at < events.len(),
        emitted(events, at) is StartRuntime,
    ensures
        at == 2,
        events[2] is TokenizerLoaded,
        succeeded_through(events, 3),
{
    lemma_actions_follow_the_sequence(events, at);
    assert(reports_success(2, events[2]));
}

/// No connection is attempted before the tokenizer is ready: in every
/// history, a `Connect` is answered only after the inputs resolved, the
/// tokenizer was reported loaded and the runtime was reported started,
/// and it names the socket of the resolved plan.
pub proof fn lemma_connect_needs_tokenizer(events: Seq<EventView>, at: int)
    requires
        0 <= at < events.len(),
        emitted(events, at) is Connect,
    ensures
        at == 3,
        events[0] is Inputs,
        resolution(events[0]->Inputs_0) is Ok,
        emitted(events, at) == (ActionView::Connect {
            socket_path: resolution(events[0]->Inputs_0)->Ok_0.backend_socket_path,
        }),
        events[2] is TokenizerLoaded,
        events[3] is RuntimeStarted,
        succeeded_through(events, 4),
{
    lemma_actions_follow_the_sequence(events, at);
    assert(reports_success(0, events[0]));
    assert(reports_success(2, events[2]));
    assert(reports_success(3, events[3]));
    lemma_state_before(events, at);
    lemma_plan_and_probe_are_kept(events, at);
}

/// The cache is reset only on a live connection, and always as a whole:
/// in every history, a `ResetCache` is answered only to a `Connected`, and
/// its scope is `None`.
pub proof fn lemma_reset_needs_connection(events: Seq<EventView>, at: int)
    requires
        0 <= at < events.len(),
        emitted(events, at) is ResetCache,
    ensures
        at == 4,
        events[4] is Connected,
        emitted(events, at) == (ActionView::ResetCache { scope: None }),
        succeeded_through(events, 5),
{
    lemma_actions_follow_the_sequence(events, at);
    assert(reports_success(4, events[4]));
    lemma_state_before(events, at);
}

/// The benchmark run is handed plan, tokenizer and connection only after
/// every shard acknowledged the cache reset: in every history, a `HandOff`
/// is answered only to a `CacheCleared` that follows a `Connected`, with
/// every earlier position passed.
pub proof fn lemma_hand_off_needs_cleared_cache(events: Seq<EventView>, at: int)
    requires
        0 <= at < events.len(),
        emitted(events, at) is HandOff,
    ensures
        at == 5,
        events[5] is CacheCleared,
        events[4] is Connected,
        succeeded_through(events, 6),
{
    lemma_actions_follow_the_sequence(events, at);
    assert(reports_success(4, events[4]));
    assert(reports_success(5, events[5]));
}

/// The run is awaited only after the hand-off, which in turn follows the
/// acknowledged cache reset.
pub proof fn lemma_run_needs_hand_off(events: Seq<EventView>, at: int)
    requires
        0 <= at < events.len(),
        emitted(events, at) is AwaitRun,
    ensures
        at == 6,
        events[6] is HandedOff,
        events[5] is CacheCleared,
        succeeded_through(events, 7),
{
    lemma_actions_follow_the_sequence(events, at);
    assert(reports_success(5, events[5]));
    assert(reports_success(6, events[6]));
}

/// A bootstrap ends in `Terminal(Success)` only where the first eight
/// events reported success at the eight positions in order, the last of
/// them being the completed run.
pub proof fn lemma_success_needs_every_stage(events: Seq<EventView>)
    requires
        replay(events).stage == Stage::Terminal(Outcome::Success),
    ensures
        events.len() >= 8,
        succeeded_through(events, 8),
        events[7] is RunCompleted,
    decreases events.len(),
{
    assert(events.len() > 0);
    let earlier = events.drop_last();
    lemma_stage_tells_history(earlier);
    lemma_step_is_forward_only(replay(earlier), events.last());
    if replay(earlier).stage is Terminal {
        lemma_success_needs_every_stage(earlier);
        assert forall|j: int| 0 <= j < 8 implies reports_success(j, #[trigger] events[j]) by {
            assert(events[j] == earlier[j]);
        }
    } else {
        assert(replay(earlier).stage == Stage::Running);
        assert forall|j: int| 0 <= j < 8 implies reports_success(j, #[trigger] events[j]) by {
            if j < 7 {
                assert(events[j] == earlier[j]);
            }
        }
    }
}

} // verus!
