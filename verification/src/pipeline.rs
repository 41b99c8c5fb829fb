//! The issuance pipeline as a strictly linear state machine.
//!
//! The four stages — configuration, connection, token fetch, durable write —
//! run in sequence, each terminal on failure. The host performs the outside
//! work that a [`PipelineAction`] requests (connect to the endpoint, fetch
//! the token, write the file) and feeds the outcome back as a
//! [`PipelineEvent`]; [`PipelineState::step`] makes every decision and is
//! verified against [`spec_step`].

use vstd::prelude::*;

use crate::config::ConfigError;
use crate::config::ConfigModel;
use crate::config::IssuanceConfig;
use crate::config::spec_resolve;

verus! {

/// The signed identity token returned by the attestation service, kept as an
/// opaque, unparsed payload: the pipeline never inspects or validates it.
pub struct IdentityToken {
    pub raw_token: String,
}

impl View for IdentityToken {
    type V = Seq<char>;

    open spec fn view(&self) -> Seq<char> {
        self.raw_token@
    }
}

/// Which part of the durable write failed.
#[derive(Clone, Copy, Debug, PartialEq, Eq, Structural)]
pub enum WriteError {
    DirectoryCreation,
    FileWrite,
}

/// The failure of one pipeline stage; each is terminal for the run.
#[derive(Clone, Copy, Debug, PartialEq, Eq, Structural)]
pub enum StageError {
    Config(ConfigError),
    Connect,
    Fetch,
    Write(WriteError),
}

/// The pipeline's position: the linear chain `Start → ConfigResolved →
/// Connected → TokenFetched → Done`, with `Failed` the terminal state of any
/// stage's error. `Done` and `Failed` accept no further event.
pub enum PipelineState {
    Start,
    ConfigResolved { config: IssuanceConfig },
    Connected { config: IssuanceConfig },
    TokenFetched { config: IssuanceConfig, token: IdentityToken },
    Done,
    Failed { error: StageError },
}

/// What the host reports to the machine: the environment values read at
/// startup, then the outcome of each piece of outside work it was asked for.
pub enum PipelineEvent {
    EnvRead {
        jwt_aud: Option<String>,
        jwt_path: Option<String>,
        workload_api_path: Option<String>,
    },
    ConnectOutcome { ok: bool },
    FetchOutcome { token: Option<IdentityToken> },
    WriteOutcome { error: Option<WriteError> },
}

/// What the machine asks the host to do next. `Exit` ends the run and says
/// whether the process outcome is success (exit code zero) or failure.
pub enum PipelineAction {
    Connect { endpoint: String },
    FetchToken { audience: String },
    WriteToken { path: String, token: IdentityToken },
    Exit { success: bool },
}

/// Model of a [`PipelineState`], over character sequences.
pub enum StateModel {
    Start,
    ConfigResolved { config: ConfigModel },
    Connected { config: ConfigModel },
    TokenFetched { config: ConfigModel, token: Seq<char> },
    Done,
    Failed { error: StageError },
}

/// Model of a [`PipelineEvent`], over character sequences.
pub enum EventModel {
    EnvRead {
        jwt_aud: Option<Seq<char>>,
        jwt_path: Option<Seq<char>>,
        workload_api_path: Option<Seq<char>>,
    },
    ConnectOutcome { ok: bool },
    FetchOutcome { token: Option<Seq<char>> },
    WriteOutcome { error: Option<WriteError> },
}

/// Model of a [`PipelineAction`], over character sequences.
pub enum ActionModel {
    Connect { endpoint: Seq<char> },
    FetchToken { audience: Seq<char> },
    WriteToken { path: Seq<char>, token: Seq<char> },
    Exit { success: bool },
}

impl View for PipelineState {
    type V = StateModel;

    open spec fn view(&self) -> StateModel {
        match self {
            PipelineState::Start => StateModel::Start,
            PipelineState::ConfigResolved { config } => StateModel::ConfigResolved {
                config: config@,
            },
            PipelineState::Connected { config } => StateModel::Connected { config: config@ },
            PipelineState::TokenFetched { config, token } => StateModel::TokenFetched {
                config: config@,
                token: token@,
            },
            PipelineState::Done => StateModel::Done,
            PipelineState::Failed { error } => StateModel::Failed { error: *error },
        }
    }
}

impl View for PipelineEvent {
    type V = EventModel;

    open spec fn view(&self) -> EventModel {
        match self {
            PipelineEvent::EnvRead { jwt_aud, jwt_path, workload_api_path } => EventModel::EnvRead {
                jwt_aud: jwt_aud.deep_view(),
                jwt_path: jwt_path.deep_view(),
                workload_api_path: workload_api_path.deep_view(),
            },
            PipelineEvent::ConnectOutcome { ok } => EventModel::ConnectOutcome { ok: *ok },
            PipelineEvent::FetchOutcome { token } => EventModel::FetchOutcome {
                token: match token {
                    Some(t) => Some(t@),
                    None => None,
                },
            },
            PipelineEvent::WriteOutcome { error } => EventModel::WriteOutcome { error: *error },
        }
    }
}

impl View for PipelineAction {
    type V = ActionModel;

    open spec fn view(&self) -> ActionModel {
        match self {
            PipelineAction::Connect { endpoint } => ActionModel::Connect { endpoint: endpoint@ },
            PipelineAction::FetchToken { audience } => ActionModel::FetchToken {
                audience: audience@,
            },
            PipelineAction::WriteToken { path, token } => ActionModel::WriteToken {
                path: path@,
                token: token@,
            },
            PipelineAction::Exit { success } => ActionModel::Exit { success: *success },
        }
    }
}

/// Which event each state expects: the pipeline is linear, so exactly one
/// event shape is accepted per live state, and the terminal states `Done`
/// and `Failed` accept none.
pub open spec fn accepts(s: StateModel, e: EventModel) -> bool {
    match (s, e) {
        (StateModel::Start, EventModel::EnvRead { .. }) => true,
        (StateModel::ConfigResolved { .. }, EventModel::ConnectOutcome { .. }) => true,
        (StateModel::Connected { .. }, EventModel::FetchOutcome { .. }) => true,
        (StateModel::TokenFetched { .. }, EventModel::WriteOutcome { .. }) => true,
        _ => false,
    }
}

/// `Done` and `Failed` are terminal: neither accepts any event, so once a
/// stage has failed no later stage can be asked for anything, and a finished
/// run cannot be extended.
pub proof fn lemma_terminal_states_accept_nothing(s: StateModel, e: EventModel)
    requires
        s is Done || s is Failed,
    ensures
        !accepts(s, e),
{
}

/// The transition function of the pipeline. On each accepted event it moves
/// to the next stage on success and to `Failed` on that stage's error, and
/// names the outside work the host must do next: resolving the environment
/// values requests a connection to the configured endpoint; a successful
/// connection requests a token fetch for the configured audience; a fetched
/// token is requested to be written, verbatim, to the configured path; a
/// completed or failed write ends the run with the matching exit outcome.
pub open spec fn spec_step(s: StateModel, e: EventModel) -> (StateModel, ActionModel) {
    match (s, e) {
        (StateModel::Start, EventModel::EnvRead { jwt_aud, jwt_path, workload_api_path }) => {
            match spec_resolve(jwt_aud, jwt_path, workload_api_path) {
                Ok(config) => (
                    StateModel::ConfigResolved { config },
                    ActionModel::Connect { endpoint: config.attestation_endpoint },
                ),
                Err(error) => (
                    StateModel::Failed { error: StageError::Config(error) },
                    ActionModel::Exit { success: false },
                ),
            }
        },
        (StateModel::ConfigResolved { config }, EventModel::ConnectOutcome { ok }) => {
            if ok {
                (
                    StateModel::Connected { config },
                    ActionModel::FetchToken { audience: config.audience },
                )
            } else {
                (
                    StateModel::Failed { error: StageError::Connect },
                    ActionModel::Exit { success: false },
                )
            }
        },
        (StateModel::Connected { config }, EventModel::FetchOutcome { token }) => {
            match token {
                Some(t) => (
                    StateModel::TokenFetched { config, token: t },
                    ActionModel::WriteToken { path: config.token_output_path, token: t },
                ),
                None => (
                    StateModel::Failed { error: StageError::Fetch },
                    ActionModel::Exit { success: false },
                ),
            }
        },
        (StateModel::TokenFetched { .. }, EventModel::WriteOutcome { error }) => {
            match error {
                None => (StateModel::Done, ActionModel::Exit { success: true }),
                Some(kind) => (
                    StateModel::Failed { error: StageError::Write(kind) },
                    ActionModel::Exit { success: false },
                ),
            }
        },
        _ => (s, ActionModel::Exit { success: false }),
    }
}

impl PipelineState {
    /// Whether this state expects the given event; the host checks this
    /// before calling [`PipelineState::step`].
    pub fn accepts_event(&self, e: &PipelineEvent) -> (b: bool)
        ensures
            b == accepts(self@, e@),
    {
        match (self, e) {
            (PipelineState::Start, PipelineEvent::EnvRead { .. }) => true,
            (PipelineState::ConfigResolved { .. }, PipelineEvent::ConnectOutcome { .. }) => true,
            (PipelineState::Connected { .. }, PipelineEvent::FetchOutcome { .. }) => true,
            (PipelineState::TokenFetched { .. }, PipelineEvent::WriteOutcome { .. }) => true,
            _ => false,
        }
    }

    /// Takes one pipeline step: consumes the current state and the event the
    /// host reported, and returns the next state together with the action
    /// the host must perform next, exactly as [`spec_step`] says.
    pub fn step(self, e: PipelineEvent) -> (r: (PipelineState, PipelineAction))
        requires
            accepts(self@, e@),
        ensures
            (r.0@, r.1@) == spec_step(self@, e@),
    {
        match (self, e) {
            (
                PipelineState::Start,
                PipelineEvent::EnvRead { jwt_aud, jwt_path, workload_api_path },
            ) => {
                match IssuanceConfig::resolve(jwt_aud, jwt_path, workload_api_path) {
                    Ok(config) => {
                        let endpoint = config.attestation_endpoint.clone();
                        (
                            PipelineState::ConfigResolved { config },
                            PipelineAction::Connect { endpoint },
                        )
                    },
                    Err(error) => (
                        PipelineState::Failed { error: StageError::Config(error) },
                        PipelineAction::Exit { success: false },
                    ),
                }
            },
            (PipelineState::ConfigResolved { config }, PipelineEvent::ConnectOutcome { ok }) => {
                if ok {
                    let audience = config.audience.clone();
                    (
                        PipelineState::Connected { config },
                        PipelineAction::FetchToken { audience },
                    )
                } else {
                    (
                        PipelineState::Failed { error: StageError::Connect },
                        PipelineAction::Exit { success: false },
                    )
                }
            },
            (PipelineState::Connected { config }, PipelineEvent::FetchOutcome { token }) => {
                match token {
                    Some(t) => {
                        let path = config.token_output_path.clone();
                        let copy = IdentityToken { raw_token: t.raw_token.clone() };
                        (
                            PipelineState::TokenFetched { config, token: t },
                            PipelineAction::WriteToken { path, token: copy },
                        )
                    },
                    None => (
                        PipelineState::Failed { error: StageError::Fetch },
                        PipelineAction::Exit { success: false },
                    ),
                }
            },
            (PipelineState::TokenFetched { .. }, PipelineEvent::WriteOutcome { error }) => {
                match error {
                    None => (PipelineState::Done, PipelineAction::Exit { success: true }),
                    Some(kind) => (
                        PipelineState::Failed { error: StageError::Write(kind) },
                        PipelineAction::Exit { success: false },
                    ),
                }
            },
            _ => vstd::pervasive::unreached(),
        }
    }
}

} // verus!
