use std::collections::HashMap;

use jwt_dropper::pipeline::IdentityToken;
use jwt_dropper::pipeline::PipelineAction;
use jwt_dropper::pipeline::PipelineEvent;
use jwt_dropper::pipeline::PipelineState;
use jwt_dropper::pipeline::StageError;
use jwt_dropper::pipeline::WriteError;

/// Drives one full run of the state machine against scripted outside
/// outcomes and a simulated file system; returns whether the run exited
/// with success, together with the actions the machine requested, in order.
fn simulate(
    jwt_aud: Option<&str>,
    jwt_path: Option<&str>,
    workload_api_path: Option<&str>,
    connect_ok: bool,
    service_token: Option<&str>,
    write_error: Option<WriteError>,
    fs: &mut HashMap<String, String>,
) -> (bool, Vec<String>) {
    let mut actions: Vec<String> = Vec::new();
    let mut state = PipelineState::Start;
    let mut event = PipelineEvent::EnvRead {
        jwt_aud: jwt_aud.map(str::to_string),
        jwt_path: jwt_path.map(str::to_string),
        workload_api_path: workload_api_path.map(str::to_string),
    };
    loop {
        assert!(state.accepts_event(&event), "the host fed an event out of order");
        let (next, action) = state.step(event);
        state = next;
        match action {
            PipelineAction::Connect { endpoint } => {
                actions.push(format!("connect:{endpoint}"));
                event = PipelineEvent::ConnectOutcome { ok: connect_ok };
            }
            PipelineAction::FetchToken { audience } => {
                actions.push(format!("fetch:{audience}"));
                event = PipelineEvent::FetchOutcome {
                    token: service_token.map(|raw| IdentityToken { raw_token: raw.to_string() }),
                };
            }
            PipelineAction::WriteToken { path, token } => {
                actions.push(format!("write:{path}"));
                if write_error.is_none() {
                    fs.insert(path, token.raw_token);
                }
                event = PipelineEvent::WriteOutcome { error: write_error };
            }
            PipelineAction::Exit { success } => {
                actions.push(format!("exit:{success}"));
                return (success, actions);
            }
        }
    }
}

#[test]
fn full_success_drops_the_token_byte_exact() {
    let mut fs = HashMap::new();
    let (success, actions) = simulate(
        Some("spiffe://example.org/workload"),
        Some("/run/creds/token.jwt"),
        None,
        true,
        Some("eyJhbGci..."),
        None,
        &mut fs,
    );
    assert!(success);
    assert_eq!(
        actions,
        vec![
            "connect:unix:/var/run/spire-agent/api.sock",
            "fetch:spiffe://example.org/workload",
            "write:/run/creds/token.jwt",
            "exit:true",
        ],
    );
    assert_eq!(fs.get("/run/creds/token.jwt").map(String::as_str), Some("eyJhbGci..."));
    assert_eq!(fs.len(), 1);
}

#[test]
fn missing_audience_exits_nonzero_without_connecting() {
    let mut fs = HashMap::new();
    let (success, actions) = simulate(
        None,
        Some("/run/creds/token.jwt"),
        None,
        true,
        Some("eyJhbGci..."),
        None,
        &mut fs,
    );
    assert!(!success);
    assert_eq!(actions, vec!["exit:false"]);
    assert!(fs.is_empty());
}

#[test]
fn connect_failure_exits_nonzero_without_fetch_or_write() {
    let mut fs = HashMap::new();
    let (success, actions) = simulate(
        Some("spiffe://example.org/workload"),
        Some("/run/creds/token.jwt"),
        Some("unix:/nonexistent/agent.sock"),
        false,
        Some("eyJhbGci..."),
        None,
        &mut fs,
    );
    assert!(!success);
    assert_eq!(actions, vec!["connect:unix:/nonexistent/agent.sock", "exit:false"]);
    assert!(fs.is_empty());
}

#[test]
fn fetch_failure_exits_nonzero_without_write() {
    let mut fs = HashMap::new();
    let (success, actions) = simulate(
        Some("spiffe://example.org/workload"),
        Some("/run/creds/token.jwt"),
        None,
        true,
        None,
        None,
        &mut fs,
    );
    assert!(!success);
    assert_eq!(
        actions,
        vec![
            "connect:unix:/var/run/spire-agent/api.sock",
            "fetch:spiffe://example.org/workload",
            "exit:false",
        ],
    );
    assert!(fs.is_empty());
}

#[test]
fn write_failure_exits_nonzero() {
    let mut fs = HashMap::new();
    let (success, actions) = simulate(
        Some("aud"),
        Some("/run/creds/token.jwt"),
        None,
        true,
        Some("tok"),
        Some(WriteError::DirectoryCreation),
        &mut fs,
    );
    assert!(!success);
    assert_eq!(actions.last().map(String::as_str), Some("exit:false"));
    assert!(fs.is_empty());

    let (success, _) = simulate(
        Some("aud"),
        Some("/run/creds/token.jwt"),
        None,
        true,
        Some("tok"),
        Some(WriteError::FileWrite),
        &mut fs,
    );
    assert!(!success);
    assert!(fs.is_empty());
}

#[test]
fn rerun_fully_overwrites_the_previous_token() {
    let mut fs = HashMap::new();
    let (first, _) =
        simulate(Some("aud"), Some("/tmp/token"), None, true, Some("token-one"), None, &mut fs);
    let (second, _) =
        simulate(Some("aud"), Some("/tmp/token"), None, true, Some("token-two"), None, &mut fs);
    assert!(first && second);
    assert_eq!(fs.get("/tmp/token").map(String::as_str), Some("token-two"));
    assert_eq!(fs.len(), 1);
}

#[test]
fn failed_stages_are_reported_with_their_kind() {
    let state = PipelineState::Start;
    let event = PipelineEvent::EnvRead { jwt_aud: None, jwt_path: None, workload_api_path: None };
    assert!(state.accepts_event(&event));
    let (next, action) = state.step(event);
    assert!(matches!(
        next,
        PipelineState::Failed {
            error: StageError::Config(jwt_dropper::config::ConfigError::MissingAudience),
        },
    ));
    assert!(matches!(action, PipelineAction::Exit { success: false }));
}

#[test]
fn terminal_states_accept_no_event() {
    let done = PipelineState::Done;
    assert!(!done.accepts_event(&PipelineEvent::ConnectOutcome { ok: true }));
    let failed = PipelineState::Failed { error: StageError::Connect };
    assert!(!failed.accepts_event(&PipelineEvent::WriteOutcome { error: None }));
    let start = PipelineState::Start;
    assert!(!start.accepts_event(&PipelineEvent::ConnectOutcome { ok: true }));
}
