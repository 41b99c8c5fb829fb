//! A model of one complete run of the pipeline, and the laws that hold of
//! it: stage gating, short-circuiting on failure, the byte-exact round trip
//! of the token on success, and the overwrite behaviour of repeated runs.
//!
//! A run is the composition of [`spec_step`] transitions from `Start`,
//! driven by the environment values and by the outcomes of the outside work
//! (whether the connection succeeded, what token the service returned,
//! whether the write went through). The host's file-system effect is
//! modelled by [`apply_run`]: exactly a successful run replaces the content
//! at the configured path with the fetched token, and nothing else changes.

use vstd::prelude::*;

use crate::config::ConfigModel;
use crate::config::spec_resolve;
use crate::pipeline::ActionModel;
use crate::pipeline::EventModel;
use crate::pipeline::StageError;
use crate::pipeline::StateModel;
use crate::pipeline::WriteError;
use crate::pipeline::spec_step;

verus! {

/// One complete run: the final state, the actions the machine requested in
/// order, and the durable write the run performed, if any, as a path paired
/// with the content.
pub struct RunModel {
    pub final_state: StateModel,
    pub actions: Seq<ActionModel>,
    pub written: Option<(Seq<char>, Seq<char>)>,
}

/// The run that the given environment values and outside outcomes produce:
/// [`spec_step`] applied from `Start` until an `Exit` action, stopping at
/// the first failed stage.
pub open spec fn run_model(
    jwt_aud: Option<Seq<char>>,
    jwt_path: Option<Seq<char>>,
    workload_api_path: Option<Seq<char>>,
    connect_ok: bool,
    fetched_token: Option<Seq<char>>,
    write_error: Option<WriteError>,
) -> RunModel {
    let env = EventModel::EnvRead { jwt_aud, jwt_path, workload_api_path };
    let (s1, a1) = spec_step(StateModel::Start, env);
    if !(s1 is ConfigResolved) {
        RunModel { final_state: s1, actions: seq![a1], written: None }
    } else {
        let (s2, a2) = spec_step(s1, EventModel::ConnectOutcome { ok: connect_ok });
        if !(s2 is Connected) {
            RunModel { final_state: s2, actions: seq![a1, a2], written: None }
        } else {
            let (s3, a3) = spec_step(s2, EventModel::FetchOutcome { token: fetched_token });
            if !(s3 is TokenFetched) {
                RunModel { final_state: s3, actions: seq![a1, a2, a3], written: None }
            } else {
                let (s4, a4) = spec_step(s3, EventModel::WriteOutcome { error: write_error });
                RunModel {
                    final_state: s4,
                    actions: seq![a1, a2, a3, a4],
                    written: if s4 is Done {
                        Some(
                            (
                                s3->TokenFetched_config.token_output_path,
                                s3->TokenFetched_token,
                            ),
                        )
                    } else {
                        None
                    },
                }
            }
        }
    }
}

/// The file system — content by path — after the host has performed a run's
/// durable write, if the run made one.
pub open spec fn apply_run(fs: Map<Seq<char>, Seq<char>>, r: RunModel) -> Map<
    Seq<char>,
    Seq<char>,
> {
    match r.written {
        Some(w) => fs.insert(w.0, w.1),
        None => fs,
    }
}

/// Every run ends with exactly one `Exit` action, whose outcome is success
/// exactly when the run reached `Done`; and a run writes a file exactly when
/// it reached `Done`.
pub proof fn lemma_run_exits_once_with_outcome(
    jwt_aud: Option<Seq<char>>,
    jwt_path: Option<Seq<char>>,
    workload_api_path: Option<Seq<char>>,
    connect_ok: bool,
    fetched_token: Option<Seq<char>>,
    write_error: Option<WriteError>,
)
    ensures
        ({
            let r = run_model(
                jwt_aud,
                jwt_path,
                workload_api_path,
                connect_ok,
                fetched_token,
                write_error,
            );
            &&& r.actions.len() >= 1
            &&& r.actions.last() == (ActionModel::Exit { success: r.final_state is Done })
            &&& forall|i: int|
                0 <= i < r.actions.len() - 1 ==> !(#[trigger] r.actions[i] is Exit)
            &&& (r.written is Some <==> r.final_state is Done)
        }),
{
}

/// Stage gating: when a required key is missing or empty, the run fails at
/// configuration resolution with that `ConfigError`; no connection, fetch or
/// write is ever requested, and the file system is left untouched.
pub proof fn lemma_config_failure_short_circuits(
    jwt_aud: Option<Seq<char>>,
    jwt_path: Option<Seq<char>>,
    workload_api_path: Option<Seq<char>>,
    connect_ok: bool,
    fetched_token: Option<Seq<char>>,
    write_error: Option<WriteError>,
    fs: Map<Seq<char>, Seq<char>>,
)
    requires
        spec_resolve(jwt_aud, jwt_path, workload_api_path) is Err,
    ensures
        ({
            let r = run_model(
                jwt_aud,
                jwt_path,
                workload_api_path,
                connect_ok,
                fetched_token,
                write_error,
            );
            &&& r.final_state == (StateModel::Failed {
                error: StageError::Config(
                    spec_resolve(jwt_aud, jwt_path, workload_api_path)->Err_0,
                ),
            })
            &&& r.actions.len() == 1
            &&& r.actions[0] == (ActionModel::Exit { success: false })
            &&& forall|i: int|
                0 <= i < r.actions.len() ==> !(#[trigger] r.actions[i] is Connect)
                    && !(r.actions[i] is FetchToken) && !(r.actions[i] is WriteToken)
            &&& r.written is None
            &&& apply_run(fs, r) == fs
        }),
{
}

/// Short circuit on connection failure: with a valid configuration but a
/// failed connection, the run fails at the connect stage; a fetch or write
/// is never requested, and the file system is left untouched.
pub proof fn lemma_connect_failure_short_circuits(
    jwt_aud: Option<Seq<char>>,
    jwt_path: Option<Seq<char>>,
    workload_api_path: Option<Seq<char>>,
    fetched_token: Option<Seq<char>>,
    write_error: Option<WriteError>,
    fs: Map<Seq<char>, Seq<char>>,
)
    requires
        spec_resolve(jwt_aud, jwt_path, workload_api_path) is Ok,
    ensures
        ({
            let r = run_model(
                jwt_aud,
                jwt_path,
                workload_api_path,
                false,
                fetched_token,
                write_error,
            );
            let config = spec_resolve(jwt_aud, jwt_path, workload_api_path)->Ok_0;
            &&& r.final_state == (StateModel::Failed { error: StageError::Connect })
            &&& r.actions.len() == 2
            &&& r.actions[0] == (ActionModel::Connect { endpoint: config.attestation_endpoint })
            &&& r.actions[1] == (ActionModel::Exit { success: false })
            &&& forall|i: int|
                0 <= i < r.actions.len() ==> !(#[trigger] r.actions[i] is FetchToken) && !(
                r.actions[i] is WriteToken)
            &&& r.written is None
            &&& apply_run(fs, r) == fs
        }),
{
}

/// No partial write: with a valid configuration and a live connection but a
/// failed token fetch, the run fails at the fetch stage; a write is never
/// requested, and the file system is left untouched — no file is created or
/// modified.
pub proof fn lemma_fetch_failure_no_write(
    jwt_aud: Option<Seq<char>>,
    jwt_path: Option<Seq<char>>,
    workload_api_path: Option<Seq<char>>,
    write_error: Option<WriteError>,
    fs: Map<Seq<char>, Seq<char>>,
)
    requires
        spec_resolve(jwt_aud, jwt_path, workload_api_path) is Ok,
    ensures
        ({
            let r = run_model(
                jwt_aud,
                jwt_path,
                workload_api_path,
                true,
                None,
                write_error,
            );
            let config = spec_resolve(jwt_aud, jwt_path, workload_api_path)->Ok_0;
            &&& r.final_state == (StateModel::Failed { error: StageError::Fetch })
            &&& r.actions.len() == 3
            &&& r.actions[0] == (ActionModel::Connect { endpoint: config.attestation_endpoint })
            &&& r.actions[1] == (ActionModel::FetchToken { audience: config.audience })
            &&& r.actions[2] == (ActionModel::Exit { success: false })
            &&& forall|i: int|
                0 <= i < r.actions.len() ==> !(#[trigger] r.actions[i] is WriteToken)
            &&& r.written is None
            &&& apply_run(fs, r) == fs
        }),
{
}

/// A failed write leaves the file system untouched and ends the run with a
/// failure outcome carrying the write error's kind.
pub proof fn lemma_write_failure_leaves_fs_unchanged(
    jwt_aud: Option<Seq<char>>,
    jwt_path: Option<Seq<char>>,
    workload_api_path: Option<Seq<char>>,
    fetched_token: Seq<char>,
    kind: WriteError,
    fs: Map<Seq<char>, Seq<char>>,
)
    requires
        spec_resolve(jwt_aud, jwt_path, workload_api_path) is Ok,
    ensures
        ({
            let r = run_model(
                jwt_aud,
                jwt_path,
                workload_api_path,
                true,
                Some(fetched_token),
                Some(kind),
            );
            &&& r.final_state == (StateModel::Failed { error: StageError::Write(kind) })
            &&& r.actions.last() == (ActionModel::Exit { success: false })
            &&& r.written is None
            &&& apply_run(fs, r) == fs
        }),
{
}

/// Byte-exact round trip: on full success the run reaches `Done`, the write
/// it requested carries the fetched token verbatim to the configured path,
/// and afterwards the file at that path holds exactly the token — nothing
/// else on the file system changes.
pub proof fn lemma_success_round_trip(
    jwt_aud: Option<Seq<char>>,
    jwt_path: Option<Seq<char>>,
    workload_api_path: Option<Seq<char>>,
    fetched_token: Seq<char>,
    fs: Map<Seq<char>, Seq<char>>,
)
    requires
        spec_resolve(jwt_aud, jwt_path, workload_api_path) is Ok,
    ensures
        ({
            let r = run_model(
                jwt_aud,
                jwt_path,
                workload_api_path,
                true,
                Some(fetched_token),
                None,
            );
            let config = spec_resolve(jwt_aud, jwt_path, workload_api_path)->Ok_0;
            &&& r.final_state is Done
            &&& r.actions.len() == 4
            &&& r.actions[0] == (ActionModel::Connect { endpoint: config.attestation_endpoint })
            &&& r.actions[1] == (ActionModel::FetchToken { audience: config.audience })
            &&& r.actions[2] == (ActionModel::WriteToken {
                path: config.token_output_path,
                token: fetched_token,
            })
            &&& r.actions[3] == (ActionModel::Exit { success: true })
            &&& r.written == Some((config.token_output_path, fetched_token))
            &&& apply_run(fs, r) == fs.insert(config.token_output_path, fetched_token)
            &&& apply_run(fs, r)[config.token_output_path] == fetched_token
            &&& apply_run(fs, r).contains_key(config.token_output_path)
        }),
{
}

/// Idempotence of re-running: two successful runs with the same
/// configuration overwrite the same path, and the file afterwards holds
/// exactly the token the second run fetched — a full replace, no append and
/// no merge. With a stable service response the two tokens coincide, so the
/// file is simply the token again.
pub proof fn lemma_rerun_overwrites(
    jwt_aud: Option<Seq<char>>,
    jwt_path: Option<Seq<char>>,
    workload_api_path: Option<Seq<char>>,
    first_token: Seq<char>,
    second_token: Seq<char>,
    fs: Map<Seq<char>, Seq<char>>,
)
    requires
        spec_resolve(jwt_aud, jwt_path, workload_api_path) is Ok,
    ensures
        ({
            let r1 = run_model(jwt_aud, jwt_path, workload_api_path, true, Some(first_token), None);
            let r2 = run_model(
                jwt_aud,
                jwt_path,
                workload_api_path,
                true,
                Some(second_token),
                None,
            );
            let config = spec_resolve(jwt_aud, jwt_path, workload_api_path)->Ok_0;
            apply_run(apply_run(fs, r1), r2) == fs.insert(
                config.token_output_path,
                second_token,
            )
        }),
{
    let config = spec_resolve(jwt_aud, jwt_path, workload_api_path)->Ok_0;
    let r1 = run_model(jwt_aud, jwt_path, workload_api_path, true, Some(first_token), None);
    let r2 = run_model(jwt_aud, jwt_path, workload_api_path, true, Some(second_token), None);
    assert(apply_run(apply_run(fs, r1), r2) =~= fs.insert(config.token_output_path, second_token));
}

} // verus!
