//! Installer orchestration, as a sequential state machine: the pipeline moves
//! through resolve, select, download, extract and set-permissions, and every
//! failure is terminal. `step` computes the next state and the action the
//! operator side must perform; the surrounding process performs the actions
//! (network and filesystem work) and feeds the outcome back as the next
//! event. `step_model` is the machine's mathematical description, and the
//! trace lemmas state the machine-wide guarantees.
use vstd::prelude::*;

use crate::archive::{
    extraction_outcome, find_executable, plan_extraction, plan_view, spec_has_executable,
    EntryModel, PlannedEntry,
};
use crate::errors::{
    download_cause, extract_cause, resolve_cause, spec_download_cause, spec_extract_cause,
    spec_resolve_cause, DownloadError, InstallError, ResolveError, Stage,
};
use crate::metadata::{asset_urls, executable_name, spec_asset_urls, Root};
use crate::selector::{select, spec_selected, url_views, OsFamily, PlatformDescriptor};

verus! {

/// The state of an install run.
#[derive(Debug)]
pub enum InstallState {
    /// Nothing has happened yet.
    Idle,
    /// The platform check passed; release metadata is being fetched.
    AwaitingMetadata { platform: PlatformDescriptor },
    /// An asset URL was selected; its archive is being downloaded.
    AwaitingDownload { url: String },
    /// Extraction was planned; the entries are being written out.
    AwaitingWrite { has_executable: bool },
    /// The entries are on disk; the executable bit is being set.
    AwaitingPermissions,
    /// The run completed through the permissions step.
    Done,
    /// The run failed at `stage` with `cause`; terminal.
    Failed { stage: Stage, cause: InstallError },
}

/// The outcome of the operator-side work the previous action asked for.
#[derive(Debug)]
pub enum InstallEvent {
    /// Begin a run on the detected platform.
    Start { platform: PlatformDescriptor },
    /// The release-metadata request finished.
    MetadataFetched { result: Result<Root, ResolveError> },
    /// The archive download finished, on success with the archive's bytes.
    DownloadFinished { result: Result<Vec<u8>, DownloadError> },
    /// Writing the planned entries finished (`ok == false`: a write failed).
    EntriesWritten { ok: bool },
    /// Setting the executable permission finished.
    PermissionsSet { ok: bool },
}

/// What the operator side must do next.
#[derive(Debug)]
pub enum InstallAction {
    /// Fetch the release metadata from the fixed endpoint, with the
    /// identifying client marker.
    FetchMetadata,
    /// Download the archive at `url` into the scratch directory.
    Download { url: String },
    /// Write the planned entries under the destination directory.
    WriteEntries { plan: Vec<PlannedEntry> },
    /// Set the named file's permission bits to `mode` inside the destination.
    SetExecutable { file_name: String, mode: u32 },
    /// The run is over (`Done` or `Failed`); nothing more to do.
    Stop,
}

/// Model of `InstallState`.
#[verifier::ext_equal]
pub ghost enum StateModel {
    Idle,
    AwaitingMetadata { platform: PlatformDescriptor },
    AwaitingDownload { url: Seq<char> },
    AwaitingWrite { has_executable: bool },
    AwaitingPermissions,
    Done,
    Failed { stage: Stage, cause: InstallError },
}

/// Model of `InstallEvent`; metadata is modelled by the asset URLs it holds.
#[verifier::ext_equal]
pub ghost enum EventModel {
    Start { platform: PlatformDescriptor },
    MetadataFetched { result: Result<Seq<Seq<char>>, ResolveError> },
    DownloadFinished { result: Result<Seq<u8>, DownloadError> },
    EntriesWritten { ok: bool },
    PermissionsSet { ok: bool },
}

/// Model of `InstallAction`.
#[verifier::ext_equal]
pub ghost enum ActionModel {
    FetchMetadata,
    Download { url: Seq<char> },
    WriteEntries { plan: Seq<EntryModel> },
    SetExecutable { file_name: Seq<char>, mode: u32 },
    Stop,
}

impl View for InstallState {
    type V = StateModel;

    open spec fn view(&self) -> StateModel {
        match self {
            InstallState::Idle => StateModel::Idle,
            InstallState::AwaitingMetadata { platform } => StateModel::AwaitingMetadata {
                platform: *platform,
            },
            InstallState::AwaitingDownload { url } => StateModel::AwaitingDownload { url: url@ },
            InstallState::AwaitingWrite { has_executable } => StateModel::AwaitingWrite {
                has_executable: *has_executable,
            },
            InstallState::AwaitingPermissions => StateModel::AwaitingPermissions,
            InstallState::Done => StateModel::Done,
            InstallState::Failed { stage, cause } => StateModel::Failed {
                stage: *stage,
                cause: *cause,
            },
        }
    }
}

impl View for InstallEvent {
    type V = EventModel;

    open spec fn view(&self) -> EventModel {
        match self {
            InstallEvent::Start { platform } => EventModel::Start { platform: *platform },
            InstallEvent::MetadataFetched { result } => EventModel::MetadataFetched {
                result: match result {
                    Ok(root) => Ok(spec_asset_urls(root.assets@)),
                    Err(e) => Err(*e),
                },
            },
            InstallEvent::DownloadFinished { result } => EventModel::DownloadFinished {
                result: match result {
                    Ok(bytes) => Ok(bytes@),
                    Err(e) => Err(*e),
                },
            },
            InstallEvent::EntriesWritten { ok } => EventModel::EntriesWritten { ok: *ok },
            InstallEvent::PermissionsSet { ok } => EventModel::PermissionsSet { ok: *ok },
        }
    }
}

impl View for InstallAction {
    type V = ActionModel;

    open spec fn view(&self) -> ActionModel {
        match self {
            InstallAction::FetchMetadata => ActionModel::FetchMetadata,
            InstallAction::Download { url } => ActionModel::Download { url: url@ },
            InstallAction::WriteEntries { plan } => ActionModel::WriteEntries {
                plan: plan_view(plan@),
            },
            InstallAction::SetExecutable { file_name, mode } => ActionModel::SetExecutable {
                file_name: file_name@,
                mode: *mode,
            },
            InstallAction::Stop => ActionModel::Stop,
        }
    }
}

/// The machine's transition function: from the current state and the last
/// outcome to the next state and the next action. A mismatched event (one the
/// current state did not ask for) changes nothing and asks for nothing.
pub open spec fn step_model(s: StateModel, e: EventModel) -> (StateModel, ActionModel) {
    match (s, e) {
        (StateModel::Idle, EventModel::Start { platform }) => {
            if platform.os_family == OsFamily::Linux {
                (StateModel::AwaitingMetadata { platform }, ActionModel::FetchMetadata)
            } else {
                (
                    StateModel::Failed {
                        stage: Stage::PlatformCheck,
                        cause: InstallError::UnsupportedPlatform,
                    },
                    ActionModel::Stop,
                )
            }
        },
        (StateModel::AwaitingMetadata { platform }, EventModel::MetadataFetched { result }) => {
            match result {
                Ok(urls) => match spec_selected(urls, platform) {
                    Some(i) => (
                        StateModel::AwaitingDownload { url: urls[i] },
                        ActionModel::Download { url: urls[i] },
                    ),
                    None => (
                        (StateModel::Failed { stage: Stage::Select, cause: InstallError::NoMatch }),
                        ActionModel::Stop,
                    ),
                },
                Err(err) => (
                    (StateModel::Failed { stage: Stage::Resolve, cause: spec_resolve_cause(err) }),
                    ActionModel::Stop,
                ),
            }
        },
        (StateModel::AwaitingDownload { url }, EventModel::DownloadFinished { result }) => {
            match result {
                Ok(bytes) => match extraction_outcome(bytes) {
                    Ok(plan) => (
                        StateModel::AwaitingWrite {
                            has_executable: spec_has_executable(plan, "duckdb"@),
                        },
                        ActionModel::WriteEntries { plan },
                    ),
                    Err(err) => (
                        (StateModel::Failed {
                            stage: Stage::Extract,
                            cause: spec_extract_cause(err),
                        }),
                        ActionModel::Stop,
                    ),
                },
                Err(err) => (
                    (StateModel::Failed {
                        stage: Stage::Download,
                        cause: spec_download_cause(err),
                    }),
                    ActionModel::Stop,
                ),
            }
        },
        (StateModel::AwaitingWrite { has_executable }, EventModel::EntriesWritten { ok }) => {
            if !ok {
                (
                    (StateModel::Failed { stage: Stage::Extract, cause: InstallError::Io }),
                    ActionModel::Stop,
                )
            } else if has_executable {
                (
                    StateModel::AwaitingPermissions,
                    ActionModel::SetExecutable { file_name: "duckdb"@, mode: 0o755 },
                )
            } else {
                (
                    (StateModel::Failed {
                        stage: Stage::LocateExecutable,
                        cause: InstallError::ExecutableMissing,
                    }),
                    ActionModel::Stop,
                )
            }
        },
        (StateModel::AwaitingPermissions, EventModel::PermissionsSet { ok }) => {
            if ok {
                (StateModel::Done, ActionModel::Stop)
            } else {
                (
                    (StateModel::Failed { stage: Stage::SetPermissions, cause: InstallError::Io }),
                    ActionModel::Stop,
                )
            }
        },
        (other, _) => (other, ActionModel::Stop),
    }
}

/// Performs one transition of the install machine.
pub fn step(state: InstallState, event: InstallEvent) -> (r: (InstallState, InstallAction))
    ensures
        (r.0@, r.1@) == step_model(state@, event@),
{
    match (state, event) {
        (InstallState::Idle, InstallEvent::Start { platform }) => {
            match platform.os_family {
                OsFamily::Linux => (
                    InstallState::AwaitingMetadata { platform },
                    InstallAction::FetchMetadata,
                ),
                _ => (
                    (InstallState::Failed {
                        stage: Stage::PlatformCheck,
                        cause: InstallError::UnsupportedPlatform,
                    }),
                    InstallAction::Stop,
                ),
            }
        },
        (InstallState::AwaitingMetadata { platform }, InstallEvent::MetadataFetched { result }) => {
            match result {
                Ok(root) => {
                    let urls = asset_urls(&root);
                    proof {
                        assert(url_views(urls@) =~= spec_asset_urls(root.assets@));
                    }
                    match select(&urls, &platform) {
                        Ok(u) => {
                            let state_url = u.clone();
                            (
                                InstallState::AwaitingDownload { url: state_url },
                                InstallAction::Download { url: u },
                            )
                        },
                        Err(_) => (
                            (InstallState::Failed {
                                stage: Stage::Select,
                                cause: InstallError::NoMatch,
                            }),
                            InstallAction::Stop,
                        ),
                    }
                },
                Err(err) => (
                    (InstallState::Failed { stage: Stage::Resolve, cause: resolve_cause(err) }),
                    InstallAction::Stop,
                ),
            }
        },
        (InstallState::AwaitingDownload { url: _ }, InstallEvent::DownloadFinished { result }) => {
            match result {
                Ok(bytes) => match plan_extraction(&bytes) {
                    Ok(plan) => {
                        let has = find_executable(&plan, executable_name());
                        (
                            InstallState::AwaitingWrite { has_executable: has },
                            InstallAction::WriteEntries { plan },
                        )
                    },
                    Err(err) => (
                        (InstallState::Failed {
                            stage: Stage::Extract,
                            cause: extract_cause(err),
                        }),
                        InstallAction::Stop,
                    ),
                },
                Err(err) => (
                    (InstallState::Failed { stage: Stage::Download, cause: download_cause(err) }),
                    InstallAction::Stop,
                ),
            }
        },
        (InstallState::AwaitingWrite { has_executable }, InstallEvent::EntriesWritten { ok }) => {
            if !ok {
                (
                    (InstallState::Failed { stage: Stage::Extract, cause: InstallError::Io }),
                    InstallAction::Stop,
                )
            } else if has_executable {
                (
                    InstallState::AwaitingPermissions,
                    InstallAction::SetExecutable {
                        file_name: executable_name().to_owned(),
                        mode: 0o755,
                    },
                )
            } else {
                (
                    (InstallState::Failed {
                        stage: Stage::LocateExecutable,
                        cause: InstallError::ExecutableMissing,
                    }),
                    InstallAction::Stop,
                )
            }
        },
        (InstallState::AwaitingPermissions, InstallEvent::PermissionsSet { ok }) => {
            if ok {
                (InstallState::Done, InstallAction::Stop)
            } else {
                (
                    (InstallState::Failed {
                        stage: Stage::SetPermissions,
                        cause: InstallError::Io,
                    }),
                    InstallAction::Stop,
                )
            }
        },
        (other, _) => (other, InstallAction::Stop),
    }
}

/// The state a run reaches from `s` after the events of `events`, in order.
pub open spec fn run_model(s: StateModel, events: Seq<EventModel>) -> StateModel
    decreases events.len(),
{
    if events.len() == 0 {
        s
    } else {
        step_model(run_model(s, events.drop_last()), events.last()).0
    }
}

/// The actions a run from `s` issues, one per event, in order.
pub open spec fn actions_model(s: StateModel, events: Seq<EventModel>) -> Seq<ActionModel>
    decreases events.len(),
{
    if events.len() == 0 {
        Seq::empty()
    } else {
        actions_model(s, events.drop_last()).push(
            step_model(run_model(s, events.drop_last()), events.last()).1,
        )
    }
}

/// A run issues exactly one action per event.
pub proof fn lemma_actions_len(s: StateModel, events: Seq<EventModel>)
    ensures
        actions_model(s, events).len() == events.len(),
    decreases events.len(),
{
    if events.len() > 0 {
        lemma_actions_len(s, events.drop_last());
    }
}

/// A platform outside the supported family fails the platform check
/// immediately, with no action asked of the operator side.
pub proof fn lemma_platform_precondition(p: PlatformDescriptor)
    requires
        p.os_family != OsFamily::Linux,
    ensures
        step_model(StateModel::Idle, EventModel::Start { platform: p }) == (
            (StateModel::Failed {
                stage: Stage::PlatformCheck,
                cause: InstallError::UnsupportedPlatform,
            }),
            ActionModel::Stop,
        ),
{
}

/// A failed run is terminal: whatever events follow, the state keeps the
/// original stage and cause, and every further action is `Stop`.
pub proof fn lemma_failed_is_terminal(stage: Stage, cause: InstallError, events: Seq<EventModel>)
    ensures
        run_model(StateModel::Failed { stage, cause }, events) == (StateModel::Failed {
            stage,
            cause,
        }),
        forall|i: int|
            0 <= i < events.len() ==> actions_model(StateModel::Failed { stage, cause }, events)[i]
                == ActionModel::Stop,
    decreases events.len(),
{
    lemma_actions_len(StateModel::Failed { stage, cause }, events);
    if events.len() > 0 {
        lemma_failed_is_terminal(stage, cause, events.drop_last());
        lemma_actions_len(StateModel::Failed { stage, cause }, events.drop_last());
    }
}

/// Running a concatenation of event sequences runs them one after the other.
pub proof fn lemma_run_append(s: StateModel, evs1: Seq<EventModel>, evs2: Seq<EventModel>)
    ensures
        run_model(s, evs1 + evs2) == run_model(run_model(s, evs1), evs2),
    decreases evs2.len(),
{
    if evs2.len() == 0 {
        assert(evs1 + evs2 =~= evs1);
    } else {
        lemma_run_append(s, evs1, evs2.drop_last());
        assert((evs1 + evs2).drop_last() =~= evs1 + evs2.drop_last());
        assert((evs1 + evs2).last() == evs2.last());
    }
}

/// The actions of a concatenation are the actions of the parts.
pub proof fn lemma_actions_append(s: StateModel, evs1: Seq<EventModel>, evs2: Seq<EventModel>)
    ensures
        actions_model(s, evs1 + evs2) =~= actions_model(s, evs1) + actions_model(
            run_model(s, evs1),
            evs2,
        ),
    decreases evs2.len(),
{
    if evs2.len() == 0 {
        assert(evs1 + evs2 =~= evs1);
    } else {
        lemma_actions_append(s, evs1, evs2.drop_last());
        lemma_run_append(s, evs1, evs2.drop_last());
        assert((evs1 + evs2).drop_last() =~= evs1 + evs2.drop_last());
        assert((evs1 + evs2).last() == evs2.last());
    }
}

/// On a platform outside the supported family the whole run is inert: it
/// fails at the platform check and no action of the run — in particular no
/// metadata fetch and no download — is ever issued.
pub proof fn lemma_non_linux_run_is_inert(p: PlatformDescriptor, rest: Seq<EventModel>)
    requires
        p.os_family != OsFamily::Linux,
    ensures
        run_model(StateModel::Idle, seq![EventModel::Start { platform: p }] + rest) == (
            StateModel::Failed {
                stage: Stage::PlatformCheck,
                cause: InstallError::UnsupportedPlatform,
            }
        ),
        forall|i: int|
            0 <= i < (seq![EventModel::Start { platform: p }] + rest).len() ==> actions_model(
                StateModel::Idle,
                seq![EventModel::Start { platform: p }] + rest,
            )[i] == ActionModel::Stop,
{
    let start = seq![EventModel::Start { platform: p }];
    let failed = StateModel::Failed {
        stage: Stage::PlatformCheck,
        cause: InstallError::UnsupportedPlatform,
    };
    assert(start.drop_last() =~= Seq::<EventModel>::empty());
    assert(run_model(StateModel::Idle, Seq::<EventModel>::empty()) == StateModel::Idle);
    assert(actions_model(StateModel::Idle, Seq::<EventModel>::empty()) =~= Seq::<
        ActionModel,
    >::empty());
    assert(start.last() == EventModel::Start { platform: p });
    assert(run_model(StateModel::Idle, start) == failed);
    assert(actions_model(StateModel::Idle, start) =~= seq![ActionModel::Stop]);
    lemma_run_append(StateModel::Idle, start, rest);
    lemma_actions_append(StateModel::Idle, start, rest);
    lemma_failed_is_terminal(Stage::PlatformCheck, InstallError::UnsupportedPlatform, rest);
    lemma_actions_len(failed, rest);
    assert forall|i: int|
        0 <= i < (start + rest).len() implies actions_model(StateModel::Idle, start + rest)[i]
        == ActionModel::Stop by {
        if i >= 1 {
            let j: int = i - 1;
            assert(actions_model(StateModel::Idle, start + rest)[i] == actions_model(
                failed,
                rest,
            )[j]);
        }
    }
}

/// A run that reaches `Done` issued the set-executable action — with the
/// expected file name and mode bits equivalent to rwxr-xr-x — at some step,
/// and the operator side confirmed the permission change afterwards.
pub proof fn lemma_success_requires_permission_action(events: Seq<EventModel>)
    requires
        run_model(StateModel::Idle, events) == StateModel::Done,
    ensures
        exists|i: int, j: int|
            0 <= i < j < events.len() && actions_model(StateModel::Idle, events)[i] == (
            ActionModel::SetExecutable { file_name: "duckdb"@, mode: 0o755 }) && events[j] == (
            EventModel::PermissionsSet { ok: true }),
    decreases events.len(),
{
    lemma_actions_len(StateModel::Idle, events);
    let act = ActionModel::SetExecutable { file_name: "duckdb"@, mode: 0o755 };
    let prev = run_model(StateModel::Idle, events.drop_last());
    if prev == StateModel::Done {
        lemma_success_requires_permission_action(events.drop_last());
        lemma_actions_len(StateModel::Idle, events.drop_last());
        let (i, j): (int, int) = choose|i: int, j: int|
            0 <= i < j < events.drop_last().len() && actions_model(
                StateModel::Idle,
                events.drop_last(),
            )[i] == act && events.drop_last()[j] == (EventModel::PermissionsSet { ok: true });
        assert(actions_model(StateModel::Idle, events)[i] == act);
        assert(events[j] == EventModel::PermissionsSet { ok: true });
    } else {
        assert(prev == StateModel::AwaitingPermissions);
        assert(events.last() == EventModel::PermissionsSet { ok: true });
        lemma_reaching_install_needs_action(StateModel::Idle, events.drop_last());
        lemma_actions_len(StateModel::Idle, events.drop_last());
        let i = choose|i: int|
            0 <= i < events.drop_last().len() && actions_model(
                StateModel::Idle,
                events.drop_last(),
            )[i] == act;
        let j: int = events.len() - 1;
        assert(actions_model(StateModel::Idle, events)[i] == act);
        assert(events[j] == EventModel::PermissionsSet { ok: true });
    }
}

/// Reaching `Done` or `AwaitingPermissions` from any other starting state
/// takes the set-executable step at some point along the run.
proof fn lemma_reaching_install_needs_action(s: StateModel, events: Seq<EventModel>)
    requires
        run_model(s, events) == StateModel::Done || run_model(s, events)
            == StateModel::AwaitingPermissions,
        s != StateModel::Done,
        s != StateModel::AwaitingPermissions,
    ensures
        exists|i: int|
            0 <= i < events.len() && actions_model(s, events)[i] == (ActionModel::SetExecutable {
                file_name: "duckdb"@,
                mode: 0o755,
            }),
    decreases events.len(),
{
    lemma_actions_len(s, events);
    let prev = run_model(s, events.drop_last());
    let e = events.last();
    let act = ActionModel::SetExecutable { file_name: "duckdb"@, mode: 0o755 };
    if prev == StateModel::Done || prev == StateModel::AwaitingPermissions {
        lemma_reaching_install_needs_action(s, events.drop_last());
        lemma_actions_len(s, events.drop_last());
        let i = choose|i: int|
            0 <= i < events.drop_last().len() && actions_model(s, events.drop_last())[i] == act;
        assert(actions_model(s, events)[i] == act);
    } else {
        assert(step_model(prev, e).1 == act);
        assert(actions_model(s, events)[events.len() - 1] == act);
    }
}

} // verus!
