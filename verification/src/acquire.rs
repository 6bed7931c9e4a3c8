//! The acquisition orchestrator, written as a state machine. Every decision
//! the sequencing makes — which step comes next, which status the host is
//! told, how a step's failure aborts the attempt — is taken by `acquire_step`
//! and verified here; the surrounding program performs the requested action
//! (one network fetch, one directory check, one download, one subprocess run,
//! one directory listing, one environment read) and hands the outcome back as
//! the next event.

use vstd::prelude::*;
use vstd::string::StringExecFns;

use crate::cache::{
    download_url, install_dir_name, spec_binary_path, spec_download_url, spec_install_dir,
    spec_tools_dir, binary_path, tools_dir_name,
};
use crate::catalog::{index_url, latest_version, spec_index_url};
use crate::error::FsacError;
use crate::probe::{parse_runtime_version, spec_trim};
use crate::resolver::{
    detect_user_flags, merge_env, resolve, spec_detect_user_flags, spec_env_overrides,
    spec_first_dir, spec_has_compatible, spec_is_selected_major, spec_roll_forward,
    CompatibilityDecision,
};
use crate::scanner::{scan_variants, spec_scan_variants};
use crate::version::{parsed_semver, spec_version_string, SemVer};

verus! {

/// What a completed acquisition hands to the launcher: the resolved server
/// binary's path and the environment to start it in.
pub struct FsacAcquisition {
    pub fsac_path: String,
    pub env: Vec<(String, String)>,
}

/// The per-attempt inputs the orchestrator decides with: where the extension
/// lives on disk, and the caller's extra launch arguments.
pub struct AcquireConfig {
    pub extension_home: String,
    pub custom_args: Vec<String>,
}

/// The installation status reported to the host; a notification, not a gate.
pub enum HostStatus {
    CheckingForUpdate,
    Downloading,
    Idle,
    Failed(String),
}

/// How the catalog fetch went: a transport failure, a payload that was not
/// the expected versions document, or the decoded list of version strings.
pub enum FetchOutcome {
    Transport(String),
    BadPayload(String),
    Versions(Vec<String>),
}

/// How the download-and-unpack of a version archive went.
pub enum DownloadOutcome {
    Success,
    FetchFailed(String),
    ExtractFailed(String),
}

/// The outcome of the action the orchestrator asked for last.
pub enum AcquireEvent {
    Started,
    Fetched(FetchOutcome),
    Present(bool),
    Downloaded(DownloadOutcome),
    Probed { status: Option<i32>, stdout: String, stderr: String },
    Listed(Result<Vec<String>, String>),
    EnvRead(Vec<(String, String)>),
}

/// Where an acquisition attempt stands: which outcome it is waiting for, and
/// what it has established so far.
pub enum AcquireState {
    Ready,
    AwaitingIndex,
    AwaitingPresence { version: String },
    AwaitingDownload { version: String },
    AwaitingProbe { version: String },
    AwaitingListing { version: String, runtime: SemVer },
    AwaitingEnv { version: String, runtime: SemVer, decision: CompatibilityDecision },
    Finished,
}

/// What the orchestrator asks its caller to do next.
pub enum AcquireAction {
    FetchIndex { url: String },
    CheckPresent { dir: String },
    Download { url: String, dest: String },
    RunProbe { program: String, args: Vec<String> },
    ListDir { dir: String },
    ReadEnv,
    Finish(FsacAcquisition),
    Fail(FsacError),
}

/// One step's output: the next state, an optional status notification for the
/// host, and the action to perform.
pub struct StepResult {
    pub state: AcquireState,
    pub notify: Option<HostStatus>,
    pub action: AcquireAction,
}

/// The protocol between the orchestrator and its caller: each state waits for
/// the outcome of the action it asked for, and a finished attempt takes no
/// further event.
pub open spec fn spec_expects(state: AcquireState, event: AcquireEvent) -> bool {
    match state {
        AcquireState::Ready => event is Started,
        AcquireState::AwaitingIndex => event is Fetched,
        AcquireState::AwaitingPresence { .. } => event is Present,
        AcquireState::AwaitingDownload { .. } => event is Downloaded,
        AcquireState::AwaitingProbe { .. } => event is Probed,
        AcquireState::AwaitingListing { .. } => event is Listed,
        AcquireState::AwaitingEnv { .. } => event is EnvRead,
        AcquireState::Finished => false,
    }
}

/// A failing step ends the attempt and forwards the error's message to the
/// host as a failed status.
pub open spec fn spec_fail_notified(r: StepResult) -> bool {
    &&& r.state is Finished
    &&& (r.action matches AcquireAction::Fail(e) && (r.notify matches Some(
        HostStatus::Failed(m),
    ) && m@ == e.spec_message()))
}

/// The probe command: the fixed runtime executable and its version-query
/// flag.
pub open spec fn spec_probe_args() -> Seq<Seq<char>> {
    seq!["--version"@]
}

fn fail_step(e: FsacError) -> (r: StepResult)
    ensures
        spec_fail_notified(r),
        r.action matches AcquireAction::Fail(e2) && e2 == e,
{
    let msg = e.message();
    StepResult {
        state: AcquireState::Finished,
        notify: Some(HostStatus::Failed(msg)),
        action: AcquireAction::Fail(e),
    }
}

fn probe_action() -> (r: AcquireAction)
    ensures
        r matches AcquireAction::RunProbe { program, args } && program@ == "dotnet"@
            && args.deep_view() == spec_probe_args(),
{
    let mut args: Vec<String> = Vec::new();
    args.push(String::from_str("--version"));
    proof {
        assert(args.deep_view() =~= spec_probe_args());
    }
    AcquireAction::RunProbe { program: String::from_str("dotnet"), args }
}

/// Takes one step of an acquisition attempt. The contract pins every
/// transition: which action follows each outcome, which status the host is
/// told, and that any step's failure aborts the attempt with the right error
/// — a listing failure, in particular, is an I/O error, never mistaken for
/// "no compatible variant".
pub fn acquire_step(config: &AcquireConfig, state: AcquireState, event: AcquireEvent) -> (r:
    StepResult)
    requires
        spec_expects(state, event),
    ensures
        match state {
            AcquireState::Ready => {
                &&& r.state is AwaitingIndex
                &&& r.notify == Some(HostStatus::CheckingForUpdate)
                &&& (r.action matches AcquireAction::FetchIndex { url } && url@ == spec_index_url())
            },
            AcquireState::AwaitingIndex => match event {
                AcquireEvent::Fetched(o) => match o {
                    FetchOutcome::Transport(d) => spec_fail_notified(r) && (
                    r.action matches AcquireAction::Fail(e)
                        && (e matches FsacError::Network(m) && m@ == d@)),
                    FetchOutcome::BadPayload(d) => spec_fail_notified(r) && (
                    r.action matches AcquireAction::Fail(e)
                        && (e matches FsacError::Parse(m) && m@ == d@)),
                    FetchOutcome::Versions(vs) => if vs@.len() == 0 {
                        spec_fail_notified(r) && (r.action matches AcquireAction::Fail(e)
                            && e is NotFound)
                    } else {
                        &&& r.notify is None
                        &&& (r.state matches AcquireState::AwaitingPresence { version }
                            && version@ == vs@.last()@)
                        &&& (r.action matches AcquireAction::CheckPresent { dir } && dir@
                            == spec_install_dir(vs@.last()@))
                    },
                },
                _ => true,
            },
            AcquireState::AwaitingPresence { version } => match event {
                AcquireEvent::Present(found) => if found {
                    &&& r.notify == Some(HostStatus::Idle)
                    &&& (r.state matches AcquireState::AwaitingProbe { version: v2 } && v2@
                        == version@)
                    &&& (r.action matches AcquireAction::RunProbe { program, args } && program@
                        == "dotnet"@ && args.deep_view() == spec_probe_args())
                } else {
                    &&& r.notify == Some(HostStatus::Downloading)
                    &&& (r.state matches AcquireState::AwaitingDownload { version: v2 } && v2@
                        == version@)
                    &&& (r.action matches AcquireAction::Download { url, dest } && url@
                        == spec_download_url(version@) && dest@ == spec_install_dir(version@))
                },
                _ => true,
            },
            AcquireState::AwaitingDownload { version } => match event {
                AcquireEvent::Downloaded(o) => match o {
                    DownloadOutcome::Success => {
                        &&& r.notify == Some(HostStatus::Idle)
                        &&& (r.state matches AcquireState::AwaitingProbe { version: v2 } && v2@
                            == version@)
                        &&& (r.action matches AcquireAction::RunProbe { program, args }
                            && program@ == "dotnet"@ && args.deep_view() == spec_probe_args())
                    },
                    DownloadOutcome::FetchFailed(d) => spec_fail_notified(r) && (
                    r.action matches AcquireAction::Fail(e)
                        && (e matches FsacError::Download(m) && m@ == d@)),
                    DownloadOutcome::ExtractFailed(d) => spec_fail_notified(r) && (
                    r.action matches AcquireAction::Fail(e)
                        && (e matches FsacError::Extract(m) && m@ == d@)),
                },
                _ => true,
            },
            AcquireState::AwaitingProbe { version } => match event {
                AcquireEvent::Probed { status, stdout, stderr } => if status == Some(0i32) {
                    match parsed_semver(spec_trim(stdout@)) {
                        Some(t) => {
                            &&& r.notify is None
                            &&& (r.state matches AcquireState::AwaitingListing {
                                version: v2,
                                runtime,
                            } && v2@ == version@ && runtime.major == t.0 && runtime.minor == t.1
                                && runtime.patch == t.2 && runtime.pre@ == t.3)
                            &&& (r.action matches AcquireAction::ListDir { dir } && dir@
                                == spec_tools_dir(version@))
                        },
                        None => spec_fail_notified(r) && (
                        r.action matches AcquireAction::Fail(e)
                            && (e matches FsacError::Parse(m) && m@ == spec_trim(stdout@))),
                    }
                } else {
                    spec_fail_notified(r) && (r.action matches AcquireAction::Fail(e)
                        && (e matches FsacError::Execution(m) && m@ == stderr@))
                },
                _ => true,
            },
            AcquireState::AwaitingListing { version, runtime } => match event {
                AcquireEvent::Listed(res) => match res {
                    Result::Err(d) => spec_fail_notified(r) && (
                    r.action matches AcquireAction::Fail(e)
                        && (e matches FsacError::Io(m) && m@ == d@)),
                    Result::Ok(names) => {
                        let vs = spec_scan_variants(names.deep_view());
                        let flags = spec_detect_user_flags(config.custom_args.deep_view());
                        if spec_has_compatible(vs, runtime.major as int) {
                            &&& r.notify is None
                            &&& r.action is ReadEnv
                            &&& (r.state matches AcquireState::AwaitingEnv {
                                version: v2,
                                runtime: rt2,
                                decision: d,
                            } && v2@ == version@ && rt2 == runtime && spec_is_selected_major(
                                vs,
                                runtime.major as int,
                                d.variant as int,
                            ) && Some(d.variant_dir@) == spec_first_dir(vs, d.variant as int)
                                && d.roll_forward == spec_roll_forward(
                                flags,
                                d.variant as int,
                                runtime.major as int,
                            ) && d.prerelease == runtime.spec_has_prerelease())
                        } else {
                            spec_fail_notified(r) && (r.action matches AcquireAction::Fail(e) && (
                            e matches FsacError::NoCompatibleVariant(m) && m@
                                == spec_version_string(runtime)))
                        }
                    },
                },
                _ => true,
            },
            AcquireState::AwaitingEnv { version, runtime, decision } => match event {
                AcquireEvent::EnvRead(base) => {
                    &&& r.notify is None
                    &&& r.state is Finished
                    &&& (r.action matches AcquireAction::Finish(a) && a.fsac_path@
                        == spec_binary_path(
                        config.extension_home@,
                        version@,
                        decision.variant_dir@,
                    ) && a.env.deep_view() == base.deep_view() + spec_env_overrides(decision))
                },
                _ => true,
            },
            AcquireState::Finished => true,
        },
{
    match (state, event) {
        (AcquireState::Ready, AcquireEvent::Started) => StepResult {
            state: AcquireState::AwaitingIndex,
            notify: Some(HostStatus::CheckingForUpdate),
            action: AcquireAction::FetchIndex { url: index_url() },
        },
        (AcquireState::AwaitingIndex, AcquireEvent::Fetched(o)) => match o {
            FetchOutcome::Transport(d) => fail_step(FsacError::Network(d)),
            FetchOutcome::BadPayload(d) => fail_step(FsacError::Parse(d)),
            FetchOutcome::Versions(vs) => match latest_version(&vs) {
                Err(e) => fail_step(e),
                Ok(v) => {
                    let dir = install_dir_name(v.as_str());
                    StepResult {
                        state: AcquireState::AwaitingPresence { version: v },
                        notify: None,
                        action: AcquireAction::CheckPresent { dir },
                    }
                },
            },
        },
        (AcquireState::AwaitingPresence { version }, AcquireEvent::Present(found)) => {
            if found {
                StepResult {
                    state: AcquireState::AwaitingProbe { version },
                    notify: Some(HostStatus::Idle),
                    action: probe_action(),
                }
            } else {
                let url = download_url(version.as_str());
                let dest = install_dir_name(version.as_str());
                StepResult {
                    state: AcquireState::AwaitingDownload { version },
                    notify: Some(HostStatus::Downloading),
                    action: AcquireAction::Download { url, dest },
                }
            }
        },
        (AcquireState::AwaitingDownload { version }, AcquireEvent::Downloaded(o)) => match o {
            DownloadOutcome::Success => StepResult {
                state: AcquireState::AwaitingProbe { version },
                notify: Some(HostStatus::Idle),
                action: probe_action(),
            },
            DownloadOutcome::FetchFailed(d) => fail_step(FsacError::Download(d)),
            DownloadOutcome::ExtractFailed(d) => fail_step(FsacError::Extract(d)),
        },
        (
            AcquireState::AwaitingProbe { version },
            AcquireEvent::Probed { status, stdout, stderr },
        ) => match parse_runtime_version(status, stdout.as_str(), stderr.as_str()) {
            Ok(v) => {
                let dir = tools_dir_name(version.as_str());
                StepResult {
                    state: AcquireState::AwaitingListing { version, runtime: v },
                    notify: None,
                    action: AcquireAction::ListDir { dir },
                }
            },
            Err(e) => fail_step(e),
        },
        (AcquireState::AwaitingListing { version, runtime }, AcquireEvent::Listed(res)) => {
            match res {
                Err(d) => fail_step(FsacError::Io(d)),
                Ok(names) => {
                    let variants = scan_variants(&names);
                    let flags = detect_user_flags(&config.custom_args);
                    match resolve(&runtime, &variants, flags) {
                        Err(e) => fail_step(e),
                        Ok(d) => StepResult {
                            state: AcquireState::AwaitingEnv { version, runtime, decision: d },
                            notify: None,
                            action: AcquireAction::ReadEnv,
                        },
                    }
                },
            }
        },
        (
            AcquireState::AwaitingEnv { version, runtime: _, decision },
            AcquireEvent::EnvRead(base),
        ) => {
            let path = binary_path(
                config.extension_home.as_str(),
                version.as_str(),
                decision.variant_dir.as_str(),
            );
            let env = merge_env(base, &decision);
            StepResult {
                state: AcquireState::Finished,
                notify: None,
                action: AcquireAction::Finish(FsacAcquisition { fsac_path: path, env }),
            }
        },
        _ => unreached(),
    }
}

/// Assembles the launcher's argument list: the server binary's path, the
/// caller's extra arguments, then the fixed adaptive-server flag.
pub fn get_final_args(fsac_path: String, custom_args: &Vec<String>) -> (r: Vec<String>)
    ensures
        r.deep_view() == seq![fsac_path@] + custom_args.deep_view() + seq![
            "--adaptive-lsp-server-enabled"@,
        ],
{
    let ghost path_view = fsac_path@;
    let mut final_args: Vec<String> = Vec::new();
    final_args.push(fsac_path);
    let mut i: usize = 0;
    while i < custom_args.len()
        invariant
            0 <= i <= custom_args@.len(),
            final_args@.len() == i + 1,
            final_args@[0]@ == path_view,
            forall|j: int| 0 <= j < i ==> #[trigger] final_args@[j + 1]@ == custom_args@[j]@,
        decreases custom_args@.len() - i,
    {
        final_args.push(custom_args[i].clone());
        i = i + 1;
    }
    final_args.push(String::from_str("--adaptive-lsp-server-enabled"));
    proof {
        let target = seq![path_view] + custom_args.deep_view() + seq![
            "--adaptive-lsp-server-enabled"@,
        ];
        assert(final_args.deep_view().len() == target.len());
        assert forall|j: int| 0 <= j < target.len() implies final_args.deep_view()[j]
            == target[j] by {
            assert(final_args.deep_view()[j] == final_args@[j]@);
            if 1 <= j < target.len() - 1 {
                assert(final_args@[(j - 1) + 1]@ == custom_args@[j - 1]@);
                assert(custom_args.deep_view()[j - 1] == custom_args@[j - 1]@);
            }
        }
        assert(final_args.deep_view() =~= target);
    }
    final_args
}

} // verus!
