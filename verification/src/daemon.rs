//! The managed daemon: its runtime artifacts, its lifecycle state, the
//! status it reports, and the agent sessions it keeps.

use vstd::prelude::*;

use crate::context::{join_path, joined, RuntimeLocations};
use crate::output::{is_error, AcpAgentCliOutput, ContextEntry, Format, StructuredError};
use crate::sessions::{AgentSessionInfo, CloseOutcome};
use crate::text::{append, digits_u64, nat_digits, owned, push_str, str_eq, trim, trim_seq, views};

verus! {

broadcast use vstd::string::group_string_axioms;

/// The error for a command that must run locally but was routed to the
/// daemon.
pub open spec fn routing_error(e: StructuredError, format: Format, command: Seq<char>) -> bool {
    is_error(
        e,
        "daemon.local_only_command"@,
        "the command '"@ + command + "' must run locally; daemon routing is unavailable"@,
        "daemon_routing"@,
        format,
        seq![("recommended_next_action"@, "retry without --via daemon"@)],
    )
}

/// The structured error for a local-only command routed to the daemon.
pub fn daemon_routing_error(format: Format, command: &str) -> (e: StructuredError)
    ensures
        routing_error(e, format, command@),
{
    let mut message = owned("the command '");
    append(&mut message, command);
    append(&mut message, "' must run locally; daemon routing is unavailable");
    let e = StructuredError::new("daemon.local_only_command", message, "daemon_routing", format);
    let e = e.with_detail("recommended_next_action", "retry without --via daemon");
    assert(Seq::<(Seq<char>, Seq<char>)>::empty().push(("recommended_next_action"@, "retry without --via daemon"@)) =~= seq![("recommended_next_action"@, "retry without --via daemon"@)]);
    e
}


// ---------------------------------------------------------------------------
// Runtime artifacts
// ---------------------------------------------------------------------------

/// The lifecycle state that the daemon records.
#[derive(PartialEq, Eq, Structural, Clone, Copy, Debug)]
pub enum DaemonLifecycleState {
    Stopped,
    Starting,
    Running,
    Degraded,
    Stopping,
    Failed,
}

/// The name under which a lifecycle state is reported.
pub open spec fn state_name(s: DaemonLifecycleState) -> Seq<char> {
    match s {
        DaemonLifecycleState::Stopped => "stopped"@,
        DaemonLifecycleState::Starting => "starting"@,
        DaemonLifecycleState::Running => "running"@,
        DaemonLifecycleState::Degraded => "degraded"@,
        DaemonLifecycleState::Stopping => "stopping"@,
        DaemonLifecycleState::Failed => "failed"@,
    }
}

/// The name under which a lifecycle state is reported.
pub fn lifecycle_state_name(s: DaemonLifecycleState) -> (r: String)
    ensures
        r@ == state_name(s),
{
    match s {
        DaemonLifecycleState::Stopped => owned("stopped"),
        DaemonLifecycleState::Starting => owned("starting"),
        DaemonLifecycleState::Running => owned("running"),
        DaemonLifecycleState::Degraded => owned("degraded"),
        DaemonLifecycleState::Stopping => owned("stopping"),
        DaemonLifecycleState::Failed => owned("failed"),
    }
}

/// Whether a recorded state says that a daemon process should be alive:
/// starting, running, degraded or stopping.
pub open spec fn is_active(s: DaemonLifecycleState) -> bool {
    s == DaemonLifecycleState::Running || s == DaemonLifecycleState::Starting
        || s == DaemonLifecycleState::Stopping || s == DaemonLifecycleState::Degraded
}

/// Whether a recorded state says that a daemon process should be alive.
pub fn is_active_state(s: DaemonLifecycleState) -> (r: bool)
    ensures
        r == is_active(s),
{
    match s {
        DaemonLifecycleState::Running
        | DaemonLifecycleState::Starting
        | DaemonLifecycleState::Stopping
        | DaemonLifecycleState::Degraded => true,
        _ => false,
    }
}

/// The paths of the daemon's runtime artifacts.
pub struct DaemonFiles {
    pub directory: String,
    pub pid_file: String,
    pub socket_path: String,
    pub socket_metadata_file: String,
    pub state_file: String,
    pub log_file: String,
    pub lock_file: String,
    pub auth_token_file: String,
}

/// The daemon directory: `<state_dir>/daemon`.
pub open spec fn daemon_dir(state_dir: Seq<char>) -> Seq<char> {
    joined(state_dir, "daemon"@)
}

/// The path of one artifact inside the daemon directory.
pub open spec fn artifact(state_dir: Seq<char>, name: Seq<char>) -> Seq<char> {
    joined(daemon_dir(state_dir), name)
}

/// The paths of the daemon's runtime artifacts under `<state_dir>/daemon`.
pub fn daemon_files(runtime: &RuntimeLocations) -> (r: DaemonFiles)
    ensures
        r.directory@ == daemon_dir(runtime.state_dir@),
        r.pid_file@ == artifact(runtime.state_dir@, "daemon.pid"@),
        r.socket_path@ == artifact(runtime.state_dir@, "daemon.sock"@),
        r.socket_metadata_file@ == artifact(runtime.state_dir@, "daemon.sock_or_pipe_metadata"@),
        r.state_file@ == artifact(runtime.state_dir@, "daemon-state.json"@),
        r.log_file@ == artifact(runtime.state_dir@, "daemon.log"@),
        r.lock_file@ == artifact(runtime.state_dir@, "daemon.lock"@),
        r.auth_token_file@ == artifact(runtime.state_dir@, "auth.token_when_tcp_enabled"@),
{
    let directory = join_path(runtime.state_dir.as_str(), "daemon");
    let socket_path = join_path(directory.as_str(), "daemon.sock");
    DaemonFiles {
        pid_file: join_path(directory.as_str(), "daemon.pid"),
        socket_metadata_file: join_path(directory.as_str(), "daemon.sock_or_pipe_metadata"),
        state_file: join_path(directory.as_str(), "daemon-state.json"),
        log_file: join_path(directory.as_str(), "daemon.log"),
        lock_file: join_path(directory.as_str(), "daemon.lock"),
        auth_token_file: join_path(directory.as_str(), "auth.token_when_tcp_enabled"),
        directory,
        socket_path,
    }
}

/// The runtime artifacts as reported in a daemon status.
pub struct DaemonRuntimeArtifacts {
    pub directory: String,
    pub pid_file: String,
    pub socket_metadata_file: String,
    pub state_file: String,
    pub log_file: String,
    pub lock_file: String,
    pub auth_token_file: String,
}

/// The text of the reported runtime artifacts.
pub struct ArtifactsView {
    pub directory: Seq<char>,
    pub pid_file: Seq<char>,
    pub socket_metadata_file: Seq<char>,
    pub state_file: Seq<char>,
    pub log_file: Seq<char>,
    pub lock_file: Seq<char>,
    pub auth_token_file: Seq<char>,
}

impl View for DaemonRuntimeArtifacts {
    type V = ArtifactsView;

    open spec fn view(&self) -> ArtifactsView {
        ArtifactsView {
            directory: self.directory@,
            pid_file: self.pid_file@,
            socket_metadata_file: self.socket_metadata_file@,
            state_file: self.state_file@,
            log_file: self.log_file@,
            lock_file: self.lock_file@,
            auth_token_file: self.auth_token_file@,
        }
    }
}

/// The runtime artifacts of a daemon whose state directory is `state_dir`.
pub open spec fn artifacts_of(state_dir: Seq<char>) -> ArtifactsView {
    ArtifactsView {
        directory: daemon_dir(state_dir),
        pid_file: artifact(state_dir, "daemon.pid"@),
        socket_metadata_file: artifact(state_dir, "daemon.sock_or_pipe_metadata"@),
        state_file: artifact(state_dir, "daemon-state.json"@),
        log_file: artifact(state_dir, "daemon.log"@),
        lock_file: artifact(state_dir, "daemon.lock"@),
        auth_token_file: artifact(state_dir, "auth.token_when_tcp_enabled"@),
    }
}

/// The runtime artifacts reported in a daemon status.
pub fn daemon_runtime_artifacts(runtime: &RuntimeLocations) -> (r: DaemonRuntimeArtifacts)
    ensures
        r@ == artifacts_of(runtime.state_dir@),
{
    let files = daemon_files(runtime);
    DaemonRuntimeArtifacts {
        directory: files.directory,
        pid_file: files.pid_file,
        socket_metadata_file: files.socket_metadata_file,
        state_file: files.state_file,
        log_file: files.log_file,
        lock_file: files.lock_file,
        auth_token_file: files.auth_token_file,
    }
}

/// What the daemon offers, as shown in the CLI's description of itself.
pub struct DaemonInfo {
    pub enabled: bool,
    pub mode: String,
    pub instance_model: String,
    pub lifecycle: Vec<String>,
    pub routing_flags: Vec<String>,
    pub local_only_commands: Vec<String>,
    pub transports: Vec<String>,
    pub auth: Vec<String>,
    pub runtime_artifacts: Vec<String>,
}

/// The commands that never run through the daemon.
pub open spec fn daemon_local_only_commands() -> Seq<Seq<char>> {
    seq![
        "help"@,
        "paths"@,
        "context show"@,
        "context use"@,
        "agent status"@,
        "agent candidates"@,
        "agent select"@,
        "agent set-executable"@,
        "agent set-args"@,
        "workspace browse"@,
        "workspace mkdir"@,
        "session use"@,
        "repl"@,
        "daemon"@,
    ]
}

/// The description of the daemon for a runtime.
pub open spec fn is_daemon_info(r: DaemonInfo, state_dir: Seq<char>) -> bool {
    &&& r.enabled
    &&& r.mode@ == "app_server"@
    &&& r.instance_model@ == "single"@
    &&& views(r.lifecycle@) == seq![
        "daemon run"@,
        "daemon start"@,
        "daemon stop"@,
        "daemon restart"@,
        "daemon status"@,
    ]
    &&& views(r.routing_flags@) == seq!["--via"@, "--ensure-daemon"@]
    &&& views(r.local_only_commands@) == daemon_local_only_commands()
    &&& views(r.transports@) == seq!["unix_socket_or_named_pipe"@, "opt_in_loopback_tcp"@]
    &&& views(r.auth@) == seq!["os_permissions"@, "required_when_tcp_enabled"@]
    &&& views(r.runtime_artifacts@) == seq![
        artifact(state_dir, "daemon.pid"@),
        artifact(state_dir, "daemon.sock_or_pipe_metadata"@),
        artifact(state_dir, "daemon-state.json"@),
        artifact(state_dir, "daemon.log"@),
        artifact(state_dir, "daemon.lock"@),
        artifact(state_dir, "auth.token_when_tcp_enabled"@),
    ]
}

/// What the daemon offers: its mode, lifecycle commands, routing flags,
/// local-only commands, transports, authentication and artifacts.
pub fn daemon_info(runtime: &RuntimeLocations) -> (r: DaemonInfo)
    ensures
        is_daemon_info(r, runtime.state_dir@),
{
    let files = daemon_files(runtime);
    let mut lifecycle: Vec<String> = Vec::new();
    push_str(&mut lifecycle, "daemon run");
    push_str(&mut lifecycle, "daemon start");
    push_str(&mut lifecycle, "daemon stop");
    push_str(&mut lifecycle, "daemon restart");
    push_str(&mut lifecycle, "daemon status");
    let mut routing_flags: Vec<String> = Vec::new();
    push_str(&mut routing_flags, "--via");
    push_str(&mut routing_flags, "--ensure-daemon");
    let mut local: Vec<String> = Vec::new();
    push_str(&mut local, "help");
    push_str(&mut local, "paths");
    push_str(&mut local, "context show");
    push_str(&mut local, "context use");
    push_str(&mut local, "agent status");
    push_str(&mut local, "agent candidates");
    push_str(&mut local, "agent select");
    push_str(&mut local, "agent set-executable");
    push_str(&mut local, "agent set-args");
    push_str(&mut local, "workspace browse");
    push_str(&mut local, "workspace mkdir");
    push_str(&mut local, "session use");
    push_str(&mut local, "repl");
    push_str(&mut local, "daemon");
    let mut transports: Vec<String> = Vec::new();
    push_str(&mut transports, "unix_socket_or_named_pipe");
    push_str(&mut transports, "opt_in_loopback_tcp");
    let mut auth: Vec<String> = Vec::new();
    push_str(&mut auth, "os_permissions");
    push_str(&mut auth, "required_when_tcp_enabled");
    let mut artifacts: Vec<String> = Vec::new();
    push_str(&mut artifacts, files.pid_file.as_str());
    push_str(&mut artifacts, files.socket_metadata_file.as_str());
    push_str(&mut artifacts, files.state_file.as_str());
    push_str(&mut artifacts, files.log_file.as_str());
    push_str(&mut artifacts, files.lock_file.as_str());
    push_str(&mut artifacts, files.auth_token_file.as_str());
    assert(views(lifecycle@) =~= seq![
        "daemon run"@,
        "daemon start"@,
        "daemon stop"@,
        "daemon restart"@,
        "daemon status"@,
    ]);
    assert(views(routing_flags@) =~= seq!["--via"@, "--ensure-daemon"@]);
    assert(views(local@) =~= daemon_local_only_commands());
    assert(views(transports@) =~= seq!["unix_socket_or_named_pipe"@, "opt_in_loopback_tcp"@]);
    assert(views(auth@) =~= seq!["os_permissions"@, "required_when_tcp_enabled"@]);
    assert(views(artifacts@) =~= seq![
        artifact(runtime.state_dir@, "daemon.pid"@),
        artifact(runtime.state_dir@, "daemon.sock_or_pipe_metadata"@),
        artifact(runtime.state_dir@, "daemon-state.json"@),
        artifact(runtime.state_dir@, "daemon.log"@),
        artifact(runtime.state_dir@, "daemon.lock"@),
        artifact(runtime.state_dir@, "auth.token_when_tcp_enabled"@),
    ]);
    DaemonInfo {
        enabled: true,
        mode: owned("app_server"),
        instance_model: owned("single"),
        lifecycle,
        routing_flags,
        local_only_commands: local,
        transports,
        auth,
        runtime_artifacts: artifacts,
    }
}

// ---------------------------------------------------------------------------
// Recorded state and reported status
// ---------------------------------------------------------------------------

/// The state that the daemon records in `daemon-state.json`.
#[derive(Clone)]
pub struct DaemonStateFile {
    pub state: DaemonLifecycleState,
    pub readiness: String,
    pub instance_id: String,
    pub pid: Option<u32>,
    pub transport: String,
    pub endpoint: String,
    pub started_at_epoch_sec: u64,
    pub active_requests: u64,
    pub queue_depth: u64,
    pub last_error: String,
    pub recommended_next_action: String,
}

/// The content of a recorded state.
pub struct StateFileView {
    pub state: DaemonLifecycleState,
    pub readiness: Seq<char>,
    pub instance_id: Seq<char>,
    pub pid: Option<u32>,
    pub transport: Seq<char>,
    pub endpoint: Seq<char>,
    pub started_at_epoch_sec: u64,
    pub active_requests: u64,
    pub queue_depth: u64,
    pub last_error: Seq<char>,
    pub recommended_next_action: Seq<char>,
}

impl View for DaemonStateFile {
    type V = StateFileView;

    open spec fn view(&self) -> StateFileView {
        StateFileView {
            state: self.state,
            readiness: self.readiness@,
            instance_id: self.instance_id@,
            pid: self.pid,
            transport: self.transport@,
            endpoint: self.endpoint@,
            started_at_epoch_sec: self.started_at_epoch_sec,
            active_requests: self.active_requests,
            queue_depth: self.queue_depth,
            last_error: self.last_error@,
            recommended_next_action: self.recommended_next_action@,
        }
    }
}

/// The transport the daemon uses: local sockets on Unix, loopback TCP
/// elsewhere.
pub open spec fn transport_label(unix: bool) -> Seq<char> {
    if unix {
        "unix_socket_or_named_pipe"@
    } else {
        "loopback_tcp"@
    }
}

/// The endpoint a daemon listens on before it reports its own: the socket
/// path on Unix, `127.0.0.1:0` elsewhere.
pub open spec fn default_endpoint(state_dir: Seq<char>, unix: bool) -> Seq<char> {
    if unix {
        artifact(state_dir, "daemon.sock"@)
    } else {
        "127.0.0.1:0"@
    }
}

/// The state of a daemon that is not running.
pub open spec fn stopped_view(state_dir: Seq<char>, unix: bool, now: u64) -> StateFileView {
    StateFileView {
        state: DaemonLifecycleState::Stopped,
        readiness: "not_running"@,
        instance_id: "default"@,
        pid: None,
        transport: transport_label(unix),
        endpoint: default_endpoint(state_dir, unix),
        started_at_epoch_sec: now,
        active_requests: 0,
        queue_depth: 0,
        last_error: Seq::empty(),
        recommended_next_action: "daemon start"@,
    }
}

/// The state recorded when no state file exists, or after the daemon
/// stopped: stopped, not running, to be started with `daemon start`.
pub fn default_state(runtime: &RuntimeLocations, unix: bool, now: u64) -> (r: DaemonStateFile)
    ensures
        r@ == stopped_view(runtime.state_dir@, unix, now),
{
    let endpoint = if unix {
        daemon_files(runtime).socket_path
    } else {
        owned("127.0.0.1:0")
    };
    DaemonStateFile {
        state: DaemonLifecycleState::Stopped,
        readiness: owned("not_running"),
        instance_id: owned("default"),
        pid: None,
        transport: if unix {
            owned("unix_socket_or_named_pipe")
        } else {
            owned("loopback_tcp")
        },
        endpoint,
        started_at_epoch_sec: now,
        active_requests: 0,
        queue_depth: 0,
        last_error: String::new(),
        recommended_next_action: owned("daemon start"),
    }
}

/// The state recorded while `daemon start` brings a daemon up.
pub open spec fn starting_view(state_dir: Seq<char>, unix: bool, now: u64) -> StateFileView {
    StateFileView {
        state: DaemonLifecycleState::Starting,
        readiness: "starting"@,
        recommended_next_action: "daemon status"@,
        ..stopped_view(state_dir, unix, now)
    }
}

/// The state recorded while `daemon start` brings a daemon up.
pub fn starting_state(runtime: &RuntimeLocations, unix: bool, now: u64) -> (r: DaemonStateFile)
    ensures
        r@ == starting_view(runtime.state_dir@, unix, now),
{
    let mut s = default_state(runtime, unix, now);
    s.state = DaemonLifecycleState::Starting;
    s.readiness = owned("starting");
    s.started_at_epoch_sec = now;
    s.recommended_next_action = owned("daemon status");
    s
}

/// The state recorded when starting a daemon failed with `message`.
pub open spec fn failed_view(
    state_dir: Seq<char>,
    unix: bool,
    now: u64,
    message: Seq<char>,
    pid: Option<u32>,
) -> StateFileView {
    StateFileView {
        state: DaemonLifecycleState::Failed,
        readiness: "failed"@,
        pid: pid,
        last_error: message,
        recommended_next_action: "daemon start"@,
        ..stopped_view(state_dir, unix, now)
    }
}

/// The state recorded when starting a daemon failed with `message`.
pub fn failed_state(
    runtime: &RuntimeLocations,
    unix: bool,
    now: u64,
    message: String,
    pid: Option<u32>,
) -> (r: DaemonStateFile)
    ensures
        r@ == failed_view(runtime.state_dir@, unix, now, message@, pid),
{
    let mut s = default_state(runtime, unix, now);
    s.state = DaemonLifecycleState::Failed;
    s.readiness = owned("failed");
    s.pid = pid;
    s.last_error = message;
    s.recommended_next_action = owned("daemon start");
    s
}

/// The state a daemon records when it starts serving on `endpoint`.
pub open spec fn running_view(endpoint: Seq<char>, transport: Seq<char>, pid: u32, now: u64) -> StateFileView {
    StateFileView {
        state: DaemonLifecycleState::Running,
        readiness: "ready"@,
        instance_id: "default"@,
        pid: Some(pid),
        transport: transport,
        endpoint: endpoint,
        started_at_epoch_sec: now,
        active_requests: 0,
        queue_depth: 0,
        last_error: Seq::empty(),
        recommended_next_action: "daemon status"@,
    }
}

/// The state a daemon process `pid` records when it starts serving on
/// `endpoint`.
pub fn running_state(endpoint: String, transport: &str, pid: u32, now: u64) -> (r: DaemonStateFile)
    ensures
        r@ == running_view(endpoint@, transport@, pid, now),
{
    DaemonStateFile {
        state: DaemonLifecycleState::Running,
        readiness: owned("ready"),
        instance_id: owned("default"),
        pid: Some(pid),
        transport: owned(transport),
        endpoint,
        started_at_epoch_sec: now,
        active_requests: 0,
        queue_depth: 0,
        last_error: String::new(),
        recommended_next_action: owned("daemon status"),
    }
}

/// The state a serving daemon records when it accepts a shutdown request.
pub fn stopping_state(s: DaemonStateFile) -> (r: DaemonStateFile)
    ensures
        r@ == (StateFileView {
            state: DaemonLifecycleState::Stopping,
            readiness: "stopping"@,
            recommended_next_action: "daemon start"@,
            ..s@
        }),
{
    DaemonStateFile {
        state: DaemonLifecycleState::Stopping,
        readiness: owned("stopping"),
        recommended_next_action: owned("daemon start"),
        ..s
    }
}

/// The state a daemon records when it has stopped serving.
pub fn stopped_server_state(s: DaemonStateFile) -> (r: DaemonStateFile)
    ensures
        r@ == (StateFileView {
            state: DaemonLifecycleState::Stopped,
            readiness: "not_running"@,
            pid: None,
            recommended_next_action: "daemon start"@,
            ..s@
        }),
{
    DaemonStateFile {
        state: DaemonLifecycleState::Stopped,
        readiness: owned("not_running"),
        pid: None,
        recommended_next_action: owned("daemon start"),
        ..s
    }
}

/// The state a daemon records when its listener fails with `error`.
pub fn listener_failed_state(s: DaemonStateFile, error: String) -> (r: DaemonStateFile)
    ensures
        r@ == (StateFileView {
            state: DaemonLifecycleState::Failed,
            readiness: "failed"@,
            last_error: error@,
            recommended_next_action: "daemon restart"@,
            ..s@
        }),
{
    DaemonStateFile {
        state: DaemonLifecycleState::Failed,
        readiness: owned("failed"),
        last_error: error,
        recommended_next_action: owned("daemon restart"),
        ..s
    }
}

/// The status the daemon reports.
pub struct DaemonStatus {
    pub state: String,
    pub readiness: String,
    pub instance_id: String,
    pub pid: Option<u32>,
    pub transport: String,
    pub endpoint: String,
    pub uptime_sec: u64,
    pub active_requests: u64,
    pub queue_depth: u64,
    pub last_error: String,
    pub recommended_next_action: String,
    pub runtime_artifacts: DaemonRuntimeArtifacts,
}

/// The content of a reported status.
pub struct StatusView {
    pub state: Seq<char>,
    pub readiness: Seq<char>,
    pub instance_id: Seq<char>,
    pub pid: Option<u32>,
    pub transport: Seq<char>,
    pub endpoint: Seq<char>,
    pub uptime_sec: u64,
    pub active_requests: u64,
    pub queue_depth: u64,
    pub last_error: Seq<char>,
    pub recommended_next_action: Seq<char>,
    pub runtime_artifacts: ArtifactsView,
}

impl View for DaemonStatus {
    type V = StatusView;

    open spec fn view(&self) -> StatusView {
        StatusView {
            state: self.state@,
            readiness: self.readiness@,
            instance_id: self.instance_id@,
            pid: self.pid,
            transport: self.transport@,
            endpoint: self.endpoint@,
            uptime_sec: self.uptime_sec,
            active_requests: self.active_requests,
            queue_depth: self.queue_depth,
            last_error: self.last_error@,
            recommended_next_action: self.recommended_next_action@,
            runtime_artifacts: self.runtime_artifacts@,
        }
    }
}

/// The recorded state as it stands once a recorded process id that is no
/// longer running has been dropped: the daemon then counts as stopped.
pub open spec fn checked_view(s: StateFileView, pid_running: bool) -> StateFileView {
    if s.pid is Some && !pid_running {
        StateFileView {
            state: DaemonLifecycleState::Stopped,
            readiness: "not_running"@,
            pid: None,
            recommended_next_action: "daemon start"@,
            ..s
        }
    } else {
        s
    }
}

/// The status reported for a recorded state: the state's name, its
/// fields, and the uptime since it started while a process is recorded
/// (0 otherwise, and never below 0).
pub open spec fn status_view(
    artifacts: ArtifactsView,
    recorded: StateFileView,
    pid_running: bool,
    now: u64,
) -> StatusView {
    let s = checked_view(recorded, pid_running);
    StatusView {
        state: state_name(s.state),
        readiness: s.readiness,
        instance_id: s.instance_id,
        pid: s.pid,
        transport: s.transport,
        endpoint: s.endpoint,
        uptime_sec: if s.pid is Some {
            if now >= s.started_at_epoch_sec {
                (now - s.started_at_epoch_sec) as u64
            } else {
                0
            }
        } else {
            0
        },
        active_requests: s.active_requests,
        queue_depth: s.queue_depth,
        last_error: s.last_error,
        recommended_next_action: s.recommended_next_action,
        runtime_artifacts: artifacts,
    }
}

/// The status reported for a recorded state at time `now`, where
/// `pid_running` says whether the recorded process (if any) still runs.
pub fn materialize_status(
    runtime: &RuntimeLocations,
    state: DaemonStateFile,
    pid_running: bool,
    now: u64,
) -> (r: DaemonStatus)
    ensures
        r@ == status_view(artifacts_of(runtime.state_dir@), state@, pid_running, now),
{
    let mut state = state;
    if state.pid.is_some() && !pid_running {
        state.state = DaemonLifecycleState::Stopped;
        state.readiness = owned("not_running");
        state.pid = None;
        state.recommended_next_action = owned("daemon start");
    }
    let uptime_sec = match state.pid {
        Some(_) => now.saturating_sub(state.started_at_epoch_sec),
        None => 0,
    };
    DaemonStatus {
        state: lifecycle_state_name(state.state),
        readiness: state.readiness,
        instance_id: state.instance_id,
        pid: state.pid,
        transport: state.transport,
        endpoint: state.endpoint,
        uptime_sec,
        active_requests: state.active_requests,
        queue_depth: state.queue_depth,
        last_error: state.last_error,
        recommended_next_action: state.recommended_next_action,
        runtime_artifacts: daemon_runtime_artifacts(runtime),
    }
}

/// What recording a state writes besides the state file itself: the pid
/// file holds the process id when one is recorded (else it is removed), and
/// the socket metadata file holds the endpoint while the daemon is active
/// with a non-blank endpoint (else it is removed).
pub struct StatePersistence {
    pub pid_text: Option<String>,
    pub endpoint: Option<String>,
}

/// What recording `state` writes besides the state file.
pub fn state_persistence(state: &DaemonStateFile) -> (r: StatePersistence)
    ensures
        match state.pid {
            Some(pid) => r.pid_text matches Some(t) && t@ == nat_digits(pid as nat),
            None => r.pid_text is None,
        },
        if is_active(state.state) && trim_seq(state.endpoint@).len() > 0 {
            r.endpoint matches Some(e) && e@ == state.endpoint@
        } else {
            r.endpoint is None
        },
{
    let pid_text = match state.pid {
        Some(pid) => Some(digits_u64(pid as u64)),
        None => None,
    };
    let trimmed = trim(state.endpoint.as_str());
    let endpoint = if is_active_state(state.state) && crate::text::to_chars(trimmed.as_str()).len() > 0 {
        Some(state.endpoint.clone())
    } else {
        None
    };
    StatePersistence { pid_text, endpoint }
}

/// The answer to a lifecycle command: its outcome, the command, and the
/// daemon's status.
pub struct DaemonLifecycleResponse {
    pub status: String,
    pub action: String,
    pub daemon_status: DaemonStatus,
}

/// The content of a lifecycle answer.
pub struct ResponseView {
    pub status: Seq<char>,
    pub action: Seq<char>,
    pub daemon_status: StatusView,
}

impl View for DaemonLifecycleResponse {
    type V = ResponseView;

    open spec fn view(&self) -> ResponseView {
        ResponseView { status: self.status@, action: self.action@, daemon_status: self.daemon_status@ }
    }
}

/// The answer of `daemon status`: `ok`, with the daemon's status.
pub fn daemon_status_response(status: DaemonStatus) -> (r: DaemonLifecycleResponse)
    ensures
        r@ == (ResponseView { status: "ok"@, action: "status"@, daemon_status: status@ }),
{
    DaemonLifecycleResponse { status: owned("ok"), action: owned("status"), daemon_status: status }
}

/// A lifecycle answer built from its parts.
pub fn lifecycle_response(status: &str, action: &str, daemon_status: DaemonStatus) -> (r: DaemonLifecycleResponse)
    ensures
        r@ == (ResponseView { status: status@, action: action@, daemon_status: daemon_status@ }),
{
    DaemonLifecycleResponse { status: owned(status), action: owned(action), daemon_status }
}

// ---------------------------------------------------------------------------
// Lifecycle commands
// ---------------------------------------------------------------------------

/// The daemon control commands.
#[derive(PartialEq, Eq, Structural, Clone, Copy, Debug)]
pub enum LifecycleCommand {
    /// `daemon status`, answered with the status alone.
    Status,
    /// `daemon status`, answered with a lifecycle answer.
    StatusResponse,
    Start,
    Stop,
    Restart,
    /// Start the daemon unless it runs already; answered with its status.
    Ensure,
}

/// Why a status is being determined.
#[derive(PartialEq, Eq, Structural, Clone, Copy, Debug)]
pub enum StatusPurpose {
    /// To be reported.
    Report,
    /// To decide whether the daemon must be started.
    EnsureCheck,
    /// The check `daemon start` makes before it starts a daemon.
    StartCheck,
}

/// Where a lifecycle command stands: which outside step it waits for.
pub enum LifecyclePhase {
    Loading(StatusPurpose),
    Live(StatusPurpose),
    Pid(StatusPurpose, DaemonStateFile),
    ResetCleanup(StatusPurpose),
    ResetSave(StatusPurpose, DaemonStateFile),
    Dirs,
    StartCleanup,
    StartSave,
    Spawning,
    Waiting,
    FailCleanup(String),
    FailSave(String),
    Health,
    Shutdown,
    ShutdownWait,
    StopCleanup,
    StopSave(DaemonStateFile),
    Done,
}

/// The content of a phase.
pub enum PhaseView {
    Loading(StatusPurpose),
    Live(StatusPurpose),
    Pid(StatusPurpose, StateFileView),
    ResetCleanup(StatusPurpose),
    ResetSave(StatusPurpose, StateFileView),
    Dirs,
    StartCleanup,
    StartSave,
    Spawning,
    Waiting,
    FailCleanup(Seq<char>),
    FailSave(Seq<char>),
    Health,
    Shutdown,
    ShutdownWait,
    StopCleanup,
    StopSave(StateFileView),
    Done,
}

impl View for LifecyclePhase {
    type V = PhaseView;

    open spec fn view(&self) -> PhaseView {
        match self {
            LifecyclePhase::Loading(p) => PhaseView::Loading(*p),
            LifecyclePhase::Live(p) => PhaseView::Live(*p),
            LifecyclePhase::Pid(p, s) => PhaseView::Pid(*p, s@),
            LifecyclePhase::ResetCleanup(p) => PhaseView::ResetCleanup(*p),
            LifecyclePhase::ResetSave(p, s) => PhaseView::ResetSave(*p, s@),
            LifecyclePhase::Dirs => PhaseView::Dirs,
            LifecyclePhase::StartCleanup => PhaseView::StartCleanup,
            LifecyclePhase::StartSave => PhaseView::StartSave,
            LifecyclePhase::Spawning => PhaseView::Spawning,
            LifecyclePhase::Waiting => PhaseView::Waiting,
            LifecyclePhase::FailCleanup(m) => PhaseView::FailCleanup(m@),
            LifecyclePhase::FailSave(m) => PhaseView::FailSave(m@),
            LifecyclePhase::Health => PhaseView::Health,
            LifecyclePhase::Shutdown => PhaseView::Shutdown,
            LifecyclePhase::ShutdownWait => PhaseView::ShutdownWait,
            LifecyclePhase::StopCleanup => PhaseView::StopCleanup,
            LifecyclePhase::StopSave(s) => PhaseView::StopSave(s@),
            LifecyclePhase::Done => PhaseView::Done,
        }
    }
}

/// How a running daemon answered a shutdown request.
pub enum ShutdownReply {
    Accepted,
    Rejected,
    /// Another answer, in its serialized form.
    Unexpected(String),
}

/// The content of a shutdown answer.
pub enum ShutdownReplyView {
    Accepted,
    Rejected,
    Unexpected(Seq<char>),
}

impl View for ShutdownReply {
    type V = ShutdownReplyView;

    open spec fn view(&self) -> ShutdownReplyView {
        match self {
            ShutdownReply::Accepted => ShutdownReplyView::Accepted,
            ShutdownReply::Rejected => ShutdownReplyView::Rejected,
            ShutdownReply::Unexpected(t) => ShutdownReplyView::Unexpected(t@),
        }
    }
}

/// What an outside step reports back.
pub enum LifecycleEvent {
    /// The recorded state (the default state where none was recorded).
    Loaded(DaemonStateFile),
    /// The status a live daemon reported, or `None` where it could not be had.
    LiveStatus(Option<DaemonStatus>),
    /// Whether the recorded process still runs.
    PidRunning(bool),
    /// The step succeeded.
    Completed,
    /// The step failed with this message.
    Failed(String),
    /// Whether the daemon answered a health check as ready.
    Healthy(bool),
    ShutdownAnswer(ShutdownReply),
    /// The status of a daemon that became ready.
    Ready(DaemonStatus),
}

/// The content of an event.
pub enum EventView {
    Loaded(StateFileView),
    LiveStatus(Option<StatusView>),
    PidRunning(bool),
    Completed,
    Failed(Seq<char>),
    Healthy(bool),
    ShutdownAnswer(ShutdownReplyView),
    Ready(StatusView),
}

impl View for LifecycleEvent {
    type V = EventView;

    open spec fn view(&self) -> EventView {
        match self {
            LifecycleEvent::Loaded(s) => EventView::Loaded(s@),
            LifecycleEvent::LiveStatus(o) => EventView::LiveStatus(
                match o {
                    Some(st) => Some(st@),
                    None => None,
                },
            ),
            LifecycleEvent::PidRunning(b) => EventView::PidRunning(*b),
            LifecycleEvent::Completed => EventView::Completed,
            LifecycleEvent::Failed(m) => EventView::Failed(m@),
            LifecycleEvent::Healthy(b) => EventView::Healthy(*b),
            LifecycleEvent::ShutdownAnswer(r) => EventView::ShutdownAnswer(r@),
            LifecycleEvent::Ready(st) => EventView::Ready(st@),
        }
    }
}

/// How a lifecycle command ended.
pub enum LifecycleOutcome {
    Status(DaemonStatus),
    Response(DaemonLifecycleResponse),
    Failed(String),
}

/// The content of an outcome.
pub enum OutcomeView {
    Status(StatusView),
    Response(ResponseView),
    Failed(Seq<char>),
}

impl View for LifecycleOutcome {
    type V = OutcomeView;

    open spec fn view(&self) -> OutcomeView {
        match self {
            LifecycleOutcome::Status(st) => OutcomeView::Status(st@),
            LifecycleOutcome::Response(r) => OutcomeView::Response(r@),
            LifecycleOutcome::Failed(m) => OutcomeView::Failed(m@),
        }
    }
}

/// The outside step a lifecycle command asks for next.
pub enum LifecycleAction {
    /// Read the recorded state (the default state where none is recorded).
    LoadState,
    /// Ask a live daemon for its status.
    QueryLiveStatus,
    /// Find out whether this process still runs.
    CheckPid(u32),
    /// Create the daemon directory.
    EnsureDirectories,
    /// Remove the socket and the lock file.
    CleanupArtifacts,
    /// Record this state (see `state_persistence`).
    SaveState(DaemonStateFile),
    /// Spawn a background daemon.
    SpawnDaemon,
    /// Wait until the spawned daemon is ready and report its status.
    WaitReady,
    /// Ask the daemon whether it is ready.
    HealthCheck,
    /// Ask the daemon to shut down.
    RequestShutdown,
    /// Wait until the daemon no longer answers.
    WaitShutdown,
    /// The command is over.
    Finish(LifecycleOutcome),
}

/// The content of an action.
pub enum ActionView {
    LoadState,
    QueryLiveStatus,
    CheckPid(u32),
    EnsureDirectories,
    CleanupArtifacts,
    SaveState(StateFileView),
    SpawnDaemon,
    WaitReady,
    HealthCheck,
    RequestShutdown,
    WaitShutdown,
    Finish(OutcomeView),
}

impl View for LifecycleAction {
    type V = ActionView;

    open spec fn view(&self) -> ActionView {
        match self {
            LifecycleAction::LoadState => ActionView::LoadState,
            LifecycleAction::QueryLiveStatus => ActionView::QueryLiveStatus,
            LifecycleAction::CheckPid(p) => ActionView::CheckPid(*p),
            LifecycleAction::EnsureDirectories => ActionView::EnsureDirectories,
            LifecycleAction::CleanupArtifacts => ActionView::CleanupArtifacts,
            LifecycleAction::SaveState(s) => ActionView::SaveState(s@),
            LifecycleAction::SpawnDaemon => ActionView::SpawnDaemon,
            LifecycleAction::WaitReady => ActionView::WaitReady,
            LifecycleAction::HealthCheck => ActionView::HealthCheck,
            LifecycleAction::RequestShutdown => ActionView::RequestShutdown,
            LifecycleAction::WaitShutdown => ActionView::WaitShutdown,
            LifecycleAction::Finish(o) => ActionView::Finish(o@),
        }
    }
}

/// One lifecycle command under way.
pub struct Lifecycle {
    pub command: LifecycleCommand,
    pub unix: bool,
    pub runtime: RuntimeLocations,
    pub phase: LifecyclePhase,
}

/// The phase and first action of a command.
pub open spec fn initial(command: LifecycleCommand) -> (PhaseView, ActionView) {
    match command {
        LifecycleCommand::Status | LifecycleCommand::StatusResponse => (
            PhaseView::Loading(StatusPurpose::Report),
            ActionView::LoadState,
        ),
        LifecycleCommand::Ensure => (PhaseView::Loading(StatusPurpose::EnsureCheck), ActionView::LoadState),
        LifecycleCommand::Start => (PhaseView::Dirs, ActionView::EnsureDirectories),
        LifecycleCommand::Stop | LifecycleCommand::Restart => (PhaseView::Health, ActionView::HealthCheck),
    }
}

/// How a command that started a daemon (or found one running) ends:
/// `ensure` with the status, `restart` and `start` with a `running` answer.
pub open spec fn started_outcome(command: LifecycleCommand, st: StatusView) -> OutcomeView {
    if command == LifecycleCommand::Ensure {
        OutcomeView::Status(st)
    } else if command == LifecycleCommand::Restart {
        OutcomeView::Response(ResponseView { status: "running"@, action: "restart"@, daemon_status: st })
    } else {
        OutcomeView::Response(ResponseView { status: "running"@, action: "start"@, daemon_status: st })
    }
}

/// What follows once the status `st` is known.
pub open spec fn status_known(
    command: LifecycleCommand,
    purpose: StatusPurpose,
    st: StatusView,
) -> (PhaseView, ActionView) {
    match purpose {
        StatusPurpose::Report => if command == LifecycleCommand::StatusResponse {
            (
                PhaseView::Done,
                ActionView::Finish(
                    OutcomeView::Response(ResponseView { status: "ok"@, action: "status"@, daemon_status: st }),
                ),
            )
        } else {
            (PhaseView::Done, ActionView::Finish(OutcomeView::Status(st)))
        },
        StatusPurpose::EnsureCheck => if st.state == "running"@ {
            (PhaseView::Done, ActionView::Finish(OutcomeView::Status(st)))
        } else {
            (PhaseView::Dirs, ActionView::EnsureDirectories)
        },
        StatusPurpose::StartCheck => if st.state == "running"@ {
            (PhaseView::Done, ActionView::Finish(started_outcome(command, st)))
        } else {
            (PhaseView::StartCleanup, ActionView::CleanupArtifacts)
        },
    }
}

/// The message of a shutdown request answered otherwise than expected.
pub open spec fn unexpected_shutdown(t: Seq<char>) -> Seq<char> {
    "daemon returned unexpected RPC response for shutdown: "@ + t
}

/// The transition of a lifecycle command: from its phase and the event of
/// the step it waited for, at time `now`, to its next phase and action.
pub open spec fn transition(
    command: LifecycleCommand,
    unix: bool,
    state_dir: Seq<char>,
    phase: PhaseView,
    event: EventView,
    now: u64,
) -> (PhaseView, ActionView) {
    let art = artifacts_of(state_dir);
    let stopped = stopped_view(state_dir, unix, now);
    match (phase, event) {
        (PhaseView::Loading(p), EventView::Loaded(s)) => if is_active(s.state) {
            (PhaseView::Live(p), ActionView::QueryLiveStatus)
        } else if s.pid is Some {
            (PhaseView::Pid(p, s), ActionView::CheckPid(s.pid->0))
        } else {
            status_known(command, p, status_view(art, s, true, now))
        },
        (PhaseView::Live(p), EventView::LiveStatus(Some(st))) => status_known(command, p, st),
        (PhaseView::Live(p), EventView::LiveStatus(None)) => (
            PhaseView::ResetCleanup(p),
            ActionView::CleanupArtifacts,
        ),
        (PhaseView::Pid(p, s), EventView::PidRunning(b)) => status_known(command, p, status_view(art, s, b, now)),
        (PhaseView::ResetCleanup(p), EventView::Completed) => (
            PhaseView::ResetSave(p, stopped),
            ActionView::SaveState(stopped),
        ),
        (PhaseView::ResetSave(p, d), EventView::Completed) => status_known(command, p, status_view(art, d, true, now)),
        (PhaseView::Dirs, EventView::Completed) => (PhaseView::Loading(StatusPurpose::StartCheck), ActionView::LoadState),
        (PhaseView::StartCleanup, EventView::Completed) => (
            PhaseView::StartSave,
            ActionView::SaveState(starting_view(state_dir, unix, now)),
        ),
        (PhaseView::StartSave, EventView::Completed) => (PhaseView::Spawning, ActionView::SpawnDaemon),
        (PhaseView::Spawning, EventView::Completed) => (PhaseView::Waiting, ActionView::WaitReady),
        (PhaseView::Spawning, EventView::Failed(m)) => (
            PhaseView::FailSave(m),
            ActionView::SaveState(failed_view(state_dir, unix, now, m, None)),
        ),
        (PhaseView::Waiting, EventView::Ready(st)) => (PhaseView::Done, ActionView::Finish(started_outcome(command, st))),
        (PhaseView::Waiting, EventView::Failed(m)) => (PhaseView::FailCleanup(m), ActionView::CleanupArtifacts),
        (PhaseView::FailCleanup(m), EventView::Completed) => (
            PhaseView::FailSave(m),
            ActionView::SaveState(failed_view(state_dir, unix, now, m, None)),
        ),
        (PhaseView::FailSave(m), EventView::Completed) => (PhaseView::Done, ActionView::Finish(OutcomeView::Failed(m))),
        (PhaseView::Health, EventView::Healthy(false)) => (PhaseView::StopCleanup, ActionView::CleanupArtifacts),
        (PhaseView::Health, EventView::Healthy(true)) => (PhaseView::Shutdown, ActionView::RequestShutdown),
        (PhaseView::Shutdown, EventView::ShutdownAnswer(ShutdownReplyView::Accepted)) => (
            PhaseView::ShutdownWait,
            ActionView::WaitShutdown,
        ),
        (PhaseView::Shutdown, EventView::ShutdownAnswer(ShutdownReplyView::Rejected)) => (
            PhaseView::Done,
            ActionView::Finish(OutcomeView::Failed("daemon rejected shutdown request"@)),
        ),
        (PhaseView::Shutdown, EventView::ShutdownAnswer(ShutdownReplyView::Unexpected(t))) => (
            PhaseView::Done,
            ActionView::Finish(OutcomeView::Failed(unexpected_shutdown(t))),
        ),
        (PhaseView::ShutdownWait, EventView::Completed) => (PhaseView::StopCleanup, ActionView::CleanupArtifacts),
        (PhaseView::StopCleanup, EventView::Completed) => (PhaseView::StopSave(stopped), ActionView::SaveState(stopped)),
        (PhaseView::StopSave(d), EventView::Completed) => if command == LifecycleCommand::Restart {
            (PhaseView::Dirs, ActionView::EnsureDirectories)
        } else {
            (
                PhaseView::Done,
                ActionView::Finish(
                    OutcomeView::Response(
                        ResponseView {
                            status: "stopped"@,
                            action: "stop"@,
                            daemon_status: status_view(art, d, true, now),
                        },
                    ),
                ),
            )
        },
        (_, EventView::Failed(m)) => (PhaseView::Done, ActionView::Finish(OutcomeView::Failed(m))),
        _ => (
            PhaseView::Done,
            ActionView::Finish(OutcomeView::Failed("unexpected daemon lifecycle event"@)),
        ),
    }
}

/// A copy of the runtime directories.
pub fn copy_runtime(runtime: &RuntimeLocations) -> (r: RuntimeLocations)
    ensures
        r.config_dir@ == runtime.config_dir@,
        r.data_dir@ == runtime.data_dir@,
        r.state_dir@ == runtime.state_dir@,
        r.cache_dir@ == runtime.cache_dir@,
        match runtime.log_dir {
            Some(l) => r.log_dir matches Some(c) && c@ == l@,
            None => r.log_dir is None,
        },
{
    RuntimeLocations {
        config_dir: runtime.config_dir.clone(),
        data_dir: runtime.data_dir.clone(),
        state_dir: runtime.state_dir.clone(),
        cache_dir: runtime.cache_dir.clone(),
        log_dir: match &runtime.log_dir {
            Some(l) => Some(l.clone()),
            None => None,
        },
    }
}

/// How a command that started a daemon, or found one running, ends.
fn started(command: LifecycleCommand, st: DaemonStatus) -> (r: LifecycleOutcome)
    ensures
        r@ == started_outcome(command, st@),
{
    if command == LifecycleCommand::Ensure {
        LifecycleOutcome::Status(st)
    } else if command == LifecycleCommand::Restart {
        LifecycleOutcome::Response(lifecycle_response("running", "restart", st))
    } else {
        LifecycleOutcome::Response(lifecycle_response("running", "start", st))
    }
}

/// What follows once the status is known.
fn on_status(command: LifecycleCommand, purpose: StatusPurpose, st: DaemonStatus) -> (r: (
    LifecyclePhase,
    LifecycleAction,
))
    ensures
        (r.0@, r.1@) == status_known(command, purpose, st@),
{
    proof {
        reveal_strlit("running");
    }
    match purpose {
        StatusPurpose::Report => if command == LifecycleCommand::StatusResponse {
            (
                LifecyclePhase::Done,
                LifecycleAction::Finish(LifecycleOutcome::Response(daemon_status_response(st))),
            )
        } else {
            (LifecyclePhase::Done, LifecycleAction::Finish(LifecycleOutcome::Status(st)))
        },
        StatusPurpose::EnsureCheck => if str_eq(st.state.as_str(), "running") {
            (LifecyclePhase::Done, LifecycleAction::Finish(LifecycleOutcome::Status(st)))
        } else {
            (LifecyclePhase::Dirs, LifecycleAction::EnsureDirectories)
        },
        StatusPurpose::StartCheck => if str_eq(st.state.as_str(), "running") {
            (LifecyclePhase::Done, LifecycleAction::Finish(started(command, st)))
        } else {
            (LifecyclePhase::StartCleanup, LifecycleAction::CleanupArtifacts)
        },
    }
}

/// The transition of a command (see `transition`).
#[verifier::rlimit(50)]
fn advance(
    command: LifecycleCommand,
    unix: bool,
    runtime: &RuntimeLocations,
    phase: LifecyclePhase,
    event: LifecycleEvent,
    now: u64,
) -> (r: (LifecyclePhase, LifecycleAction))
    ensures
        (r.0@, r.1@) == transition(command, unix, runtime.state_dir@, phase@, event@, now),
{
    match (phase, event) {
        (LifecyclePhase::Loading(p), LifecycleEvent::Loaded(s)) => if is_active_state(s.state) {
            (LifecyclePhase::Live(p), LifecycleAction::QueryLiveStatus)
        } else {
            match s.pid {
                Some(pid) => (LifecyclePhase::Pid(p, s), LifecycleAction::CheckPid(pid)),
                None => on_status(command, p, materialize_status(runtime, s, true, now)),
            }
        },
        (LifecyclePhase::Live(p), LifecycleEvent::LiveStatus(Some(st))) => on_status(command, p, st),
        (LifecyclePhase::Live(p), LifecycleEvent::LiveStatus(None)) => (
            LifecyclePhase::ResetCleanup(p),
            LifecycleAction::CleanupArtifacts,
        ),
        (LifecyclePhase::Pid(p, s), LifecycleEvent::PidRunning(b)) => on_status(
            command,
            p,
            materialize_status(runtime, s, b, now),
        ),
        (LifecyclePhase::ResetCleanup(p), LifecycleEvent::Completed) => (
            LifecyclePhase::ResetSave(p, default_state(runtime, unix, now)),
            LifecycleAction::SaveState(default_state(runtime, unix, now)),
        ),
        (LifecyclePhase::ResetSave(p, d), LifecycleEvent::Completed) => on_status(
            command,
            p,
            materialize_status(runtime, d, true, now),
        ),
        (LifecyclePhase::Dirs, LifecycleEvent::Completed) => (
            LifecyclePhase::Loading(StatusPurpose::StartCheck),
            LifecycleAction::LoadState,
        ),
        (LifecyclePhase::StartCleanup, LifecycleEvent::Completed) => (
            LifecyclePhase::StartSave,
            LifecycleAction::SaveState(starting_state(runtime, unix, now)),
        ),
        (LifecyclePhase::StartSave, LifecycleEvent::Completed) => (
            LifecyclePhase::Spawning,
            LifecycleAction::SpawnDaemon,
        ),
        (LifecyclePhase::Spawning, LifecycleEvent::Completed) => (
            LifecyclePhase::Waiting,
            LifecycleAction::WaitReady,
        ),
        (LifecyclePhase::Spawning, LifecycleEvent::Failed(m)) => {
            let failed = failed_state(runtime, unix, now, m.clone(), None);
            (LifecyclePhase::FailSave(m), LifecycleAction::SaveState(failed))
        },
        (LifecyclePhase::Waiting, LifecycleEvent::Ready(st)) => (
            LifecyclePhase::Done,
            LifecycleAction::Finish(started(command, st)),
        ),
        (LifecyclePhase::Waiting, LifecycleEvent::Failed(m)) => (
            LifecyclePhase::FailCleanup(m),
            LifecycleAction::CleanupArtifacts,
        ),
        (LifecyclePhase::FailCleanup(m), LifecycleEvent::Completed) => {
            let failed = failed_state(runtime, unix, now, m.clone(), None);
            (LifecyclePhase::FailSave(m), LifecycleAction::SaveState(failed))
        },
        (LifecyclePhase::FailSave(m), LifecycleEvent::Completed) => (
            LifecyclePhase::Done,
            LifecycleAction::Finish(LifecycleOutcome::Failed(m)),
        ),
        (LifecyclePhase::Health, LifecycleEvent::Healthy(false)) => (
            LifecyclePhase::StopCleanup,
            LifecycleAction::CleanupArtifacts,
        ),
        (LifecyclePhase::Health, LifecycleEvent::Healthy(true)) => (
            LifecyclePhase::Shutdown,
            LifecycleAction::RequestShutdown,
        ),
        (LifecyclePhase::Shutdown, LifecycleEvent::ShutdownAnswer(ShutdownReply::Accepted)) => (
            LifecyclePhase::ShutdownWait,
            LifecycleAction::WaitShutdown,
        ),
        (LifecyclePhase::Shutdown, LifecycleEvent::ShutdownAnswer(ShutdownReply::Rejected)) => (
            LifecyclePhase::Done,
            LifecycleAction::Finish(LifecycleOutcome::Failed(owned("daemon rejected shutdown request"))),
        ),
        (LifecyclePhase::Shutdown, LifecycleEvent::ShutdownAnswer(ShutdownReply::Unexpected(t))) => {
            let mut m = owned("daemon returned unexpected RPC response for shutdown: ");
            append(&mut m, t.as_str());
            (LifecyclePhase::Done, LifecycleAction::Finish(LifecycleOutcome::Failed(m)))
        },
        (LifecyclePhase::ShutdownWait, LifecycleEvent::Completed) => (
            LifecyclePhase::StopCleanup,
            LifecycleAction::CleanupArtifacts,
        ),
        (LifecyclePhase::StopCleanup, LifecycleEvent::Completed) => (
            LifecyclePhase::StopSave(default_state(runtime, unix, now)),
            LifecycleAction::SaveState(default_state(runtime, unix, now)),
        ),
        (LifecyclePhase::StopSave(d), LifecycleEvent::Completed) => if command == LifecycleCommand::Restart {
            (LifecyclePhase::Dirs, LifecycleAction::EnsureDirectories)
        } else {
            let st = materialize_status(runtime, d, true, now);
            (
                LifecyclePhase::Done,
                LifecycleAction::Finish(LifecycleOutcome::Response(lifecycle_response("stopped", "stop", st))),
            )
        },
        (_, LifecycleEvent::Failed(m)) => (
            LifecyclePhase::Done,
            LifecycleAction::Finish(LifecycleOutcome::Failed(m)),
        ),
        _ => (
            LifecyclePhase::Done,
            LifecycleAction::Finish(LifecycleOutcome::Failed(owned("unexpected daemon lifecycle event"))),
        ),
    }
}

impl Lifecycle {
    /// Starts `command` on the daemon of `runtime`; `unix` says whether
    /// the platform has Unix sockets.
    pub fn begin(command: LifecycleCommand, runtime: &RuntimeLocations, unix: bool) -> (r: (
        Lifecycle,
        LifecycleAction,
    ))
        ensures
            r.0.command == command,
            r.0.unix == unix,
            r.0.runtime.state_dir@ == runtime.state_dir@,
            (r.0.phase@, r.1@) == initial(command),
    {
        let (phase, action) = match command {
            LifecycleCommand::Status | LifecycleCommand::StatusResponse => (
                LifecyclePhase::Loading(StatusPurpose::Report),
                LifecycleAction::LoadState,
            ),
            LifecycleCommand::Ensure => (
                LifecyclePhase::Loading(StatusPurpose::EnsureCheck),
                LifecycleAction::LoadState,
            ),
            LifecycleCommand::Start => (LifecyclePhase::Dirs, LifecycleAction::EnsureDirectories),
            LifecycleCommand::Stop | LifecycleCommand::Restart => (
                LifecyclePhase::Health,
                LifecycleAction::HealthCheck,
            ),
        };
        (Lifecycle { command, unix, runtime: copy_runtime(runtime), phase }, action)
    }

    /// Hands the command the event of the step it asked for, at time `now`,
    /// and returns it with its next action (see `transition`).
    pub fn step(self, event: LifecycleEvent, now: u64) -> (r: (Lifecycle, LifecycleAction))
        ensures
            r.0.command == self.command,
            r.0.unix == self.unix,
            r.0.runtime == self.runtime,
            (r.0.phase@, r.1@) == transition(
                self.command,
                self.unix,
                self.runtime.state_dir@,
                self.phase@,
                event@,
                now,
            ),
    {
        let Lifecycle { command, unix, runtime, phase } = self;
        let (next, action) = advance(command, unix, &runtime, phase, event, now);
        (Lifecycle { command, unix, runtime, phase: next }, action)
    }
}

/// `daemon status`: the status of the daemon, from its recorded state, or
/// from the daemon itself while one is recorded as alive.
pub fn daemon_status(runtime: &RuntimeLocations, unix: bool) -> (r: (Lifecycle, LifecycleAction))
    ensures
        r.0.command == LifecycleCommand::Status,
        r.0.unix == unix,
        r.0.runtime.state_dir@ == runtime.state_dir@,
        (r.0.phase@, r.1@) == initial(LifecycleCommand::Status),
{
    Lifecycle::begin(LifecycleCommand::Status, runtime, unix)
}

/// `daemon start`: starts a background daemon unless one runs already.
pub fn daemon_start(runtime: &RuntimeLocations, unix: bool) -> (r: (Lifecycle, LifecycleAction))
    ensures
        r.0.command == LifecycleCommand::Start,
        r.0.unix == unix,
        r.0.runtime.state_dir@ == runtime.state_dir@,
        (r.0.phase@, r.1@) == initial(LifecycleCommand::Start),
{
    Lifecycle::begin(LifecycleCommand::Start, runtime, unix)
}

/// `daemon stop`: shuts the daemon down and records it as stopped.
pub fn daemon_stop(runtime: &RuntimeLocations, unix: bool) -> (r: (Lifecycle, LifecycleAction))
    ensures
        r.0.command == LifecycleCommand::Stop,
        r.0.unix == unix,
        r.0.runtime.state_dir@ == runtime.state_dir@,
        (r.0.phase@, r.1@) == initial(LifecycleCommand::Stop),
{
    Lifecycle::begin(LifecycleCommand::Stop, runtime, unix)
}

/// `daemon restart`: stops, then starts the daemon.
pub fn daemon_restart(runtime: &RuntimeLocations, unix: bool) -> (r: (Lifecycle, LifecycleAction))
    ensures
        r.0.command == LifecycleCommand::Restart,
        r.0.unix == unix,
        r.0.runtime.state_dir@ == runtime.state_dir@,
        (r.0.phase@, r.1@) == initial(LifecycleCommand::Restart),
{
    Lifecycle::begin(LifecycleCommand::Restart, runtime, unix)
}

/// Starts the daemon unless it runs already, and reports its status.
pub fn ensure_daemon_running(runtime: &RuntimeLocations, unix: bool) -> (r: (Lifecycle, LifecycleAction))
    ensures
        r.0.command == LifecycleCommand::Ensure,
        r.0.unix == unix,
        r.0.runtime.state_dir@ == runtime.state_dir@,
        (r.0.phase@, r.1@) == initial(LifecycleCommand::Ensure),
{
    Lifecycle::begin(LifecycleCommand::Ensure, runtime, unix)
}

// ---------------------------------------------------------------------------
// Requests to the daemon and its answers
// ---------------------------------------------------------------------------

/// A request to the daemon, one JSON line on its socket.
#[allow(inconsistent_fields)]
pub enum DaemonRpcRequest {
    Health,
    Status,
    Shutdown,
    SessionCreate { agent: String },
    SessionList,
    SessionClose { agent: String, session_id: String },
    ExecuteRun {
        input: String,
        agent: String,
        session_id: Option<String>,
        effective_context: Vec<ContextEntry>,
    },
}

/// An answer of the daemon, one JSON line on its socket.
pub enum DaemonRpcResponse {
    Health { ok: bool },
    Status { status: Box<DaemonStatus> },
    Shutdown { accepted: bool },
    SessionCreate { agent: String, session_id: String },
    SessionList { agents: Vec<AgentSessionInfo> },
    SessionClose { agent: String, session_id: String },
    RunResult { output: AcpAgentCliOutput },
    Error { code: String, message: String, recommended_next_action: String },
}

/// Whether `r` is the error answer with this code, message and next action.
pub open spec fn is_rpc_error(r: DaemonRpcResponse, code: Seq<char>, message: Seq<char>, action: Seq<char>) -> bool {
    r matches DaemonRpcResponse::Error { code: c, message: m, recommended_next_action: a } && c@ == code
        && m@ == message && a@ == action
}

/// An error answer.
pub fn rpc_error(code: &str, message: String, action: &str) -> (r: DaemonRpcResponse)
    ensures
        is_rpc_error(r, code@, message@, action@),
{
    DaemonRpcResponse::Error { code: owned(code), message, recommended_next_action: owned(action) }
}

/// The answer when connecting to an agent failed with `message`.
pub fn agent_connect_failed(message: String) -> (r: DaemonRpcResponse)
    ensures
        is_rpc_error(r, "daemon.agent_connect_failed"@, message@, "verify agent is installed and executable"@),
{
    rpc_error("daemon.agent_connect_failed", message, "verify agent is installed and executable")
}

/// The answer when an agent failed to create a session.
pub fn session_create_failed(message: String) -> (r: DaemonRpcResponse)
    ensures
        is_rpc_error(r, "daemon.session_create_failed"@, message@, "daemon restart"@),
{
    rpc_error("daemon.session_create_failed", message, "daemon restart")
}

/// The answer when an agent failed to run a prompt.
pub fn agent_error(message: String) -> (r: DaemonRpcResponse)
    ensures
        is_rpc_error(r, "daemon.agent_error"@, message@, "daemon restart"@),
{
    rpc_error("daemon.agent_error", message, "daemon restart")
}

/// The message for an agent the daemon has no connection to.
pub open spec fn agent_not_found_message(agent: Seq<char>) -> Seq<char> {
    "no connection for agent '"@ + agent + "'"@
}

/// The message for a session an agent does not have.
pub open spec fn session_not_found_message(agent: Seq<char>, session_id: Seq<char>) -> Seq<char> {
    "session '"@ + session_id + "' not found for agent '"@ + agent + "'"@
}

/// The answer for a session that `agent` does not have.
pub fn session_not_found(agent: &str, session_id: &str) -> (r: DaemonRpcResponse)
    ensures
        is_rpc_error(
            r,
            "daemon.session_not_found"@,
            session_not_found_message(agent@, session_id@),
            "use daemon session list to see active sessions"@,
        ),
{
    let mut m = owned("session '");
    append(&mut m, session_id);
    append(&mut m, "' not found for agent '");
    append(&mut m, agent);
    append(&mut m, "'");
    rpc_error("daemon.session_not_found", m, "use daemon session list to see active sessions")
}

/// The answer to closing a session, by how the close ended.
pub fn session_close_response(outcome: CloseOutcome, agent: &str, session_id: &str) -> (r: DaemonRpcResponse)
    ensures
        outcome == CloseOutcome::AgentNotFound ==> is_rpc_error(
            r,
            "daemon.agent_not_found"@,
            agent_not_found_message(agent@),
            "use daemon session create first"@,
        ),
        outcome == CloseOutcome::SessionNotFound ==> is_rpc_error(
            r,
            "daemon.session_not_found"@,
            session_not_found_message(agent@, session_id@),
            "use daemon session list to see active sessions"@,
        ),
        outcome == CloseOutcome::Closed ==> (r matches DaemonRpcResponse::SessionClose { agent: a, session_id: s }
            && a@ == agent@ && s@ == session_id@),
{
    match outcome {
        CloseOutcome::AgentNotFound => {
            let mut m = owned("no connection for agent '");
            append(&mut m, agent);
            append(&mut m, "'");
            rpc_error("daemon.agent_not_found", m, "use daemon session create first")
        },
        CloseOutcome::SessionNotFound => session_not_found(agent, session_id),
        CloseOutcome::Closed => DaemonRpcResponse::SessionClose {
            agent: owned(agent),
            session_id: owned(session_id),
        },
    }
}

/// The answer of a prompt run: `ok`, the agent's text, the input and the
/// effective context.
pub fn run_result(input: &str, message: String, effective_context: Vec<ContextEntry>) -> (r: DaemonRpcResponse)
    ensures
        r matches DaemonRpcResponse::RunResult { output } && output.status@ == "ok"@ && output.message@
            == message@ && output.input@ == input@ && output.effective_context@ == effective_context@,
{
    DaemonRpcResponse::RunResult { output: crate::output::run_output(input, message, effective_context) }
}

/// The message for an answer of the wrong kind, shown in its serialized form.
pub open spec fn unexpected_message(what: Seq<char>, serialized: Seq<char>) -> Seq<char> {
    "daemon returned unexpected RPC response for "@ + what + ": "@ + serialized
}

/// The message for an answer of the wrong kind to a request about `what`.
pub fn unexpected_response(what: &str, serialized: &str) -> (r: String)
    ensures
        r@ == unexpected_message(what@, serialized@),
{
    let mut m = owned("daemon returned unexpected RPC response for ");
    append(&mut m, what);
    append(&mut m, ": ");
    append(&mut m, serialized);
    m
}

/// How the daemon answered a request: what was asked for, the error
/// message it answered with, or an answer of another kind.
pub enum RpcReply<T> {
    Expected(T),
    Refused(String),
    Other(DaemonRpcResponse),
}

/// The status in an answer to a status request.
pub fn expect_status(r: DaemonRpcResponse) -> (x: RpcReply<DaemonStatus>)
    ensures
        match r {
            DaemonRpcResponse::Status { status } => x matches RpcReply::Expected(s) && s@ == status@,
            _ => x is Other,
        },
{
    match r {
        DaemonRpcResponse::Status { status } => RpcReply::Expected(*status),
        other => RpcReply::Other(other),
    }
}

/// Whether an answer to a health check says ready.
pub fn expect_health(r: DaemonRpcResponse) -> (x: RpcReply<bool>)
    ensures
        match r {
            DaemonRpcResponse::Health { ok } => x matches RpcReply::Expected(b) && b == ok,
            _ => x is Other,
        },
{
    match r {
        DaemonRpcResponse::Health { ok } => RpcReply::Expected(ok),
        other => RpcReply::Other(other),
    }
}

/// How the daemon answered a shutdown request.
pub fn expect_shutdown(r: DaemonRpcResponse) -> (x: RpcReply<bool>)
    ensures
        match r {
            DaemonRpcResponse::Shutdown { accepted } => x matches RpcReply::Expected(b) && b == accepted,
            _ => x is Other,
        },
{
    match r {
        DaemonRpcResponse::Shutdown { accepted } => RpcReply::Expected(accepted),
        other => RpcReply::Other(other),
    }
}

/// The result in an answer to a run request.
pub fn expect_run_result(r: DaemonRpcResponse) -> (x: RpcReply<AcpAgentCliOutput>)
    ensures
        match r {
            DaemonRpcResponse::RunResult { output } => x matches RpcReply::Expected(o) && o == output,
            DaemonRpcResponse::Error { message, .. } => x matches RpcReply::Refused(m) && m@ == message@,
            _ => x is Other,
        },
{
    match r {
        DaemonRpcResponse::RunResult { output } => RpcReply::Expected(output),
        DaemonRpcResponse::Error { message, .. } => RpcReply::Refused(message),
        other => RpcReply::Other(other),
    }
}

/// The agent and session in an answer to a session request (`close`
/// chooses which kind is expected).
pub fn expect_session(r: DaemonRpcResponse, close: bool) -> (x: RpcReply<(String, String)>)
    ensures
        match r {
            DaemonRpcResponse::SessionCreate { agent, session_id } => if close {
                x is Other
            } else {
                x matches RpcReply::Expected(p) && p.0@ == agent@ && p.1@ == session_id@
            },
            DaemonRpcResponse::SessionClose { agent, session_id } => if close {
                x matches RpcReply::Expected(p) && p.0@ == agent@ && p.1@ == session_id@
            } else {
                x is Other
            },
            DaemonRpcResponse::Error { message, .. } => x matches RpcReply::Refused(m) && m@ == message@,
            _ => x is Other,
        },
{
    match r {
        DaemonRpcResponse::SessionCreate { agent, session_id } => if close {
            RpcReply::Other(DaemonRpcResponse::SessionCreate { agent, session_id })
        } else {
            RpcReply::Expected((agent, session_id))
        },
        DaemonRpcResponse::SessionClose { agent, session_id } => if close {
            RpcReply::Expected((agent, session_id))
        } else {
            RpcReply::Other(DaemonRpcResponse::SessionClose { agent, session_id })
        },
        DaemonRpcResponse::Error { message, .. } => RpcReply::Refused(message),
        other => RpcReply::Other(other),
    }
}

/// The sessions in an answer to a session list request.
pub fn expect_session_list(r: DaemonRpcResponse) -> (x: RpcReply<Vec<AgentSessionInfo>>)
    ensures
        match r {
            DaemonRpcResponse::SessionList { agents } => x matches RpcReply::Expected(a) && a == agents,
            DaemonRpcResponse::Error { message, .. } => x matches RpcReply::Refused(m) && m@ == message@,
            _ => x is Other,
        },
{
    match r {
        DaemonRpcResponse::SessionList { agents } => RpcReply::Expected(agents),
        DaemonRpcResponse::Error { message, .. } => RpcReply::Refused(message),
        other => RpcReply::Other(other),
    }
}

/// The refusal of a daemon request when the daemon does not run: runs
/// suggest `--ensure-daemon`, session requests to start it first.
pub fn not_running_error(status: &DaemonStatus, for_run: bool) -> (r: Option<String>)
    ensures
        status.state@ == "running"@ ==> r is None,
        status.state@ != "running"@ ==> (r matches Some(m) && m@ == if for_run {
            "daemon is not running; start it first or pass --ensure-daemon"@
        } else {
            "daemon is not running; start it first"@
        }),
{
    if str_eq(status.state.as_str(), "running") {
        None
    } else if for_run {
        Some(owned("daemon is not running; start it first or pass --ensure-daemon"))
    } else {
        Some(owned("daemon is not running; start it first"))
    }
}

/// Why a line read from the daemon's socket is no request or answer.
pub enum RpcLineError {
    /// The bytes are not UTF-8.
    NotUtf8,
    /// The line is blank.
    Empty,
}

/// The text of `bytes` where they are well-formed UTF-8
/// (`String::from_utf8`).
#[verifier::external_body]
fn utf8_text(bytes: Vec<u8>) -> (r: Option<String>)
    ensures
        match r {
            Some(s) => vstd::utf8::valid_utf8(bytes@) && s@ == vstd::utf8::decode_utf8(bytes@),
            None => !vstd::utf8::valid_utf8(bytes@),
        },
{
    String::from_utf8(bytes).ok()
}

/// The line made of the bytes read up to a newline or the end of the
/// stream: its text where it is UTF-8 and not blank.
pub fn decode_rpc_line(bytes: Vec<u8>) -> (r: Result<String, RpcLineError>)
    ensures
        !vstd::utf8::valid_utf8(bytes@) ==> r matches Err(RpcLineError::NotUtf8),
        vstd::utf8::valid_utf8(bytes@) && trim_seq(vstd::utf8::decode_utf8(bytes@)).len() == 0 ==> r matches Err(
            RpcLineError::Empty,
        ),
        vstd::utf8::valid_utf8(bytes@) && trim_seq(vstd::utf8::decode_utf8(bytes@)).len() > 0 ==> (r matches Ok(
            s,
        ) && s@ == vstd::utf8::decode_utf8(bytes@)),
{
    match utf8_text(bytes) {
        None => Err(RpcLineError::NotUtf8),
        Some(line) => {
            let t = trim(line.as_str());
            if crate::text::to_chars(t.as_str()).len() == 0 {
                Err(RpcLineError::Empty)
            } else {
                Ok(line)
            }
        },
    }
}

/// The message for a line that is no request or answer.
pub fn rpc_line_message(e: &RpcLineError) -> (r: String)
    ensures
        r@ == match e {
            RpcLineError::NotUtf8 => "daemon returned non-utf8 RPC data"@,
            RpcLineError::Empty => "daemon returned an empty RPC response"@,
        },
{
    match e {
        RpcLineError::NotUtf8 => owned("daemon returned non-utf8 RPC data"),
        RpcLineError::Empty => owned("daemon returned an empty RPC response"),
    }
}

// ---------------------------------------------------------------------------
// Laws of the lifecycle
// ---------------------------------------------------------------------------

/// A recorded process that no longer runs is reported as a stopped daemon
/// without a process and without uptime.
pub proof fn law_dead_process_reported_stopped(art: ArtifactsView, s: StateFileView, now: u64)
    requires
        s.pid is Some,
    ensures
        status_view(art, s, false, now).state == "stopped"@,
        status_view(art, s, false, now).pid is None,
        status_view(art, s, false, now).uptime_sec == 0,
        status_view(art, s, false, now).recommended_next_action == "daemon start"@,
{
}

/// The phases a `daemon status` command passes through.
pub open spec fn report_phase(p: PhaseView) -> bool {
    match p {
        PhaseView::Loading(StatusPurpose::Report) => true,
        PhaseView::Live(StatusPurpose::Report) => true,
        PhaseView::Pid(StatusPurpose::Report, _) => true,
        PhaseView::ResetCleanup(StatusPurpose::Report) => true,
        PhaseView::ResetSave(StatusPurpose::Report, _) => true,
        PhaseView::Done => true,
        _ => false,
    }
}

/// A step of the status query, with a reported status turned into the
/// answer of `daemon status`: `ok`, action `status`, that status.
pub open spec fn as_status_answer(x: (PhaseView, ActionView)) -> (PhaseView, ActionView) {
    match x.1 {
        ActionView::Finish(OutcomeView::Status(st)) => (
            x.0,
            ActionView::Finish(OutcomeView::Response(ResponseView { status: "ok"@, action: "status"@, daemon_status: st })),
        ),
        _ => x,
    }
}

/// `daemon status` takes the same steps as the status query on the same
/// events; it answers `ok`, with action `status` and the very status the
/// query gives, exactly when the query gives one, and fails with the same
/// message exactly when the query fails.
pub proof fn law_status_answer_follows_status_query(
    unix: bool,
    state_dir: Seq<char>,
    phase: PhaseView,
    event: EventView,
    now: u64,
)
    requires
        report_phase(phase),
    ensures
        initial(LifecycleCommand::StatusResponse) == initial(LifecycleCommand::Status),
        report_phase(initial(LifecycleCommand::Status).0),
        transition(LifecycleCommand::StatusResponse, unix, state_dir, phase, event, now) == as_status_answer(
            transition(LifecycleCommand::Status, unix, state_dir, phase, event, now),
        ),
        report_phase(transition(LifecycleCommand::Status, unix, state_dir, phase, event, now).0),
{
}

/// `daemon status` on a state recorded as alive whose daemon does not
/// answer: the artifacts are cleaned up, the stopped state is recorded, and
/// the daemon is reported stopped.
pub proof fn law_status_resets_unreachable_daemon(
    unix: bool,
    dir: Seq<char>,
    s: StateFileView,
    t1: u64,
    t2: u64,
    t3: u64,
    t4: u64,
)
    requires
        is_active(s.state),
    ensures
        ({
            let (p0, a0) = initial(LifecycleCommand::Status);
            let (p1, a1) = transition(LifecycleCommand::Status, unix, dir, p0, EventView::Loaded(s), t1);
            let (p2, a2) = transition(LifecycleCommand::Status, unix, dir, p1, EventView::LiveStatus(None), t2);
            let (p3, a3) = transition(LifecycleCommand::Status, unix, dir, p2, EventView::Completed, t3);
            let (p4, a4) = transition(LifecycleCommand::Status, unix, dir, p3, EventView::Completed, t4);
            &&& a0 == ActionView::LoadState
            &&& a1 == ActionView::QueryLiveStatus
            &&& a2 == ActionView::CleanupArtifacts
            &&& a3 == ActionView::SaveState(stopped_view(dir, unix, t3))
            &&& a4 == ActionView::Finish(
                OutcomeView::Status(status_view(artifacts_of(dir), stopped_view(dir, unix, t3), true, t4)),
            )
            &&& status_view(artifacts_of(dir), stopped_view(dir, unix, t3), true, t4).state == "stopped"@
            &&& p4 == PhaseView::Done
        }),
{
}

/// `daemon stop` on a daemon that does not answer: the artifacts are
/// cleaned up, the stopped state is recorded, and the answer reports the
/// daemon stopped.
pub proof fn law_stop_unreachable_daemon(unix: bool, dir: Seq<char>, t1: u64, t2: u64, t3: u64)
    ensures
        ({
            let (p0, a0) = initial(LifecycleCommand::Stop);
            let (p1, a1) = transition(LifecycleCommand::Stop, unix, dir, p0, EventView::Healthy(false), t1);
            let (p2, a2) = transition(LifecycleCommand::Stop, unix, dir, p1, EventView::Completed, t2);
            let (p3, a3) = transition(LifecycleCommand::Stop, unix, dir, p2, EventView::Completed, t3);
            &&& a0 == ActionView::HealthCheck
            &&& a1 == ActionView::CleanupArtifacts
            &&& a2 == ActionView::SaveState(stopped_view(dir, unix, t2))
            &&& a3 matches ActionView::Finish(OutcomeView::Response(r)) && r.status == "stopped"@ && r.action
                == "stop"@ && r.daemon_status.state == "stopped"@ && r.daemon_status.pid is None
            &&& p3 == PhaseView::Done
        }),
{
}

/// `daemon stop` on a running daemon that accepts the shutdown: it waits
/// for the daemon to go, cleans up, records the stopped state and reports
/// the daemon stopped.
pub proof fn law_stop_running_daemon(unix: bool, dir: Seq<char>, t1: u64, t2: u64, t3: u64, t4: u64, t5: u64)
    ensures
        ({
            let (p0, a0) = initial(LifecycleCommand::Stop);
            let (p1, a1) = transition(LifecycleCommand::Stop, unix, dir, p0, EventView::Healthy(true), t1);
            let (p2, a2) = transition(
                LifecycleCommand::Stop,
                unix,
                dir,
                p1,
                EventView::ShutdownAnswer(ShutdownReplyView::Accepted),
                t2,
            );
            let (p3, a3) = transition(LifecycleCommand::Stop, unix, dir, p2, EventView::Completed, t3);
            let (p4, a4) = transition(LifecycleCommand::Stop, unix, dir, p3, EventView::Completed, t4);
            let (p5, a5) = transition(LifecycleCommand::Stop, unix, dir, p4, EventView::Completed, t5);
            &&& a1 == ActionView::RequestShutdown
            &&& a2 == ActionView::WaitShutdown
            &&& a3 == ActionView::CleanupArtifacts
            &&& a4 == ActionView::SaveState(stopped_view(dir, unix, t4))
            &&& a5 matches ActionView::Finish(OutcomeView::Response(r)) && r.status == "stopped"@ && r.action
                == "stop"@ && r.daemon_status.state == "stopped"@
            &&& p5 == PhaseView::Done
        }),
{
}

/// `daemon start` and the start of `daemon restart`, with a daemon already
/// running and answering: no new daemon is spawned; the running one is
/// reported.
pub proof fn law_start_reuses_running_daemon(
    command: LifecycleCommand,
    unix: bool,
    dir: Seq<char>,
    s: StateFileView,
    st: StatusView,
    t1: u64,
    t2: u64,
    t3: u64,
)
    requires
        command == LifecycleCommand::Start || command == LifecycleCommand::Restart,
        is_active(s.state),
        st.state == "running"@,
    ensures
        ({
            let (p1, a1) = transition(command, unix, dir, PhaseView::Dirs, EventView::Completed, t1);
            let (p2, a2) = transition(command, unix, dir, p1, EventView::Loaded(s), t2);
            let (p3, a3) = transition(command, unix, dir, p2, EventView::LiveStatus(Some(st)), t3);
            &&& a1 == ActionView::LoadState
            &&& a2 == ActionView::QueryLiveStatus
            &&& a3 == ActionView::Finish(
                OutcomeView::Response(
                    ResponseView {
                        status: "running"@,
                        action: if command == LifecycleCommand::Restart {
                            "restart"@
                        } else {
                            "start"@
                        },
                        daemon_status: st,
                    },
                ),
            )
        }),
{
}

/// `ensure` with a running daemon reports its status and starts nothing.
pub proof fn law_ensure_keeps_running_daemon(unix: bool, dir: Seq<char>, s: StateFileView, st: StatusView, t1: u64, t2: u64)
    requires
        is_active(s.state),
        st.state == "running"@,
    ensures
        ({
            let (p0, a0) = initial(LifecycleCommand::Ensure);
            let (p1, a1) = transition(LifecycleCommand::Ensure, unix, dir, p0, EventView::Loaded(s), t1);
            let (p2, a2) = transition(LifecycleCommand::Ensure, unix, dir, p1, EventView::LiveStatus(Some(st)), t2);
            &&& a0 == ActionView::LoadState
            &&& a1 == ActionView::QueryLiveStatus
            &&& a2 == ActionView::Finish(OutcomeView::Status(st))
        }),
{
}

/// A start whose daemon fails to come up records the failure, with its
/// message, and ends with that message.
pub proof fn law_failed_start_is_recorded(
    command: LifecycleCommand,
    unix: bool,
    dir: Seq<char>,
    m: Seq<char>,
    t1: u64,
    t2: u64,
    t3: u64,
)
    ensures
        ({
            let (p1, a1) = transition(command, unix, dir, PhaseView::Waiting, EventView::Failed(m), t1);
            let (p2, a2) = transition(command, unix, dir, p1, EventView::Completed, t2);
            let (p3, a3) = transition(command, unix, dir, p2, EventView::Completed, t3);
            &&& a1 == ActionView::CleanupArtifacts
            &&& a2 == ActionView::SaveState(failed_view(dir, unix, t2, m, None))
            &&& failed_view(dir, unix, t2, m, None).last_error == m
            &&& a3 == ActionView::Finish(OutcomeView::Failed(m))
        }),
{
}

} // verus!
