//! The process supervisor and lifecycle orchestrator: the single record of the
//! running sidecar, and the decisions of start, stop, reload, termination
//! handling and the liveness probe.

use vstd::prelude::*;
use crate::app_status::LogType;
use crate::mode::{Platform, ProxyMode};
use crate::vpn::{
    command_views, privileged_launch, shell_command, shell_view, spec_privileged_launch,
    sudo_script, sudo_script_spec, tun_stop, CommandSpec, CommandView, ElevatedCommand,
    PrivilegedLaunch, TunStop,
};

verus! {

/// Returned by a start in TUN mode when no privilege credential is stored, so
/// that the caller can ask for one instead of reporting a failure.
pub const REQUIRE_PRIVILEGE: &'static str = "REQUIRE_PRIVILEGE";

/// Logical name of the proxy sidecar.
pub const SIDECAR: &'static str = "sing-box";

/// Name of the event that tells listeners the proxy status changed.
pub const STATUS_CHANGED: &'static str = "status-changed";

/// Wait after starting a child process that the host supervises.
pub const MANAGED_SETTLE_MS: u64 = 1500;

/// Wait after starting the sidecar through the native elevation dialog.
pub const ELEVATED_SETTLE_MS: u64 = 1000;

/// Wait after asking the child to terminate.
pub const STOP_GRACE_MS: u64 = 500;

/// Reload refused: nothing is recorded.
pub const NO_RUNNING_PROCESS: &'static str = "No running process found";

/// Reload refused: TUN mode was asked for, the session is in system-proxy mode.
pub const NOT_TUN_MODE: &'static str = "current mode is not TUN mode";

/// Reload refused: system-proxy mode was asked for, the session is in TUN mode.
pub const NOT_SYSTEM_PROXY_MODE: &'static str = "current mode is not System Proxy mode";

/// Stop refused: a TUN session cannot be stopped without its credential.
pub const NO_TUN_CREDENTIAL: &'static str = "No privilege credential is held for the TUN session";

/// The sidecar acknowledged the reload signal.
pub const RELOADED: &'static str = "Configuration reloaded successfully";

/// The restart was handed to the elevation dialog; its outcome is not known.
pub const RESTART_ATTEMPTED: &'static str = "Configuration reload attempted by restarting process";

/// Whether starting in `mode` needs the stored privilege credential.
pub open spec fn needs_credential(platform: Platform, mode: ProxyMode) -> bool {
    platform.spec_is_unix() && mode == ProxyMode::TunProxy
}

/// Whether the caller must read the secret store before a start.
pub fn needs_stored_password(platform: Platform, mode: ProxyMode) -> (r: bool)
    ensures
        r == needs_credential(platform, mode),
{
    platform.is_unix() && matches!(mode, ProxyMode::TunProxy)
}

/// Resolves the credential for a start: TUN mode on a Unix-like system takes
/// the stored one and fails with `REQUIRE_PRIVILEGE` when it is empty; every
/// other start runs with no credential.
pub fn get_password_for_mode(platform: Platform, mode: ProxyMode, stored: &str) -> (r: Result<String, String>)
    ensures
        needs_credential(platform, mode) && stored@.len() == 0 ==> (r matches Err(e) && e@
            == REQUIRE_PRIVILEGE@),
        needs_credential(platform, mode) && stored@.len() > 0 ==> (r matches Ok(p) && p@
            == stored@),
        !needs_credential(platform, mode) ==> (r matches Ok(p) && p@.len() == 0),
{
    if needs_stored_password(platform, mode) {
        if stored.unicode_len() == 0 {
            Err(String::from_str(REQUIRE_PRIVILEGE))
        } else {
            Ok(String::from_str(stored))
        }
    } else {
        Ok(String::new())
    }
}

/// What a start does once the credential is known.
pub struct LaunchPlan {
    /// Run to completion first; failures are ignored.
    pub prepare: Vec<CommandSpec>,
    /// Spawned as a supervised child; its output goes to an observer.
    pub child: Option<CommandSpec>,
    /// Handed to the native elevation dialog; no handle comes back.
    pub elevated: Option<ElevatedCommand>,
    /// After recording the session: set the system proxy (`true`) or clear it.
    pub proxy_on: bool,
    /// Wait before reporting success.
    pub settle_ms: u64,
}

/// `sing-box run -c <path> --disable-color`, as a bundled sidecar.
pub open spec fn sidecar_run_view(path: Seq<char>) -> CommandView {
    CommandView {
        program: SIDECAR@,
        args: seq!["run"@, "-c"@, path, "--disable-color"@],
        bundled: true,
    }
}

/// Builds the direct, unprivileged launch of the sidecar.
pub fn sidecar_run_command(path: &str) -> (r: CommandSpec)
    ensures
        r@ == sidecar_run_view(path@),
{
    let mut args: Vec<String> = Vec::new();
    args.push(String::from_str("run"));
    args.push(String::from_str("-c"));
    args.push(String::from_str(path));
    args.push(String::from_str("--disable-color"));
    let r = CommandSpec { program: String::from_str(SIDECAR), args, bundled: true };
    assert(r@.args =~= sidecar_run_view(path@).args);
    r
}

/// A start in system-proxy mode: the sidecar runs unprivileged as a child,
/// and the system proxy is then pointed at it.
pub fn plan_system_start(config_path: &str) -> (r: LaunchPlan)
    ensures
        r.prepare@.len() == 0,
        r.child matches Some(c) && c@ == sidecar_run_view(config_path@),
        r.elevated is None,
        r.proxy_on,
        r.settle_ms == MANAGED_SETTLE_MS,
{
    LaunchPlan {
        prepare: Vec::new(),
        child: Some(sidecar_run_command(config_path)),
        elevated: None,
        proxy_on: true,
        settle_ms: MANAGED_SETTLE_MS,
    }
}

/// A start in TUN mode: the platform's elevated launch, after which the
/// system proxy is cleared, since the virtual interface captures the traffic.
/// The wait is longer when the host supervises the child.
pub fn plan_tun_start(
    platform: Platform,
    sidecar_path: &str,
    config_path: &str,
    password: &str,
    bypass_router: Option<bool>,
) -> (r: LaunchPlan)
    ensures
        ({
            let l = spec_privileged_launch(
                platform,
                sidecar_path@,
                config_path@,
                password@,
                bypass_router,
            );
            &&& command_views(r.prepare@) == l.prepare
            &&& (match r.child {
                Some(c) => Some(c@),
                None => None,
            }) == l.child
            &&& (match r.elevated {
                Some(e) => Some(e@),
                None => None,
            }) == l.elevated
            &&& !r.proxy_on
            &&& r.settle_ms == if l.child is Some {
                MANAGED_SETTLE_MS
            } else {
                ELEVATED_SETTLE_MS
            }
        }),
{
    let launch = privileged_launch(platform, sidecar_path, config_path, password, bypass_router);
    let settle_ms = if launch.child.is_some() {
        MANAGED_SETTLE_MS
    } else {
        ELEVATED_SETTLE_MS
    };
    let PrivilegedLaunch { prepare, child, elevated } = launch;
    LaunchPlan { prepare, child, elevated, proxy_on: false, settle_ms }
}

/// How a start ends once the system proxy step has run.
#[derive(PartialEq, Eq, Debug)]
pub enum StartCompletion {
    /// The proxy step failed: run the full stop sequence, then report `error`.
    RollBack { error: String },
    /// Wait `delay_ms`, then report success and notify listeners.
    Settle { delay_ms: u64 },
}

/// The last decision of a start: a failed proxy step rolls the start back,
/// a successful one leads to the settle wait of the plan.
pub fn finish_start(plan: &LaunchPlan, proxy_result: Result<(), String>) -> (r: StartCompletion)
    ensures
        proxy_result matches Err(e) ==> r == (StartCompletion::RollBack { error: e }),
        proxy_result is Ok ==> r == (StartCompletion::Settle { delay_ms: plan.settle_ms }),
{
    match proxy_result {
        Err(error) => StartCompletion::RollBack { error },
        Ok(()) => StartCompletion::Settle { delay_ms: plan.settle_ms },
    }
}

/// The single record of the running sidecar. `H` is the host's handle on a
/// spawned child process.
pub struct ProcessRecord<H> {
    /// The supervised child, when the host holds one.
    pub child: Option<H>,
    /// The mode of the recorded session, `None` when idle.
    pub current_mode: Option<ProxyMode>,
    /// The credential a TUN session was started with; needed to stop it.
    pub tun_password: Option<String>,
    /// The configuration the session runs, kept for a restart.
    pub config_path: Option<String>,
    /// Counts the sessions begun; tells a session's events from a later one's.
    pub generation: u64,
}

/// What tearing the recorded session down takes.
pub enum StopPlan<H> {
    /// Nothing was recorded.
    Idle,
    /// Clear the system proxy, then terminate the child if one is held and
    /// wait the grace period.
    SystemProxy { child: Option<H> },
    /// Stop the elevated sidecar with the session's credential.
    TunProxy { password: Option<String> },
}

impl<H> StopPlan<H> {
    pub open spec fn unsets_system_proxy(self) -> bool {
        self is SystemProxy
    }
}

/// What the termination of a supervised child leads to.
#[derive(PartialEq, Eq, Debug)]
pub enum TerminationAction {
    /// The child belonged to a session that was stopped or superseded.
    Skip,
    /// The record was cleared: clear the system proxy when asked, then notify
    /// listeners with the exit code.
    Cleanup { unset_system_proxy: bool, exit_code: Option<i32> },
}

/// The generation that follows `g`.
pub open spec fn next_generation(g: u64) -> u64 {
    if g == u64::MAX {
        0
    } else {
        (g + 1) as u64
    }
}

impl<H> ProcessRecord<H> {
    /// Mode, credential and path agree with one another.
    pub open spec fn wf(self) -> bool {
        &&& self.current_mode is None ==> self.child is None && self.tun_password is None
            && self.config_path is None
        &&& self.current_mode is Some ==> self.config_path is Some
        &&& self.current_mode == Some(ProxyMode::SystemProxy) ==> self.tun_password is None
        &&& self.current_mode == Some(ProxyMode::TunProxy) ==> self.tun_password is Some
    }

    pub open spec fn is_idle(self) -> bool {
        &&& self.child is None
        &&& self.current_mode is None
        &&& self.tun_password is None
        &&& self.config_path is None
    }

    /// The record after a session in `mode` was begun; the credential is kept
    /// for TUN mode only.
    pub open spec fn began(
        self,
        mode: ProxyMode,
        path: String,
        password: String,
        child: Option<H>,
    ) -> ProcessRecord<H> {
        ProcessRecord {
            child,
            current_mode: Some(mode),
            tun_password: if mode == ProxyMode::TunProxy {
                Some(password)
            } else {
                None
            },
            config_path: Some(path),
            generation: next_generation(self.generation),
        }
    }

    /// The record with the session forgotten; the generation stays.
    pub open spec fn cleared(self) -> ProcessRecord<H> {
        ProcessRecord {
            child: None,
            current_mode: None,
            tun_password: None,
            config_path: None,
            generation: self.generation,
        }
    }

    pub open spec fn spec_stop_plan(self) -> StopPlan<H> {
        match self.current_mode {
            None => StopPlan::Idle,
            Some(ProxyMode::SystemProxy) => StopPlan::SystemProxy { child: self.child },
            Some(ProxyMode::TunProxy) => StopPlan::TunProxy { password: self.tun_password },
        }
    }

    /// Whether the session started in `mode` as `generation` is the one recorded.
    pub open spec fn owns(self, mode: ProxyMode, generation: u64) -> bool {
        self.current_mode == Some(mode) && self.generation == generation
    }

    pub open spec fn after_termination(self, mode: ProxyMode, generation: u64) -> ProcessRecord<H> {
        if self.owns(mode, generation) {
            self.cleared()
        } else {
            self
        }
    }

    pub open spec fn spec_termination(
        self,
        mode: ProxyMode,
        generation: u64,
        exit_code: Option<i32>,
    ) -> TerminationAction {
        if self.owns(mode, generation) {
            TerminationAction::Cleanup {
                unset_system_proxy: mode == ProxyMode::SystemProxy,
                exit_code,
            }
        } else {
            TerminationAction::Skip
        }
    }

    /// An empty record.
    pub fn new() -> (r: ProcessRecord<H>)
        ensures
            r.is_idle(),
            r.wf(),
            r.generation == 0,
    {
        ProcessRecord {
            child: None,
            current_mode: None,
            tun_password: None,
            config_path: None,
            generation: 0,
        }
    }

    /// Records a new session, superseding any recorded one: events of the
    /// superseded session no longer match the record. Returns the superseded
    /// child, which the caller terminates.
    pub fn begin_session(
        &mut self,
        mode: ProxyMode,
        path: String,
        password: String,
        child: Option<H>,
    ) -> (r: Option<H>)
        ensures
            *final(self) == old(self).began(mode, path, password, child),
            final(self).wf(),
            r == old(self).child,
    {
        let previous = self.child.take();
        self.child = child;
        self.current_mode = Some(mode);
        self.config_path = Some(path);
        self.tun_password = match mode {
            ProxyMode::TunProxy => Some(password),
            ProxyMode::SystemProxy => None,
        };
        self.generation = if self.generation == u64::MAX {
            0
        } else {
            self.generation + 1
        };
        previous
    }

    /// Takes the session out of the record in one step, so that a later
    /// termination event finds nothing to clean up, and says how to tear it
    /// down.
    pub fn take_for_stop(&mut self) -> (r: StopPlan<H>)
        ensures
            *final(self) == old(self).cleared(),
            final(self).is_idle(),
            final(self).wf(),
            r == old(self).spec_stop_plan(),
    {
        let child = self.child.take();
        let mode = self.current_mode.take();
        let password = self.tun_password.take();
        self.config_path = None;
        match mode {
            None => StopPlan::Idle,
            Some(ProxyMode::SystemProxy) => StopPlan::SystemProxy { child },
            Some(ProxyMode::TunProxy) => StopPlan::TunProxy { password },
        }
    }

    /// Handles the termination of the child started in `mode` as `generation`:
    /// the record is cleared only if that session is still the recorded one.
    pub fn on_terminated(&mut self, mode: ProxyMode, generation: u64, exit_code: Option<i32>) -> (r:
        TerminationAction)
        ensures
            *final(self) == old(self).after_termination(mode, generation),
            r == old(self).spec_termination(mode, generation, exit_code),
            old(self).wf() ==> final(self).wf(),
    {
        let owned = match self.current_mode {
            Some(m) => m == mode && self.generation == generation,
            None => false,
        };
        if owned {
            self.child = None;
            self.current_mode = None;
            self.tun_password = None;
            self.config_path = None;
            TerminationAction::Cleanup {
                unset_system_proxy: matches!(mode, ProxyMode::SystemProxy),
                exit_code,
            }
        } else {
            TerminationAction::Skip
        }
    }
}

/// The stop of a TUN session: the platform's elevated stop with the session's
/// credential. Without a credential the session cannot be stopped.
pub fn tun_stop_for(platform: Platform, password: Option<String>) -> (r: Result<TunStop, String>)
    ensures
        password is None ==> (r matches Err(e) && e@ == NO_TUN_CREDENTIAL@),
        password matches Some(p) ==> (r matches Ok(t) && command_views(t.commands@)
            == crate::vpn::spec_tun_stop_commands(platform, p@) && (platform.spec_is_unix()
            <==> t.elevated is None)),
{
    match password {
        None => Err(String::from_str(NO_TUN_CREDENTIAL)),
        Some(p) => Ok(tun_stop(platform, p.as_str())),
    }
}

/// How a configuration reload is carried out.
pub enum ReloadPlan {
    /// Send SIGHUP to the sidecar by name; `with_sudo` when through `sudo`.
    Signal { command: CommandSpec, with_sudo: bool },
    /// No reload signal exists: stop the sidecar and start it again with the
    /// recorded configuration.
    Restart { config_path: String },
}

/// `pkill -HUP sing-box`.
pub open spec fn hangup_view() -> CommandView {
    CommandView { program: "pkill"@, args: seq!["-HUP"@, SIDECAR@], bundled: false }
}

fn hangup_command() -> (r: CommandSpec)
    ensures
        r@ == hangup_view(),
{
    let mut args: Vec<String> = Vec::new();
    args.push(String::from_str("-HUP"));
    args.push(String::from_str(SIDECAR));
    let r = CommandSpec { program: String::from_str("pkill"), args, bundled: false };
    assert(r@.args =~= hangup_view().args);
    r
}

impl<H> ProcessRecord<H> {
    /// The reload that the record allows: the requested mode must be the
    /// recorded one. On Unix-like systems the sidecar gets SIGHUP, through
    /// `sudo` for a TUN session with a credential; elsewhere it is restarted
    /// with the recorded configuration.
    pub fn plan_reload(&self, platform: Platform, is_tun: bool) -> (r: Result<ReloadPlan, String>)
        ensures
            self.current_mode is None ==> (r matches Err(e) && e@ == NO_RUNNING_PROCESS@),
            self.current_mode == Some(ProxyMode::SystemProxy) && is_tun ==> (r matches Err(e)
                && e@ == NOT_TUN_MODE@),
            self.current_mode == Some(ProxyMode::TunProxy) && !is_tun ==> (r matches Err(e) && e@
                == NOT_SYSTEM_PROXY_MODE@),
            self.current_mode is Some && (self.current_mode == Some(ProxyMode::TunProxy))
                == is_tun ==> r is Ok,
            r matches Ok(plan) ==> match plan {
                ReloadPlan::Signal { command, with_sudo } => {
                    &&& platform.spec_is_unix()
                    &&& with_sudo <==> (is_tun && (self.tun_password matches Some(p) && p@.len()
                        > 0))
                    &&& with_sudo ==> (self.tun_password matches Some(p) && command@ == shell_view(
                        sudo_script_spec(p@, "pkill -HUP sing-box"@),
                    ))
                    &&& !with_sudo ==> command@ == hangup_view()
                },
                ReloadPlan::Restart { config_path } => {
                    &&& platform == Platform::Windows
                    &&& self.config_path matches Some(c) ==> config_path@ == c@
                    &&& self.config_path is None ==> config_path@.len() == 0
                },
            },
    {
        let tun = match self.current_mode {
            None => {
                return Err(String::from_str(NO_RUNNING_PROCESS));
            },
            Some(ProxyMode::TunProxy) => true,
            Some(ProxyMode::SystemProxy) => false,
        };
        if tun != is_tun {
            if is_tun {
                return Err(String::from_str(NOT_TUN_MODE));
            } else {
                return Err(String::from_str(NOT_SYSTEM_PROXY_MODE));
            }
        }
        if platform.is_unix() {
            let credential = match &self.tun_password {
                Some(p) if tun && p.unicode_len() > 0 => Some(p),
                _ => None,
            };
            match credential {
                Some(p) => Ok(
                    ReloadPlan::Signal {
                        command: shell_command(sudo_script(p.as_str(), "pkill -HUP sing-box")),
                        with_sudo: true,
                    },
                ),
                None => Ok(ReloadPlan::Signal { command: hangup_command(), with_sudo: false }),
            }
        } else {
            let config_path = match &self.config_path {
                Some(c) => c.clone(),
                None => String::new(),
            };
            Ok(ReloadPlan::Restart { config_path })
        }
    }
}

/// The result of a reload signal, from how the signalling command went:
/// `Err` when it could not be started, else its success flag and error output.
pub fn reload_outcome(with_sudo: bool, run: Result<(bool, String), String>) -> (r: Result<String, String>)
    ensures
        run matches Ok((true, _)) ==> (r matches Ok(m) && m@ == RELOADED@),
        run matches Ok((false, stderr)) ==> (r matches Err(e) && e@ == "Failed to reload config: "@
            + stderr@),
        run matches Err(cause) ==> (r matches Err(e) && e@ == (if with_sudo {
            "Failed to send SIGHUP signal with sudo: "@
        } else {
            "Failed to send SIGHUP signal: "@
        }) + cause@),
{
    match run {
        Ok((true, _)) => Ok(String::from_str(RELOADED)),
        Ok((false, stderr)) => Err(String::from_str("Failed to reload config: ").concat(stderr.as_str())),
        Err(cause) => {
            let prefix = if with_sudo {
                String::from_str("Failed to send SIGHUP signal with sudo: ")
            } else {
                String::from_str("Failed to send SIGHUP signal: ")
            };
            Err(prefix.concat(cause.as_str()))
        },
    }
}

/// What the sidecar's output stream delivers.
pub enum OutputEvent {
    Stdout(String),
    Stderr(String),
    Error(String),
    Terminated(Option<i32>),
    Other,
}

/// What the observer does with an event.
#[derive(PartialEq, Eq, Debug)]
pub enum ObserverAction {
    /// Append the line to the bounded log of its category.
    Append(LogType, String),
    /// The child ended: run the termination handling of the record, once.
    Terminated(Option<i32>),
    /// Only write it to the diagnostic log.
    LogOnly,
}

/// Watches the output of one supervised child for its whole lifetime.
pub struct OutputObserver {
    /// The mode the child was started in.
    pub mode: ProxyMode,
    /// The generation of the session the child belongs to.
    pub generation: u64,
    /// Set once the termination event has been handled.
    pub terminated: bool,
}

impl OutputObserver {
    pub open spec fn spec_action(self, event: OutputEvent) -> ObserverAction {
        if self.terminated {
            ObserverAction::LogOnly
        } else {
            match event {
                OutputEvent::Stdout(line) => ObserverAction::Append(LogType::Info, line),
                OutputEvent::Stderr(line) => ObserverAction::Append(LogType::Info, line),
                OutputEvent::Error(err) => ObserverAction::Append(LogType::Error, err),
                OutputEvent::Terminated(code) => ObserverAction::Terminated(code),
                OutputEvent::Other => ObserverAction::LogOnly,
            }
        }
    }

    pub fn new(mode: ProxyMode, generation: u64) -> (r: OutputObserver)
        ensures
            r.mode == mode,
            r.generation == generation,
            !r.terminated,
    {
        OutputObserver { mode, generation, terminated: false }
    }

    /// Classifies an event. Output lines are informational and process errors
    /// are errors; after the first termination event everything is log-only,
    /// so the cleanup runs at most once.
    pub fn observe(&mut self, event: OutputEvent) -> (r: ObserverAction)
        ensures
            r == old(self).spec_action(event),
            final(self).mode == old(self).mode,
            final(self).generation == old(self).generation,
            final(self).terminated == (old(self).terminated || event is Terminated),
    {
        if self.terminated {
            return ObserverAction::LogOnly;
        }
        match event {
            OutputEvent::Stdout(line) => ObserverAction::Append(LogType::Info, line),
            OutputEvent::Stderr(line) => ObserverAction::Append(LogType::Info, line),
            OutputEvent::Error(err) => ObserverAction::Append(LogType::Error, err),
            OutputEvent::Terminated(code) => {
                self.terminated = true;
                ObserverAction::Terminated(code)
            },
            OutputEvent::Other => ObserverAction::LogOnly,
        }
    }
}

/// Address of the sidecar's control interface.
pub const CONTROL_ADDR: &'static str = "127.0.0.1:9191";

/// The authenticated endpoint that answers when the sidecar is up.
pub const VERSION_URL: &'static str = "http://127.0.0.1:9191/version";

/// Budget of the raw connection attempt that comes first.
pub const PORT_PROBE_TIMEOUT_MS: u64 = 100;

/// Budget of the authenticated request.
pub const REQUEST_TIMEOUT_MS: u64 = 1000;

/// The next step of the liveness probe.
pub enum ProbeStep {
    /// Try a raw connection to `addr`, giving up after `timeout_ms`.
    Connect { addr: String, timeout_ms: u64 },
    /// Send an authenticated GET to `url`, giving up after `timeout_ms`.
    Request { url: String, authorization: String, timeout_ms: u64 },
    /// The probe is over.
    Done(bool),
}

/// The `Authorization` header value for the control interface.
pub fn authorization_header(secret: &str) -> (r: String)
    ensures
        r@ == "Bearer "@ + secret@,
{
    String::from_str("Bearer ").concat(secret)
}

/// The probe starts with a short raw connection attempt.
pub fn liveness_start() -> (r: ProbeStep)
    ensures
        r matches ProbeStep::Connect { addr, timeout_ms } && addr@ == CONTROL_ADDR@ && timeout_ms
            == PORT_PROBE_TIMEOUT_MS,
{
    ProbeStep::Connect { addr: String::from_str(CONTROL_ADDR), timeout_ms: PORT_PROBE_TIMEOUT_MS }
}

/// After the connection attempt: when nothing listens the probe ends at once
/// with `false`; otherwise the version endpoint is asked, with the secret.
pub fn liveness_after_connect(connected: bool, secret: &str) -> (r: ProbeStep)
    ensures
        !connected ==> r == ProbeStep::Done(false),
        connected ==> (r matches ProbeStep::Request { url, authorization, timeout_ms } && url@
            == VERSION_URL@ && authorization@ == "Bearer "@ + secret@ && timeout_ms
            == REQUEST_TIMEOUT_MS),
{
    if connected {
        ProbeStep::Request {
            url: String::from_str(VERSION_URL),
            authorization: authorization_header(secret),
            timeout_ms: REQUEST_TIMEOUT_MS,
        }
    } else {
        ProbeStep::Done(false)
    }
}

/// After the request: alive only on a 200 answer. `status` is `None` when the
/// request failed.
pub fn liveness_after_request(status: Option<u16>) -> (r: bool)
    ensures
        r == (status == Some(200u16)),
{
    match status {
        Some(code) => code == 200,
        None => false,
    }
}

/// A session begun in system-proxy mode ends with the system proxy cleared and
/// the record idle, whether it is stopped, or its child terminates first and
/// it is stopped afterwards.
pub proof fn lemma_system_session_ends_idle<H>(
    r: ProcessRecord<H>,
    path: String,
    password: String,
    child: Option<H>,
    exit_code: Option<i32>,
)
    ensures
        ({
            let s = r.began(ProxyMode::SystemProxy, path, password, child);
            let crashed = s.after_termination(ProxyMode::SystemProxy, s.generation);
            &&& s.spec_stop_plan() == StopPlan::SystemProxy { child }
            &&& s.spec_stop_plan().unsets_system_proxy()
            &&& s.cleared().is_idle()
            &&& s.spec_termination(ProxyMode::SystemProxy, s.generation, exit_code)
                == TerminationAction::Cleanup { unset_system_proxy: true, exit_code }
            &&& crashed.is_idle()
            &&& crashed.spec_stop_plan() is Idle
            &&& crashed.cleared().is_idle()
        }),
{
}

/// The credential of a TUN session is held while the session is recorded,
/// handed to the stop, and gone from the record once the stop has taken it.
pub proof fn lemma_tun_stop_clears_credential<H>(
    r: ProcessRecord<H>,
    path: String,
    password: String,
    child: Option<H>,
)
    ensures
        ({
            let s = r.began(ProxyMode::TunProxy, path, password, child);
            &&& s.tun_password == Some(password)
            &&& s.spec_stop_plan() == StopPlan::<H>::TunProxy { password: Some(password) }
            &&& s.cleared().tun_password is None
            &&& s.cleared().is_idle()
        }),
{
}

/// A second start supersedes the first: the termination of the first
/// session's child leaves the record alone while the second session runs, and
/// after it has ended, by a stop or by its own termination.
pub proof fn lemma_second_start_supersedes_first<H>(
    r: ProcessRecord<H>,
    mode1: ProxyMode,
    path1: String,
    password1: String,
    child1: Option<H>,
    mode2: ProxyMode,
    path2: String,
    password2: String,
    child2: Option<H>,
    exit_code: Option<i32>,
)
    ensures
        ({
            let first = r.began(mode1, path1, password1, child1);
            let second = first.began(mode2, path2, password2, child2);
            let stopped = second.cleared();
            let crashed = second.after_termination(mode2, second.generation);
            &&& second.generation != first.generation
            &&& second.after_termination(mode1, first.generation) == second
            &&& second.spec_termination(mode1, first.generation, exit_code)
                == TerminationAction::Skip
            &&& stopped.after_termination(mode1, first.generation) == stopped
            &&& crashed.after_termination(mode1, first.generation) == crashed
        }),
{
}

/// A termination event that does not belong to the recorded session, by mode
/// or by generation, leaves the record untouched and triggers no cleanup.
pub proof fn lemma_foreign_termination_ignored<H>(
    r: ProcessRecord<H>,
    mode: ProxyMode,
    generation: u64,
    exit_code: Option<i32>,
)
    requires
        r.current_mode != Some(mode) || r.generation != generation,
    ensures
        r.after_termination(mode, generation) == r,
        r.spec_termination(mode, generation, exit_code) == TerminationAction::Skip,
{
}

} // verus!
