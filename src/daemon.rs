//! The daemon's state and the dispatcher that consumes one command at a time.
use vstd::prelude::*;
use crate::clock::now_rfc3339;
use crate::command::{opt_view, Artifact, ArtifactView, Command, CommandFile, CommandView};
use crate::profile::{get_profile_config, resolve_profile, shares_host_network, DiskAccess, NetworkMode};
use crate::sandbox::{plan_view, Namespaces, SandboxStep, StepView};
use crate::text::{cat, copy_strings, owned};

verus! {

/// What the daemon publishes about itself.
#[derive(Clone, Debug)]
pub struct Status {
    pub running: bool,
    pub profile: String,
    pub timestamp: String,
}

pub struct StatusView {
    pub running: bool,
    pub profile: Seq<char>,
    pub timestamp: Seq<char>,
}

impl View for Status {
    type V = StatusView;

    open spec fn view(&self) -> StatusView {
        StatusView { running: self.running, profile: self.profile@, timestamp: self.timestamp@ }
    }
}

/// The daemon's single mutable record: its status and its log buffer.
pub struct DaemonState {
    current_status: Status,
    logs: Vec<String>,
}

pub struct DaemonView {
    pub status: StatusView,
    pub logs: Seq<Seq<char>>,
}

impl View for DaemonState {
    type V = DaemonView;

    closed spec fn view(&self) -> DaemonView {
        DaemonView { status: self.current_status@, logs: self.logs.deep_view() }
    }
}

/// The profile recorded before any start.
pub open spec fn initial_profile() -> Seq<char> {
    "none"@
}

pub open spec fn start_entry(profile: Seq<char>) -> Seq<char> {
    "Started with profile: "@ + profile
}

pub open spec fn stop_entry() -> Seq<char> {
    "Stopped"@
}

pub open spec fn failed_entry(module: Seq<char>) -> Seq<char> {
    "Module failed: "@ + module
}

pub open spec fn output_entry(output: Seq<char>) -> Seq<char> {
    "Module output: "@ + output
}

/// The state after `start(profile)` at time `t`.
pub open spec fn start_spec(s: DaemonView, profile: Seq<char>, t: Seq<char>) -> DaemonView {
    DaemonView {
        status: StatusView { running: true, profile, timestamp: t },
        logs: s.logs.push(start_entry(profile)),
    }
}

/// The state after `stop()` at time `t`: the profile is kept.
pub open spec fn stop_spec(s: DaemonView, t: Seq<char>) -> DaemonView {
    DaemonView {
        status: StatusView { running: false, profile: s.status.profile, timestamp: t },
        logs: s.logs.push(stop_entry()),
    }
}

/// The state after a module launch has ended.
pub open spec fn finish_spec(
    s: DaemonView,
    module: Seq<char>,
    succeeded: bool,
    output: Option<Seq<char>>,
) -> DaemonView {
    let logs1 = if succeeded { s.logs } else { s.logs.push(failed_entry(module)) };
    let logs2 = match output {
        Some(o) => logs1.push(output_entry(o)),
        None => logs1,
    };
    DaemonView { status: s.status, logs: logs2 }
}

impl DaemonState {
    /// A daemon that is not running, under the profile `"none"`.
    pub fn new(timestamp: String) -> (r: DaemonState)
        ensures
            r@.status == (StatusView { running: false, profile: initial_profile(), timestamp: timestamp@ }),
            r@.logs == Seq::<Seq<char>>::empty(),
    {
        let r = DaemonState {
            current_status: Status { running: false, profile: owned("none"), timestamp },
            logs: Vec::new(),
        };
        assert(r@.logs =~= Seq::<Seq<char>>::empty());
        r
    }

    /// A daemon that is not running, under the profile `"none"`, stamped now.
    pub fn new_now() -> (r: DaemonState)
        ensures
            !r@.status.running,
            r@.status.profile == initial_profile(),
            r@.status.timestamp.len() > 0,
            r@.logs == Seq::<Seq<char>>::empty(),
    {
        DaemonState::new(now_rfc3339())
    }

    /// A copy of the current status.
    pub fn status(&self) -> (r: Status)
        ensures
            r@ == self@.status,
    {
        Status {
            running: self.current_status.running,
            profile: self.current_status.profile.clone(),
            timestamp: self.current_status.timestamp.clone(),
        }
    }

    /// Every log entry so far, in the order in which it was appended.
    pub fn logs(&self) -> (r: Vec<String>)
        ensures
            r.deep_view() == self@.logs,
    {
        copy_strings(&self.logs)
    }

    fn append_log(&mut self, entry: String)
        ensures
            final(self)@.status == old(self)@.status,
            final(self)@.logs == old(self)@.logs.push(entry@),
    {
        self.logs.push(entry);
        assert(self.logs.deep_view() =~= old(self).logs.deep_view().push(entry@));
    }

    /// Marks the daemon running under `profile` at time `timestamp`, and logs it.
    /// Any name is accepted; it is resolved against the catalog when used.
    pub fn start(&mut self, profile: &str, timestamp: String)
        ensures
            final(self)@ == start_spec(old(self)@, profile@, timestamp@),
    {
        self.current_status = Status { running: true, profile: owned(profile), timestamp };
        self.append_log(cat("Started with profile: ", profile));
    }

    /// Marks the daemon stopped at time `timestamp`, keeping the profile, and logs it.
    pub fn stop(&mut self, timestamp: String)
        ensures
            final(self)@ == stop_spec(old(self)@, timestamp@),
    {
        self.current_status.running = false;
        self.current_status.timestamp = timestamp;
        self.append_log(owned("Stopped"));
    }

    /// Records the end of a module launch: a failure, and the module's
    /// result when it left a well-formed one.
    pub fn finish_module(&mut self, module: &str, succeeded: bool, output: Option<String>)
        ensures
            final(self)@ == finish_spec(old(self)@, module@, succeeded, opt_view(output)),
    {
        if !succeeded {
            self.append_log(cat("Module failed: ", module));
        }
        match output {
            Some(o) => {
                self.append_log(cat("Module output: ", o.as_str()));
            },
            None => {},
        }
    }
}

} // verus!

verus! {

/// A module run that the dispatcher asks for.
#[derive(Clone, Debug)]
pub struct ModuleLaunch {
    pub module: String,
    pub args: Vec<String>,
    pub profile: String,
}

pub struct LaunchView {
    pub module: Seq<char>,
    pub args: Seq<Seq<char>>,
    pub profile: Seq<char>,
}

impl View for ModuleLaunch {
    type V = LaunchView;

    open spec fn view(&self) -> LaunchView {
        LaunchView { module: self.module@, args: self.args.deep_view(), profile: self.profile@ }
    }
}

/// What the caller must do after a command was consumed.
#[derive(Clone, Debug)]
pub enum Action {
    Nothing,
    /// Write the status artifact.
    PersistStatus(Status),
    /// Write the logs artifact with these entries.
    PersistLogs(Vec<String>),
    /// Run a module in a sandbox, wait for it, then call `finish_module`.
    Launch(ModuleLaunch),
}

pub enum ActionView {
    Nothing,
    PersistStatus(StatusView),
    PersistLogs(Seq<Seq<char>>),
    Launch(LaunchView),
}

impl View for Action {
    type V = ActionView;

    open spec fn view(&self) -> ActionView {
        match self {
            Action::Nothing => ActionView::Nothing,
            Action::PersistStatus(s) => ActionView::PersistStatus(s@),
            Action::PersistLogs(l) => ActionView::PersistLogs(l.deep_view()),
            Action::Launch(l) => ActionView::Launch(l@),
        }
    }
}

/// The result of consuming one observed command file.
#[derive(Clone, Debug)]
pub struct Outcome {
    pub action: Action,
    /// Whether the command file is to be deleted (the acknowledgment).
    pub delete: bool,
}

pub struct OutcomeView {
    pub action: ActionView,
    pub delete: bool,
}

impl View for Outcome {
    type V = OutcomeView;

    open spec fn view(&self) -> OutcomeView {
        OutcomeView { action: self.action@, delete: self.delete }
    }
}

/// The dispatcher as a function: the state after consuming the observed
/// command file, and what the caller is to do. A file that is gone has no
/// effect; any file that is there is deleted, whether or not it parsed.
pub open spec fn dispatch(
    s: DaemonView,
    file: CommandFile,
    a: ArtifactView,
    t: Seq<char>,
) -> (DaemonView, OutcomeView) {
    let done = OutcomeView { action: ActionView::Nothing, delete: true };
    match a {
        ArtifactView::Missing => (s, OutcomeView { action: ActionView::Nothing, delete: false }),
        _ => match file {
            CommandFile::Start => match a {
                ArtifactView::Parsed(c) => match c.profile {
                    Some(p) => {
                        let s2 = start_spec(s, p, t);
                        (s2, OutcomeView { action: ActionView::PersistStatus(s2.status), delete: true })
                    },
                    None => (s, done),
                },
                _ => (s, done),
            },
            CommandFile::Stop => {
                let s2 = stop_spec(s, t);
                (s2, OutcomeView { action: ActionView::PersistStatus(s2.status), delete: true })
            },
            CommandFile::LogsRequest => (
                s,
                OutcomeView { action: ActionView::PersistLogs(s.logs), delete: true },
            ),
            CommandFile::RunModule => match a {
                ArtifactView::Parsed(c) => match (c.module, c.args) {
                    (Some(m), Some(args)) => {
                        let p = match c.profile {
                            Some(p) => p,
                            None => s.status.profile,
                        };
                        (
                            s,
                            OutcomeView {
                                action: ActionView::Launch(LaunchView { module: m, args, profile: p }),
                                delete: true,
                            },
                        )
                    },
                    _ => (s, done),
                },
                _ => (s, done),
            },
        },
    }
}

impl DaemonState {
    /// Consumes one observed command file at time `timestamp`.
    pub fn process_command_at(&mut self, file: CommandFile, artifact: Artifact, timestamp: String) -> (r: Outcome)
        ensures
            (final(self)@, r@) == dispatch(old(self)@, file, artifact@, timestamp@),
    {
        match artifact {
            Artifact::Missing => Outcome { action: Action::Nothing, delete: false },
            Artifact::Unparsed => match file {
                CommandFile::Stop => {
                    self.stop(timestamp);
                    Outcome { action: Action::PersistStatus(self.status()), delete: true }
                },
                CommandFile::LogsRequest => Outcome { action: Action::PersistLogs(self.logs()), delete: true },
                _ => Outcome { action: Action::Nothing, delete: true },
            },
            Artifact::Parsed(c) => match file {
                CommandFile::Start => match c.profile {
                    Some(p) => {
                        self.start(p.as_str(), timestamp);
                        Outcome { action: Action::PersistStatus(self.status()), delete: true }
                    },
                    None => Outcome { action: Action::Nothing, delete: true },
                },
                CommandFile::Stop => {
                    self.stop(timestamp);
                    Outcome { action: Action::PersistStatus(self.status()), delete: true }
                },
                CommandFile::LogsRequest => Outcome { action: Action::PersistLogs(self.logs()), delete: true },
                CommandFile::RunModule => match (c.module, c.args) {
                    (Some(m), Some(args)) => {
                        let profile = match c.profile {
                            Some(p) => p,
                            None => self.current_status.profile.clone(),
                        };
                        let l = ModuleLaunch { module: m, args, profile };
                        Outcome { action: Action::Launch(l), delete: true }
                    },
                    _ => Outcome { action: Action::Nothing, delete: true },
                },
            },
        }
    }

    /// Consumes one observed command file, stamping any status change with
    /// the current time.
    pub fn process_command(&mut self, file: CommandFile, artifact: Artifact) -> (r: Outcome)
        ensures
            exists|t: Seq<char>| t.len() > 0 && (final(self)@, r@) == dispatch(old(self)@, file, artifact@, t),
    {
        let t = now_rfc3339();
        let ghost tv = t@;
        let r = self.process_command_at(file, artifact, t);
        assert((final(self)@, r@) == dispatch(old(self)@, file, artifact@, tv));
        r
    }
}

/// Once a command file has been consumed it is acknowledged by deletion
/// whether or not its contents parsed, and observing it again after the
/// deletion changes nothing and deletes nothing.
pub proof fn lemma_artifact_deleted_once(s: DaemonView, file: CommandFile, a: ArtifactView, t: Seq<char>)
    ensures
        dispatch(s, file, a, t).1.delete == !(a is Missing),
        dispatch(dispatch(s, file, a, t).0, file, ArtifactView::Missing, t) == (
            dispatch(s, file, a, t).0,
            OutcomeView { action: ActionView::Nothing, delete: false },
        ),
{
}

/// After `start(p)` the status reads running under `p`; a later `stop()`
/// reads not running, still under `p`.
pub proof fn lemma_start_then_stop(s: DaemonView, p: Seq<char>, t1: Seq<char>, t2: Seq<char>)
    ensures
        start_spec(s, p, t1).status.running,
        start_spec(s, p, t1).status.profile == p,
        !stop_spec(start_spec(s, p, t1), t2).status.running,
        stop_spec(start_spec(s, p, t1), t2).status.profile == p,
{
}

/// The log buffer only grows at its end: every command keeps the entries
/// logged before it, in order, and a logs request hands out exactly the
/// entries logged so far.
pub proof fn lemma_logs_append_only(s: DaemonView, file: CommandFile, a: ArtifactView, t: Seq<char>)
    ensures
        s.logs.is_prefix_of(dispatch(s, file, a, t).0.logs),
        file == CommandFile::LogsRequest && !(a is Missing) ==> dispatch(s, file, a, t).1.action
            == ActionView::PersistLogs(s.logs),
{
    let s2 = dispatch(s, file, a, t).0;
    assert(s.logs =~= s2.logs.subrange(0, s.logs.len() as int));
}

/// Recording the end of a module launch keeps the entries logged before it.
pub proof fn lemma_finish_append_only(s: DaemonView, module: Seq<char>, ok: bool, output: Option<Seq<char>>)
    ensures
        s.logs.is_prefix_of(finish_spec(s, module, ok, output).logs),
        finish_spec(s, module, ok, output).status == s.status,
{
    let l = finish_spec(s, module, ok, output).logs;
    assert(s.logs =~= l.subrange(0, s.logs.len() as int));
}

} // verus!

verus! {

/// The program that runs a module inside the sandbox; it reads the
/// invocation record written just before it is executed.
pub open spec fn module_runner_path() -> Seq<char> {
    "/home/user/.hackeros/Security-Mode/bin/module-runner"@
}

/// The control group that module runs join, and its CPU weight.
pub open spec fn module_cgroup() -> Seq<char> {
    "security_mode"@
}

pub open spec fn module_cpu_shares() -> u64 {
    1024
}

/// The pipeline for a module run: a light sandbox of new user, UTS, network
/// (unless the profile shares the host's network) and mount (unless the
/// profile grants full disk access) namespaces, in a control group, with the
/// profile's disk access and capabilities only.
pub open spec fn module_plan(l: LaunchView, t: Seq<char>, uid: u32, gid: u32) -> Seq<StepView> {
    let cfg = resolve_profile(l.profile);
    seq![
        StepView::Unshare(
            Namespaces {
                user: true,
                net: !shares_host_network(cfg.network),
                uts: true,
                mount: cfg.disk_access != DiskAccess::Full,
                pid: false,
                ipc: false,
            },
        ),
        StepView::MapIds { uid, gid },
        StepView::JoinCgroup { name: module_cgroup(), cpu_shares: module_cpu_shares() },
        StepView::WriteInvocation(
            CommandView {
                command: "run"@,
                profile: Some(l.profile),
                timestamp: t,
                module: Some(l.module),
                args: Some(l.args),
            },
        ),
        StepView::LimitDisk(cfg.disk_access),
        StepView::RestrictCapabilities(cfg.capabilities),
        StepView::Exec { program: module_runner_path(), args: Seq::empty() },
    ]
}

/// The child's pipeline for running `l` at time `timestamp`, for the user
/// with ids `uid` and `gid`.
pub fn launch_plan_at(l: &ModuleLaunch, timestamp: String, uid: u32, gid: u32) -> (r: Vec<SandboxStep>)
    ensures
        plan_view(r@) == module_plan(l@, timestamp@, uid, gid),
{
    let cfg = get_profile_config(l.profile.as_str());
    let net = match cfg.network {
        NetworkMode::Bridge => false,
        _ => true,
    };
    let mount = match cfg.disk_access {
        DiskAccess::Full => false,
        _ => true,
    };
    let ns = Namespaces { user: true, net, uts: true, mount, pid: false, ipc: false };
    let invocation = Command {
        command: owned("run"),
        profile: Some(l.profile.clone()),
        timestamp,
        module: Some(l.module.clone()),
        args: Some(copy_strings(&l.args)),
    };
    let no_args: Vec<String> = Vec::new();
    let r = vec![
        SandboxStep::Unshare(ns),
        SandboxStep::MapIds { uid, gid },
        SandboxStep::JoinCgroup { name: owned("security_mode"), cpu_shares: 1024 },
        SandboxStep::WriteInvocation(invocation),
        SandboxStep::LimitDisk(cfg.disk_access),
        SandboxStep::RestrictCapabilities(cfg.capabilities),
        SandboxStep::Exec { program: owned("/home/user/.hackeros/Security-Mode/bin/module-runner"), args: no_args },
    ];
    assert(no_args.deep_view() =~= Seq::<Seq<char>>::empty());
    assert(plan_view(r@) =~= module_plan(l@, timestamp@, uid, gid));
    r
}

/// The child's pipeline for running `l` now.
pub fn launch_plan(l: &ModuleLaunch, uid: u32, gid: u32) -> (r: Vec<SandboxStep>)
    ensures
        exists|t: Seq<char>| t.len() > 0 && plan_view(r@) == module_plan(l@, t, uid, gid),
{
    let t = now_rfc3339();
    let ghost tv = t@;
    let r = launch_plan_at(l, t, uid, gid);
    assert(plan_view(r@) == module_plan(l@, tv, uid, gid));
    r
}

} // verus!

verus! {

/// A module run applies the resolved profile in full: a network namespace of
/// its own unless the profile shares the host's network, the profile's disk
/// access and then its capabilities before the module runner is executed,
/// which is the last step. Under `monitor-only` that means no network, no
/// disk access and no capabilities.
pub proof fn lemma_module_plan_applies_profile(l: LaunchView, t: Seq<char>, uid: u32, gid: u32)
    ensures
        ({
            let cfg = resolve_profile(l.profile);
            let plan = module_plan(l, t, uid, gid);
            &&& plan.len() == 7
            &&& plan[0] == StepView::Unshare(
                Namespaces {
                    user: true,
                    net: !shares_host_network(cfg.network),
                    uts: true,
                    mount: cfg.disk_access != DiskAccess::Full,
                    pid: false,
                    ipc: false,
                },
            )
            &&& plan[4] == StepView::LimitDisk(cfg.disk_access)
            &&& plan[5] == StepView::RestrictCapabilities(cfg.capabilities)
            &&& plan[6] == (StepView::Exec { program: module_runner_path(), args: Seq::empty() })
        }),
        l.profile == "monitor-only"@ ==> {
            let plan = module_plan(l, t, uid, gid);
            &&& plan[0] == StepView::Unshare(
                Namespaces { user: true, net: true, uts: true, mount: true, pid: false, ipc: false },
            )
            &&& plan[4] == StepView::LimitDisk(DiskAccess::NoAccess)
            &&& plan[5] == StepView::RestrictCapabilities(Seq::empty())
        },
{
    reveal_strlit("monitor-only");
    reveal_strlit("aggressive");
    assert("monitor-only"@[0] != "aggressive"@[0]);
}

} // verus!
