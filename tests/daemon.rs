use security_mode::command::{command_file, Artifact, Command, CommandFile};
use security_mode::daemon::{launch_plan, launch_plan_at, Action, DaemonState, ModuleLaunch};
use security_mode::profile::DiskAccess;
use security_mode::sandbox::{Namespaces, SandboxStep};

fn record(command: &str, profile: Option<&str>, module: Option<&str>, args: Option<Vec<&str>>) -> Command {
    Command {
        command: command.to_string(),
        profile: profile.map(|p| p.to_string()),
        timestamp: "T".to_string(),
        module: module.map(|m| m.to_string()),
        args: args.map(|a| a.into_iter().map(|s| s.to_string()).collect()),
    }
}

fn fresh() -> DaemonState {
    DaemonState::new("T0".to_string())
}

#[test]
fn new_daemon_is_idle_under_none() {
    let d = fresh();
    let s = d.status();
    assert!(!s.running);
    assert_eq!(s.profile, "none");
    assert_eq!(s.timestamp, "T0");
    assert!(d.logs().is_empty());
}

#[test]
fn start_then_stop_keeps_profile() {
    let mut d = fresh();
    d.start("p", "T1".to_string());
    let s = d.status();
    assert!(s.running);
    assert_eq!(s.profile, "p");
    assert_eq!(s.timestamp, "T1");
    d.stop("T2".to_string());
    let s = d.status();
    assert!(!s.running);
    assert_eq!(s.profile, "p");
    assert_eq!(s.timestamp, "T2");
}

#[test]
fn start_twice_overwrites() {
    let mut d = fresh();
    d.start("a", "T1".to_string());
    d.start("b", "T2".to_string());
    let s = d.status();
    assert!(s.running);
    assert_eq!(s.profile, "b");
    assert_eq!(s.timestamp, "T2");
    assert_eq!(d.logs(), vec!["Started with profile: a", "Started with profile: b"]);
}

#[test]
fn command_file_names() {
    assert_eq!(command_file("start.json"), Some(CommandFile::Start));
    assert_eq!(command_file("stop.json"), Some(CommandFile::Stop));
    assert_eq!(command_file("logs_request.json"), Some(CommandFile::LogsRequest));
    assert_eq!(command_file("run_module.json"), Some(CommandFile::RunModule));
    assert_eq!(command_file("status.json"), None);
    assert_eq!(command_file("start.json.tmp"), None);
    assert_eq!(command_file(""), None);
}

#[test]
fn start_file_writes_status_and_is_deleted() {
    let mut d = fresh();
    let file = command_file("start.json").unwrap();
    let cmd = record("start", Some("safe"), None, None);
    let out = d.process_command_at(file, Artifact::Parsed(cmd), "T'".to_string());
    assert!(out.delete);
    match out.action {
        Action::PersistStatus(s) => {
            assert!(s.running);
            assert_eq!(s.profile, "safe");
            assert_eq!(s.timestamp, "T'");
        }
        _ => panic!("expected a status write"),
    }
}

#[test]
fn start_file_with_current_time() {
    let mut d = fresh();
    let cmd = record("start", Some("safe"), None, None);
    let out = d.process_command(CommandFile::Start, Artifact::Parsed(cmd));
    assert!(out.delete);
    let s = d.status();
    assert!(s.running);
    assert_eq!(s.profile, "safe");
    assert!(!s.timestamp.is_empty());
}

#[test]
fn unparsed_file_is_deleted_without_effect() {
    let mut d = fresh();
    let out = d.process_command_at(CommandFile::Start, Artifact::Unparsed, "T1".to_string());
    assert!(out.delete);
    assert!(matches!(out.action, Action::Nothing));
    assert!(!d.status().running);
    assert!(d.logs().is_empty());
    let out = d.process_command_at(CommandFile::RunModule, Artifact::Unparsed, "T1".to_string());
    assert!(out.delete);
    assert!(matches!(out.action, Action::Nothing));
}

#[test]
fn start_without_profile_is_deleted_without_effect() {
    let mut d = fresh();
    let cmd = record("start", None, None, None);
    let out = d.process_command_at(CommandFile::Start, Artifact::Parsed(cmd), "T1".to_string());
    assert!(out.delete);
    assert!(matches!(out.action, Action::Nothing));
    assert!(!d.status().running);
}

#[test]
fn redelivered_file_has_no_effect() {
    let mut d = fresh();
    let out = d.process_command_at(CommandFile::Stop, Artifact::Unparsed, "T1".to_string());
    assert!(out.delete);
    assert_eq!(d.logs(), vec!["Stopped"]);
    for file in [CommandFile::Start, CommandFile::Stop, CommandFile::LogsRequest, CommandFile::RunModule] {
        let out = d.process_command_at(file, Artifact::Missing, "T2".to_string());
        assert!(!out.delete);
        assert!(matches!(out.action, Action::Nothing));
    }
    assert_eq!(d.logs(), vec!["Stopped"]);
    assert_eq!(d.status().timestamp, "T1");
}

#[test]
fn logs_request_returns_every_entry_in_order() {
    let mut d = fresh();
    d.process_command_at(CommandFile::Start, Artifact::Parsed(record("start", Some("safe"), None, None)), "T1".to_string());
    d.process_command_at(CommandFile::Stop, Artifact::Unparsed, "T2".to_string());
    d.finish_module("scan", false, Some("{\"result\":\"ok\"}".to_string()));
    let out = d.process_command_at(CommandFile::LogsRequest, Artifact::Unparsed, "T3".to_string());
    assert!(out.delete);
    let expected = vec![
        "Started with profile: safe".to_string(),
        "Stopped".to_string(),
        "Module failed: scan".to_string(),
        "Module output: {\"result\":\"ok\"}".to_string(),
    ];
    match out.action {
        Action::PersistLogs(l) => assert_eq!(l, expected),
        _ => panic!("expected a logs write"),
    }
    assert_eq!(d.logs(), expected);
}

#[test]
fn finished_module_without_output_logs_nothing() {
    let mut d = fresh();
    d.finish_module("scan", true, None);
    assert!(d.logs().is_empty());
}

#[test]
fn run_module_file_asks_for_a_launch() {
    let mut d = fresh();
    let cmd = record("run", Some("monitor-only"), Some("scan"), Some(vec!["--quick"]));
    let out = d.process_command_at(CommandFile::RunModule, Artifact::Parsed(cmd), "T1".to_string());
    assert!(out.delete);
    match out.action {
        Action::Launch(l) => {
            assert_eq!(l.module, "scan");
            assert_eq!(l.args, vec!["--quick"]);
            assert_eq!(l.profile, "monitor-only");
        }
        _ => panic!("expected a launch"),
    }
    assert!(!d.status().running);
    assert!(d.logs().is_empty());
}

#[test]
fn run_module_without_profile_uses_current() {
    let mut d = fresh();
    let cmd = record("run", None, Some("scan"), Some(vec![]));
    let out = d.process_command_at(CommandFile::RunModule, Artifact::Parsed(cmd), "T1".to_string());
    match out.action {
        Action::Launch(l) => assert_eq!(l.profile, "none"),
        _ => panic!("expected a launch"),
    }
    d.start("aggressive", "T2".to_string());
    let cmd = record("run", None, Some("scan"), Some(vec![]));
    let out = d.process_command_at(CommandFile::RunModule, Artifact::Parsed(cmd), "T3".to_string());
    match out.action {
        Action::Launch(l) => assert_eq!(l.profile, "aggressive"),
        _ => panic!("expected a launch"),
    }
}

#[test]
fn run_module_without_args_is_dropped() {
    let mut d = fresh();
    let cmd = record("run", Some("safe"), Some("scan"), None);
    let out = d.process_command_at(CommandFile::RunModule, Artifact::Parsed(cmd), "T1".to_string());
    assert!(out.delete);
    assert!(matches!(out.action, Action::Nothing));
}

fn monitor_launch() -> ModuleLaunch {
    ModuleLaunch {
        module: "scan".to_string(),
        args: vec!["--quick".to_string()],
        profile: "monitor-only".to_string(),
    }
}

#[test]
fn monitor_only_launch_is_fully_restricted() {
    let plan = launch_plan_at(&monitor_launch(), "T".to_string(), 1000, 100);
    assert_eq!(plan.len(), 7);
    match &plan[0] {
        SandboxStep::Unshare(ns) => assert_eq!(
            *ns,
            Namespaces { user: true, net: true, uts: true, mount: true, pid: false, ipc: false }
        ),
        _ => panic!("namespaces first"),
    }
    assert!(matches!(plan[1], SandboxStep::MapIds { uid: 1000, gid: 100 }));
    match &plan[2] {
        SandboxStep::JoinCgroup { name, cpu_shares } => {
            assert_eq!(name, "security_mode");
            assert_eq!(*cpu_shares, 1024);
        }
        _ => panic!("control group third"),
    }
    match &plan[3] {
        SandboxStep::WriteInvocation(c) => {
            assert_eq!(c.command, "run");
            assert_eq!(c.profile.as_deref(), Some("monitor-only"));
            assert_eq!(c.timestamp, "T");
            assert_eq!(c.module.as_deref(), Some("scan"));
            assert_eq!(c.args, Some(vec!["--quick".to_string()]));
        }
        _ => panic!("invocation record fourth"),
    }
    assert!(matches!(plan[4], SandboxStep::LimitDisk(DiskAccess::NoAccess)));
    match &plan[5] {
        SandboxStep::RestrictCapabilities(c) => assert!(c.is_empty()),
        _ => panic!("capabilities sixth"),
    }
    match &plan[6] {
        SandboxStep::Exec { program, args } => {
            assert_eq!(program, "/home/user/.hackeros/Security-Mode/bin/module-runner");
            assert!(args.is_empty());
        }
        _ => panic!("exec last"),
    }
}

#[test]
fn aggressive_launch_keeps_host_network() {
    let l = ModuleLaunch { module: "m".to_string(), args: vec![], profile: "aggressive".to_string() };
    let plan = launch_plan(&l, 0, 0);
    match &plan[0] {
        SandboxStep::Unshare(ns) => assert!(!ns.net && !ns.mount && ns.user && ns.uts),
        _ => panic!("namespaces first"),
    }
    assert!(matches!(plan[4], SandboxStep::LimitDisk(DiskAccess::Full)));
    match &plan[5] {
        SandboxStep::RestrictCapabilities(c) => assert_eq!(c.len(), 2),
        _ => panic!("capabilities sixth"),
    }
    match &plan[3] {
        SandboxStep::WriteInvocation(c) => assert!(!c.timestamp.is_empty()),
        _ => panic!("invocation record fourth"),
    }
}

#[test]
fn daemon_started_now_is_idle() {
    let d = DaemonState::new_now();
    let s = d.status();
    assert!(!s.running);
    assert_eq!(s.profile, "none");
    assert!(!s.timestamp.is_empty());
    assert!(d.logs().is_empty());
}

#[test]
fn safe_launch_is_read_only_and_isolated() {
    let l = ModuleLaunch { module: "m".to_string(), args: vec![], profile: "safe".to_string() };
    let plan = launch_plan_at(&l, "T".to_string(), 0, 0);
    match &plan[0] {
        SandboxStep::Unshare(ns) => assert!(ns.net && ns.mount),
        _ => panic!("namespaces first"),
    }
    assert!(matches!(plan[4], SandboxStep::LimitDisk(DiskAccess::ReadOnly)));
}
