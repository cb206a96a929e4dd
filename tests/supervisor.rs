use trauso::client::{daemon_program, startup_args, Aria2Client};
use trauso::supervisor::{
    DaemonAction, DaemonEvent, DaemonFailure, Limits, StartStage, Supervisor, Task, BUNDLED_PLACES,
};

fn idle(limits: (u64, u64), holds_process: bool) -> Supervisor {
    Supervisor {
        limits: Limits { overall: limits.0, per_download: limits.1 },
        holds_process,
        task: Task::Idle,
    }
}

#[test]
fn second_start_on_reachable_daemon_spawns_nothing() {
    let mut c = Aria2Client::new("http://localhost:6800/jsonrpc", 0, 0);
    for _ in 0..2 {
        assert_eq!(c.start_daemon(), DaemonAction::ProbeReachable);
        assert_eq!(c.on_event(DaemonEvent::Reachable(true)), DaemonAction::Done);
        assert!(!c.supervisor.holds_process);
        assert_eq!(c.supervisor.task, Task::Idle);
    }
}

#[test]
fn stop_when_never_started_succeeds() {
    let mut c = Aria2Client::default();
    assert_eq!(c.stop_daemon(), DaemonAction::SendShutdown);
    assert_eq!(c.on_event(DaemonEvent::ShutdownSent), DaemonAction::Done);
    assert_eq!(c.supervisor, idle((0, 0), false));
}

#[test]
fn stop_kills_the_held_process_first() {
    let mut s = idle((0, 0), true);
    assert_eq!(s.stop(), DaemonAction::Kill);
    assert_eq!(s.step(DaemonEvent::Killed), DaemonAction::SendShutdown);
    assert!(!s.holds_process);
    assert_eq!(s.step(DaemonEvent::ShutdownSent), DaemonAction::Done);
    assert_eq!(s, idle((0, 0), false));
}

#[test]
fn limit_change_while_stopped_spawns_nothing() {
    let mut c = Aria2Client::new("http://localhost:6800/jsonrpc", 0, 0);
    assert_eq!(c.reconfigure_bandwidth(2048, 512), DaemonAction::ProbeReachable);
    assert_eq!(c.on_event(DaemonEvent::Reachable(false)), DaemonAction::Done);
    assert_eq!(c.get_bandwidth_limit(), (2048, 512));
    assert!(!c.supervisor.holds_process);
}

#[test]
fn limit_change_while_running_restarts_with_new_limits() {
    let mut c = Aria2Client::new("http://localhost:6800/jsonrpc", 100, 50);
    c.supervisor.holds_process = true;
    assert_eq!(c.reconfigure_bandwidth(300, 0), DaemonAction::ProbeReachable);
    assert_eq!(c.on_event(DaemonEvent::Reachable(true)), DaemonAction::Kill);
    assert_eq!(c.get_bandwidth_limit(), (100, 50));
    assert_eq!(c.on_event(DaemonEvent::Killed), DaemonAction::SendShutdown);
    assert_eq!(c.on_event(DaemonEvent::ShutdownSent), DaemonAction::ProbeReachable);
    assert_eq!(c.get_bandwidth_limit(), (300, 0));
    assert_eq!(c.on_event(DaemonEvent::Reachable(false)), DaemonAction::ProbePath(0));
    assert_eq!(c.on_event(DaemonEvent::PathExists(true)), DaemonAction::Spawn(0));
    let args = c.launch_args();
    assert!(args.contains(&"--max-overall-download-limit=300K".to_string()));
    assert!(args.contains(&"--max-download-limit=0K".to_string()));
    assert_eq!(c.on_event(DaemonEvent::Spawned(true)), DaemonAction::ProbeReachable);
    assert_eq!(c.on_event(DaemonEvent::Reachable(true)), DaemonAction::Done);
    assert!(c.supervisor.holds_process);
    assert_eq!(c.supervisor.task, Task::Idle);
}

#[test]
fn start_probes_places_then_search_path() {
    let mut s = idle((0, 0), false);
    assert_eq!(s.start(), DaemonAction::ProbeReachable);
    assert_eq!(s.step(DaemonEvent::Reachable(false)), DaemonAction::ProbePath(0));
    for i in 1..BUNDLED_PLACES {
        assert_eq!(s.step(DaemonEvent::PathExists(false)), DaemonAction::ProbePath(i));
    }
    assert_eq!(s.step(DaemonEvent::PathExists(false)), DaemonAction::ProbeSearchPath);
    assert_eq!(s.step(DaemonEvent::SearchPathOk(true)), DaemonAction::Spawn(BUNDLED_PLACES));
    assert_eq!(daemon_program(BUNDLED_PLACES), "aria2c");
}

#[test]
fn start_without_executable_is_not_found() {
    let mut s = idle((0, 0), false);
    s.start();
    s.step(DaemonEvent::Reachable(false));
    for _ in 0..BUNDLED_PLACES {
        s.step(DaemonEvent::PathExists(false));
    }
    assert_eq!(s.step(DaemonEvent::SearchPathOk(false)), DaemonAction::Failed(DaemonFailure::DaemonNotFound));
    assert_eq!(s, idle((0, 0), false));
}

#[test]
fn failed_spawn_holds_nothing() {
    let mut s = idle((0, 0), false);
    s.start();
    s.step(DaemonEvent::Reachable(false));
    s.step(DaemonEvent::PathExists(true));
    assert_eq!(s.step(DaemonEvent::Spawned(false)), DaemonAction::Failed(DaemonFailure::SpawnFailed));
    assert_eq!(s, idle((0, 0), false));
}

#[test]
fn slow_daemon_times_out_but_stays_held() {
    let mut s = idle((0, 0), false);
    s.start();
    s.step(DaemonEvent::Reachable(false));
    s.step(DaemonEvent::PathExists(true));
    assert_eq!(s.step(DaemonEvent::Spawned(true)), DaemonAction::ProbeReachable);
    assert_eq!(s.step(DaemonEvent::Reachable(false)), DaemonAction::Sleep(200));
    assert_eq!(s.step(DaemonEvent::Slept(4999)), DaemonAction::ProbeReachable);
    assert_eq!(s.step(DaemonEvent::Reachable(false)), DaemonAction::Sleep(200));
    assert_eq!(s.step(DaemonEvent::Slept(5000)), DaemonAction::Failed(DaemonFailure::StartupTimeout));
    assert_eq!(s, idle((0, 0), true));
}

#[test]
fn operations_are_refused_while_one_is_in_progress() {
    let mut s = idle((0, 0), false);
    s.start();
    let before = s;
    assert_eq!(s.stop(), DaemonAction::Failed(DaemonFailure::Busy));
    assert_eq!(s.reconfigure(Limits { overall: 1, per_download: 1 }), DaemonAction::Failed(DaemonFailure::Busy));
    assert_eq!(s.start(), DaemonAction::Failed(DaemonFailure::Busy));
    assert_eq!(s, before);
    assert_eq!(s.task, Task::Starting(StartStage::CheckReachable));
}

#[test]
fn unexpected_events_change_nothing() {
    let mut s = idle((0, 0), false);
    assert_eq!(s.step(DaemonEvent::Killed), DaemonAction::Failed(DaemonFailure::UnexpectedEvent));
    s.start();
    let before = s;
    assert_eq!(s.step(DaemonEvent::ShutdownSent), DaemonAction::Failed(DaemonFailure::UnexpectedEvent));
    assert_eq!(s, before);
}

#[test]
fn startup_arguments() {
    let args = startup_args(Limits { overall: 1024, per_download: 0 });
    let expected = vec![
        "--enable-rpc",
        "--rpc-listen-all=false",
        "--rpc-listen-port=6800",
        "--max-concurrent-downloads=5",
        "--max-connection-per-server=16",
        "--split=16",
        "--min-split-size=1M",
        "--max-overall-download-limit=1024K",
        "--max-download-limit=0K",
        "--file-allocation=none",
        "--continue=true",
        "--auto-file-renaming=true",
        "--allow-overwrite=false",
    ];
    assert_eq!(args, expected);
}

#[test]
fn bundled_programs_in_probe_order() {
    assert_eq!(daemon_program(0), "aria2/aria2c.exe");
    assert_eq!(daemon_program(1), "../aria2/aria2c.exe");
    assert_eq!(daemon_program(2), "../../aria2/aria2c.exe");
    assert_eq!(daemon_program(3), "_internal/aria2/aria2c.exe");
}

#[test]
fn client_defaults_and_setter() {
    let mut c = Aria2Client::default();
    assert_eq!(c.rpc_url, "http://localhost:6800/jsonrpc");
    assert_eq!(c.get_bandwidth_limit(), (0, 0));
    c.set_bandwidth_limit(10, 20);
    assert_eq!(c.get_bandwidth_limit(), (10, 20));
    assert_eq!(c.supervisor.task, Task::Idle);
}
