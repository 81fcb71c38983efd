use hexo_supervisor::commands::step_invocation;
use hexo_supervisor::platform::Platform;
use hexo_supervisor::registry::Registry;
use hexo_supervisor::shutdown::{
    begin_stop, nothing_running_report, stop_report, CommandEvent, Shutdown, ShutdownStep,
    StopOutcome, StopPlan, GRACE_MS, SERVER_PORT,
};

#[test]
fn registry_holds_the_last_registered() {
    let mut registry: Registry<&str> = Registry::new();
    assert_eq!(registry.peek_id(), None);
    assert_eq!(registry.register(1, "a"), None);
    assert_eq!(registry.register(2, "b"), Some((1, "a")));
    assert_eq!(registry.peek_id(), Some(2));
    assert_eq!(registry.take(), Some((2, "b")));
    assert_eq!(registry.peek_id(), None);
    assert_eq!(registry.take(), None);
    registry.register(3, "c");
    assert_eq!(registry.peek_id(), Some(3));
}

#[test]
fn stop_with_nothing_registered_twice() {
    let mut registry: Registry<u8> = Registry::new();
    assert!(matches!(begin_stop(&mut registry, Platform::Linux), StopPlan::NothingRunning));
    assert!(matches!(begin_stop(&mut registry, Platform::Linux), StopPlan::NothingRunning));
    assert_eq!(registry.peek_id(), None);
}

#[test]
fn stop_then_stop_again_reports_nothing_running() {
    let mut registry: Registry<&str> = Registry::new();
    registry.register(4321, "server");
    match begin_stop(&mut registry, Platform::Linux) {
        StopPlan::Stopping(s, step, h) => {
            assert_eq!(s.pid(), 4321);
            assert!(step == ShutdownStep::Terminate(4321));
            assert_eq!(h, "server");
        }
        StopPlan::NothingRunning => panic!("a server was registered"),
    }
    assert!(matches!(begin_stop(&mut registry, Platform::Linux), StopPlan::NothingRunning));
    let report = nothing_running_report();
    assert!(!report.success);
    assert_eq!(report.error.as_deref(), Some("没有正在运行的服务器"));
}

#[test]
fn posix_ladder_escalates_when_alive() {
    let (mut s, first) = Shutdown::start(Platform::Linux, 99);
    assert!(first == ShutdownStep::Terminate(99));
    assert!(s.advance(CommandEvent::Succeeded) == ShutdownStep::Pause(GRACE_MS));
    assert!(s.advance(CommandEvent::Succeeded) == ShutdownStep::Probe(99));
    assert!(s.advance(CommandEvent::Succeeded) == ShutdownStep::ForceKill(99));
    assert!(s.advance(CommandEvent::Succeeded) == ShutdownStep::Finish(StopOutcome::Stopped));
    assert_eq!(GRACE_MS, 1000);
}

#[test]
fn posix_ladder_stops_when_gone() {
    let (mut s, _) = Shutdown::start(Platform::MacOs, 5);
    s.advance(CommandEvent::Succeeded);
    s.advance(CommandEvent::Succeeded);
    assert!(s.advance(CommandEvent::Refused) == ShutdownStep::Finish(StopOutcome::Stopped));
}

#[test]
fn posix_ladder_error_when_nothing_could_be_sent() {
    let (mut s, _) = Shutdown::start(Platform::Linux, 5);
    s.advance(CommandEvent::NotRun);
    s.advance(CommandEvent::Succeeded);
    assert!(s.advance(CommandEvent::Succeeded) == ShutdownStep::ForceKill(5));
    assert!(s.advance(CommandEvent::NotRun) == ShutdownStep::Finish(StopOutcome::Error));
}

#[test]
fn windows_ladder_tree_kill_then_sweep() {
    let (mut s, first) = Shutdown::start(Platform::Windows, 77);
    assert!(first == ShutdownStep::KillTree(77));
    assert!(s.advance(CommandEvent::Succeeded) == ShutdownStep::SweepPort(SERVER_PORT));
    assert!(s.advance(CommandEvent::Refused) == ShutdownStep::Finish(StopOutcome::Stopped));
}

#[test]
fn windows_ladder_falls_back_to_direct_signal() {
    let (mut s, _) = Shutdown::start(Platform::Windows, 77);
    assert!(s.advance(CommandEvent::Refused) == ShutdownStep::KillDirect(77));
    assert!(s.advance(CommandEvent::NotRun) == ShutdownStep::SweepPort(4000));
    assert!(s.advance(CommandEvent::Succeeded) == ShutdownStep::Finish(StopOutcome::Stopped));
}

#[test]
fn windows_ladder_error_when_nothing_could_be_sent() {
    let (mut s, _) = Shutdown::start(Platform::Windows, 77);
    assert!(s.advance(CommandEvent::NotRun) == ShutdownStep::KillDirect(77));
    assert!(s.advance(CommandEvent::NotRun) == ShutdownStep::SweepPort(4000));
    assert!(s.advance(CommandEvent::Succeeded) == ShutdownStep::Finish(StopOutcome::Error));
    assert!(s.advance(CommandEvent::Succeeded) == ShutdownStep::Finish(StopOutcome::Error));
}

#[test]
fn stop_reports() {
    let ok = stop_report(StopOutcome::Stopped).unwrap();
    assert!(ok.success);
    assert_eq!(ok.stdout.as_deref(), Some("服务器已停止"));
    assert_eq!(stop_report(StopOutcome::Error).err(), Some("无法终止服务器进程".to_string()));
}

#[test]
fn step_command_lines() {
    let tree = step_invocation(ShutdownStep::KillTree(1234)).unwrap();
    assert_eq!(tree.program, "taskkill");
    assert_eq!(tree.args, vec!["/pid", "1234", "/T", "/F"]);
    assert!(step_invocation(ShutdownStep::SweepPort(4000)).is_none());
    let term = step_invocation(ShutdownStep::Terminate(0)).unwrap();
    assert_eq!((term.program.as_str(), term.args), ("kill", vec!["0".to_string()]));
    let probe = step_invocation(ShutdownStep::Probe(4294967295)).unwrap();
    assert_eq!(probe.args, vec!["-0", "4294967295"]);
    let force = step_invocation(ShutdownStep::ForceKill(10)).unwrap();
    assert_eq!(force.args, vec!["-9", "10"]);
    assert!(step_invocation(ShutdownStep::Pause(1000)).is_none());
    assert!(step_invocation(ShutdownStep::KillDirect(3)).is_none());
    assert!(step_invocation(ShutdownStep::Finish(StopOutcome::Stopped)).is_none());
}
