use hexo_supervisor::readiness::{classify_stderr_line, ready_marker_in, Readiness};
use hexo_supervisor::registry::Registry;
use hexo_supervisor::startup::{
    poll_step, settle_start, start_report, PollDecision, ProcessStatus, DEADLINE_MS,
    POLL_INTERVAL_MS,
};

const PORT_MESSAGE: &str = "端口 4000 已被占用，请先停止其他 Hexo 服务器或占用该端口的程序";

#[test]
fn ready_markers_are_recognised() {
    assert!(ready_marker_in("INFO  Hexo is running at http://localhost:4000 . Press Ctrl+C to stop."));
    assert!(ready_marker_in("INFO  Start processing"));
    assert!(ready_marker_in("listening on localhost:4000"));
    assert!(!ready_marker_in("INFO  Validating config"));
    assert!(!ready_marker_in(""));
}

#[test]
fn fatal_port_line_gives_port_message() {
    assert_eq!(
        classify_stderr_line("FATAL Port 4000 has been used. Try other port instead."),
        Some(PORT_MESSAGE.to_string())
    );
    assert_eq!(
        classify_stderr_line("FATAL listen EADDRINUSE: address already in use"),
        Some(PORT_MESSAGE.to_string())
    );
}

#[test]
fn fatal_line_gives_trimmed_tail() {
    assert_eq!(
        classify_stderr_line("ERROR FATAL   Something went wrong:  \t"),
        Some("Something went wrong:".to_string())
    );
    assert_eq!(
        classify_stderr_line("FATAL a FATAL b"),
        Some("a FATAL b".to_string())
    );
}

#[test]
fn fatal_line_without_tail_gives_generic_reason() {
    assert_eq!(classify_stderr_line("FATAL"), Some("启动失败".to_string()));
    assert_eq!(classify_stderr_line("  FATAL \u{3000} "), Some("启动失败".to_string()));
}

#[test]
fn non_fatal_stderr_line_is_noise() {
    assert_eq!(classify_stderr_line("WARN  deprecated option"), None);
    assert_eq!(classify_stderr_line("fatal lowercase"), None);
}

#[test]
fn first_failure_is_kept() {
    let mut r = Readiness::new();
    r.observe_stderr("FATAL first problem");
    r.observe_stderr("FATAL Port 4000 has been used");
    r.observe_stdout("Hexo is running at http://localhost:4000");
    assert_eq!(r.failure(), Some("first problem".to_string()));
    assert!(r.is_ready());
}

#[test]
fn ready_flag_is_kept() {
    let mut r = Readiness::new();
    r.observe_stdout("INFO  Start processing");
    r.observe_stdout("INFO  nothing special");
    r.observe_stderr("WARN  something");
    assert!(r.is_ready());
    assert_eq!(r.failure(), None);
}

#[test]
fn failure_wins_when_ready_came_first() {
    let mut r = Readiness::new();
    r.observe_stdout("Hexo is running at http://localhost:4000");
    r.observe_stderr("FATAL Port 4000 has been used");
    let d = poll_step(&r, &ProcessStatus::Running, 0, DEADLINE_MS);
    assert!(d.kills_process());
    assert!(!d.registers_process());
    match d {
        PollDecision::Failed(m) => assert_eq!(m, PORT_MESSAGE),
        _ => panic!("expected a failure"),
    }
}

#[test]
fn failure_wins_when_fatal_came_first() {
    let mut r = Readiness::new();
    r.observe_stderr("FATAL broken theme");
    r.observe_stdout("Hexo is running at http://localhost:4000");
    let d = poll_step(&r, &ProcessStatus::Exited(Some(2)), DEADLINE_MS + 1, DEADLINE_MS);
    match d {
        PollDecision::Failed(m) => assert_eq!(m, "broken theme"),
        _ => panic!("expected a failure"),
    }
}

#[test]
fn silent_running_process_times_out_open() {
    let r = Readiness::new();
    let before = poll_step(&r, &ProcessStatus::Running, DEADLINE_MS - 1, DEADLINE_MS);
    assert!(matches!(before, PollDecision::Wait));
    let at = poll_step(&r, &ProcessStatus::Running, DEADLINE_MS, DEADLINE_MS);
    assert!(matches!(at, PollDecision::TimedOut));
    assert!(at.registers_process());
    assert!(!at.kills_process());
    let report = start_report(at).unwrap();
    assert!(report.success);
    assert_eq!(
        report.stdout.as_deref(),
        Some("Hexo服务器进程已启动（未检测到就绪标志，可能需要更长时间）")
    );
}

#[test]
fn ready_line_gives_success() {
    let mut r = Readiness::new();
    r.observe_stdout("INFO  Hexo is running at http://localhost:4000 . Press Ctrl+C to stop.");
    let d = poll_step(&r, &ProcessStatus::Running, 200, DEADLINE_MS);
    assert!(matches!(d, PollDecision::Ready));
    let report = start_report(d).unwrap();
    assert!(report.success);
    assert_eq!(report.stdout.as_deref(), Some("Hexo服务器已启动并就绪 http://localhost:4000"));
    assert_eq!(report.error, None);
}

#[test]
fn early_exit_reports_code() {
    let r = Readiness::new();
    let d = poll_step(&r, &ProcessStatus::Exited(Some(1)), 300, DEADLINE_MS);
    let report = start_report(d).unwrap();
    assert!(!report.success);
    assert_eq!(
        report.error.as_deref(),
        Some("Hexo服务器启动失败，进程异常退出（状态码: 1）")
    );
}

#[test]
fn early_exit_with_negative_or_unknown_code() {
    let r = Readiness::new();
    let neg = start_report(poll_step(&r, &ProcessStatus::Exited(Some(-1073741510)), 0, 10)).unwrap();
    assert_eq!(
        neg.error.as_deref(),
        Some("Hexo服务器启动失败，进程异常退出（状态码: -1073741510）")
    );
    let unknown = start_report(poll_step(&r, &ProcessStatus::Exited(None), 0, 10)).unwrap();
    assert_eq!(
        unknown.error.as_deref(),
        Some("Hexo服务器启动失败，进程异常退出（状态码: 未知）")
    );
}

#[test]
fn failed_probe_is_an_error() {
    let r = Readiness::new();
    let d = poll_step(&r, &ProcessStatus::Unreadable("no such process".to_string()), 0, 10);
    assert_eq!(start_report(d).err(), Some("检查进程状态失败: no such process".to_string()));
}

#[test]
fn port_conflict_start_fails_and_kills() {
    let mut registry: Registry<String> = Registry::new();
    let mut r = Readiness::new();
    r.observe_stderr("FATAL Port 4000 has been used");
    let d = poll_step(&r, &ProcessStatus::Running, 100, DEADLINE_MS);
    let (report, to_kill) = settle_start(&mut registry, d, 42, "child".to_string());
    let report = report.unwrap();
    assert!(!report.success);
    assert_eq!(report.error.as_deref(), Some(PORT_MESSAGE));
    assert_eq!(to_kill, Some("child".to_string()));
    assert_eq!(registry.peek_id(), None);
}

#[test]
fn ready_start_registers_and_evicts_previous() {
    let mut registry: Registry<String> = Registry::new();
    registry.register(7, "old".to_string());
    let mut r = Readiness::new();
    r.observe_stdout("Hexo is running at http://localhost:4000");
    let d = poll_step(&r, &ProcessStatus::Running, 200, DEADLINE_MS);
    let (report, to_kill) = settle_start(&mut registry, d, 8, "new".to_string());
    assert!(report.unwrap().success);
    assert_eq!(to_kill, Some("old".to_string()));
    assert_eq!(registry.peek_id(), Some(8));
}

#[test]
fn early_exit_leaves_registry_alone() {
    let mut registry: Registry<String> = Registry::new();
    let r = Readiness::new();
    let d = poll_step(&r, &ProcessStatus::Exited(Some(0)), 0, DEADLINE_MS);
    let (_, to_kill) = settle_start(&mut registry, d, 9, "gone".to_string());
    assert_eq!(to_kill, None);
    assert_eq!(registry.peek_id(), None);
}

#[test]
fn timing_constants() {
    assert_eq!(DEADLINE_MS, 15000);
    assert_eq!(POLL_INTERVAL_MS, 100);
}
