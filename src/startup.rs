//! The wait loop of a start attempt: at each poll, what the supervisor does
//! given what the output listeners have seen and whether the process lives.
use vstd::prelude::*;

use crate::readiness::{fresh, is_fatal_line, is_ready_line, replay, OutputLine, Readiness, ReadinessView};
use crate::report::{is_failure_with, is_success_with, ok_with, signed_decimal, CommandResult};
use crate::registry::{apply, pid_of, Registry, SlotOp};

verus! {

/// How long a start attempt waits for a verdict, in milliseconds.
pub const DEADLINE_MS: u64 = 15000;

/// How long the wait loop sleeps between polls, in milliseconds.
pub const POLL_INTERVAL_MS: u64 = 100;

/// What a liveness probe of the spawned process found.
pub enum ProcessStatus {
    /// Still running.
    Running,
    /// Exited, with its exit code when the platform gives one.
    Exited(Option<i32>),
    /// The probe itself failed, with the system's message.
    Unreadable(String),
}

/// A probe result as plain values.
pub enum StatusView {
    Running,
    Exited(Option<i32>),
    Unreadable(Seq<char>),
}

impl View for ProcessStatus {
    type V = StatusView;

    open spec fn view(&self) -> StatusView {
        match self {
            ProcessStatus::Running => StatusView::Running,
            ProcessStatus::Exited(c) => StatusView::Exited(*c),
            ProcessStatus::Unreadable(m) => StatusView::Unreadable(m@),
        }
    }
}

/// What the wait loop does after one poll.
pub enum PollDecision {
    /// Nothing is settled: sleep and poll again.
    Wait,
    /// A fatal line came: kill the process and report the reason.
    Failed(String),
    /// A ready line came: register the process and report success.
    Ready,
    /// The process exited before any verdict.
    ExitedEarly(Option<i32>),
    /// The deadline passed with the process alive: register it anyway.
    TimedOut,
    /// The liveness probe failed.
    StatusError(String),
}

/// A decision as plain values.
pub enum Decision {
    Wait,
    Failed(Seq<char>),
    Ready,
    ExitedEarly(Option<i32>),
    TimedOut,
    StatusError(Seq<char>),
}

impl View for PollDecision {
    type V = Decision;

    open spec fn view(&self) -> Decision {
        match self {
            PollDecision::Wait => Decision::Wait,
            PollDecision::Failed(m) => Decision::Failed(m@),
            PollDecision::Ready => Decision::Ready,
            PollDecision::ExitedEarly(c) => Decision::ExitedEarly(*c),
            PollDecision::TimedOut => Decision::TimedOut,
            PollDecision::StatusError(m) => Decision::StatusError(m@),
        }
    }
}

/// The decision at one poll. A failure is looked at before readiness,
/// readiness before the process's exit, and the exit before the deadline.
pub open spec fn next_decision(v: ReadinessView, s: StatusView, elapsed: nat, deadline: nat) -> Decision {
    match v.failure {
        Some(f) => Decision::Failed(f),
        None => if v.ready {
            Decision::Ready
        } else {
            match s {
                StatusView::Exited(c) => Decision::ExitedEarly(c),
                StatusView::Unreadable(m) => Decision::StatusError(m),
                StatusView::Running => if elapsed >= deadline {
                    Decision::TimedOut
                } else {
                    Decision::Wait
                },
            }
        },
    }
}

/// The decisions after which the process is killed.
pub open spec fn kills(d: Decision) -> bool {
    d is Failed
}

/// The decisions after which the process becomes the registered server.
pub open spec fn registers(d: Decision) -> bool {
    d is Ready || d is TimedOut
}

/// Decides what the wait loop does after one poll.
pub fn poll_step(readiness: &Readiness, status: &ProcessStatus, elapsed_ms: u64, deadline_ms: u64) -> (r: PollDecision)
    ensures
        r@ == next_decision(readiness@, status@, elapsed_ms as nat, deadline_ms as nat),
{
    match readiness.failure() {
        Some(reason) => PollDecision::Failed(reason),
        None => {
            if readiness.is_ready() {
                PollDecision::Ready
            } else {
                match status {
                    ProcessStatus::Exited(c) => PollDecision::ExitedEarly(*c),
                    ProcessStatus::Unreadable(m) => PollDecision::StatusError(m.clone()),
                    ProcessStatus::Running => {
                        if elapsed_ms >= deadline_ms {
                            PollDecision::TimedOut
                        } else {
                            PollDecision::Wait
                        }
                    },
                }
            }
        },
    }
}

impl PollDecision {
    /// Whether the process is to be killed.
    pub fn kills_process(&self) -> (r: bool)
        ensures
            r == kills(self@),
    {
        match self {
            PollDecision::Failed(_) => true,
            _ => false,
        }
    }

    /// Whether the process is to be registered as the running server.
    pub fn registers_process(&self) -> (r: bool)
        ensures
            r == registers(self@),
    {
        match self {
            PollDecision::Ready => true,
            PollDecision::TimedOut => true,
            _ => false,
        }
    }
}

/// The message of a success confirmed by a ready line.
pub open spec fn ready_text() -> Seq<char> {
    "Hexo服务器已启动并就绪 http://localhost:4000"@
}

/// The message of a success at the deadline, with no ready line seen.
pub open spec fn timed_out_text() -> Seq<char> {
    "Hexo服务器进程已启动（未检测到就绪标志，可能需要更长时间）"@
}

/// The message for a process that exited before any verdict.
pub open spec fn exited_text(code: Option<i32>) -> Seq<char> {
    "Hexo服务器启动失败，进程异常退出（状态码: "@ + match code {
        Some(c) => signed_decimal(c as int),
        None => "未知"@,
    } + "）"@
}

/// The message for a failed liveness probe.
pub open spec fn status_error_text(m: Seq<char>) -> Seq<char> {
    "检查进程状态失败: "@ + m
}

/// What the start command returns once the wait loop has settled: a
/// success or failure result, or an error for a failed probe.
pub open spec fn start_result_matches(d: Decision, r: Result<CommandResult, String>) -> bool {
    match d {
        Decision::Failed(m) => ok_with(r, |c: CommandResult| is_failure_with(c, m)),
        Decision::Ready => ok_with(r, |c: CommandResult| is_success_with(c, ready_text())),
        Decision::ExitedEarly(code) => ok_with(
            r,
            |c: CommandResult| is_failure_with(c, exited_text(code)),
        ),
        Decision::TimedOut => ok_with(r, |c: CommandResult| is_success_with(c, timed_out_text())),
        Decision::StatusError(m) => match r {
            Ok(_) => false,
            Err(e) => e@ == status_error_text(m),
        },
        Decision::Wait => false,
    }
}

/// The start command's result for a settled decision.
pub fn start_report(d: PollDecision) -> (r: Result<CommandResult, String>)
    requires
        !(d@ is Wait),
    ensures
        start_result_matches(d@, r),
{
    match d {
        PollDecision::Failed(m) => Ok(CommandResult::failed(m)),
        PollDecision::Ready => Ok(
            CommandResult::succeeded(String::from_str("Hexo服务器已启动并就绪 http://localhost:4000")),
        ),
        PollDecision::ExitedEarly(code) => {
            let mut s = String::from_str("Hexo服务器启动失败，进程异常退出（状态码: ");
            match code {
                Some(c) => crate::report::push_signed_decimal(&mut s, c),
                None => s.append("未知"),
            }
            s.append("）");
            Ok(CommandResult::failed(s))
        },
        PollDecision::TimedOut => Ok(
            CommandResult::succeeded(
                String::from_str("Hexo服务器进程已启动（未检测到就绪标志，可能需要更长时间）"),
            ),
        ),
        PollDecision::StatusError(m) => {
            let mut s = String::from_str("检查进程状态失败: ");
            s.append(m.as_str());
            Err(s)
        },
        PollDecision::Wait => Err(String::new()),
    }
}

/// Begins a start attempt: empties the registry and hands back the process
/// it held, which the caller kills before spawning the new one.
pub fn begin_start<H>(registry: &mut Registry<H>) -> (evicted: Option<H>)
    ensures
        final(registry)@ is None,
        pid_of(final(registry)@) == apply(pid_of(old(registry)@), SlotOp::Take),
        evicted == match old(registry)@ {
            Some(e) => Some(e.1),
            None => None::<H>,
        },
{
    match registry.take() {
        Some(e) => Some(e.1),
        None => None,
    }
}

/// Ends a start attempt once the wait loop has settled: a failed start
/// hands its own process back to be killed; a ready or timed-out start
/// registers its process and hands back the one it replaced; otherwise the
/// registry is left as it is. Also gives the start command's result.
pub fn settle_start<H>(registry: &mut Registry<H>, decision: PollDecision, pid: u32, handle: H) -> (r: (
    Result<CommandResult, String>,
    Option<H>,
))
    requires
        !(decision@ is Wait),
    ensures
        start_result_matches(decision@, r.0),
        registers(decision@) ==> final(registry)@ == Some((pid, handle)) && pid_of(final(registry)@)
            == apply(pid_of(old(registry)@), SlotOp::Register(pid)) && r.1 == match old(registry)@ {
            Some(e) => Some(e.1),
            None => None,
        },
        kills(decision@) ==> final(registry)@ == old(registry)@ && r.1 == Some(handle),
        !registers(decision@) && !kills(decision@) ==> final(registry)@ == old(registry)@ && r.1
            is None,
        old(registry)@ is None ==> (final(registry)@ is Some <==> (r.0 matches Ok(c) && c.success)),
{
    if decision.kills_process() {
        (start_report(decision), Some(handle))
    } else if decision.registers_process() {
        let evicted = registry.register(pid, handle);
        let old_handle = match evicted {
            Some(e) => Some(e.1),
            None => None,
        };
        (start_report(decision), old_handle)
    } else {
        (start_report(decision), None)
    }
}

/// A settled start registers its process exactly when it reports success:
/// a failure, an early exit or a failed probe leaves nothing registered.
pub proof fn lemma_registered_iff_success(d: Decision, r: Result<CommandResult, String>)
    requires
        !(d is Wait),
        start_result_matches(d, r),
    ensures
        registers(d) <==> (r matches Ok(c) && c.success),
{
}

/// The lines contain a ready line on standard output.
pub open spec fn has_ready_line(lines: Seq<OutputLine>) -> bool {
    exists|i: int| 0 <= i < lines.len() && (#[trigger] lines[i] matches OutputLine::Stdout(l) && is_ready_line(l))
}

/// The lines contain a fatal line on standard error.
pub open spec fn has_fatal_line(lines: Seq<OutputLine>) -> bool {
    exists|i: int| 0 <= i < lines.len() && (#[trigger] lines[i] matches OutputLine::Stderr(l) && is_fatal_line(l))
}

/// Once a fatal line has been delivered, the state holds a failure reason.
proof fn lemma_fatal_recorded(lines: Seq<OutputLine>)
    requires
        has_fatal_line(lines),
    ensures
        replay(fresh(), lines).failure is Some,
    decreases lines.len(),
{
    let i = choose|i: int| 0 <= i < lines.len() && (#[trigger] lines[i] matches OutputLine::Stderr(l) && is_fatal_line(l));
    if i == lines.len() - 1 {
        if let OutputLine::Stderr(l) = lines[i] {
            assert(crate::readiness::fatal_reason(l) is Some);
        }
    } else {
        let init = lines.drop_last();
        assert(init[i] == lines[i]);
        lemma_fatal_recorded(init);
        crate::readiness::lemma_verdict_monotonic(replay(fresh(), init), seq![lines.last()]);
        assert(seq![lines.last()].drop_last() =~= Seq::<OutputLine>::empty());
    }
}

/// Lines without a ready line or a fatal line leave the state pending.
proof fn lemma_quiet_pending(lines: Seq<OutputLine>)
    requires
        !has_ready_line(lines),
        !has_fatal_line(lines),
    ensures
        replay(fresh(), lines) == fresh(),
    decreases lines.len(),
{
    if lines.len() > 0 {
        let init = lines.drop_last();
        assert forall|i: int| 0 <= i < init.len() implies !(#[trigger] init[i] matches OutputLine::Stdout(l) && is_ready_line(l)) by {
            assert(init[i] == lines[i]);
        }
        assert forall|i: int| 0 <= i < init.len() implies !(#[trigger] init[i] matches OutputLine::Stderr(l) && is_fatal_line(l)) by {
            assert(init[i] == lines[i]);
        }
        lemma_quiet_pending(init);
        let last = lines[lines.len() - 1];
        assert(!(last matches OutputLine::Stdout(l) && is_ready_line(l)));
        assert(!(last matches OutputLine::Stderr(l) && is_fatal_line(l)));
    }
}

/// If a ready line and a fatal line have both been delivered before a poll,
/// in either order, the poll reports the failure and kills the process;
/// it never reports readiness.
pub proof fn lemma_failure_wins(lines: Seq<OutputLine>, status: StatusView, elapsed: nat, deadline: nat)
    requires
        has_ready_line(lines),
        has_fatal_line(lines),
    ensures
        next_decision(replay(fresh(), lines), status, elapsed, deadline) is Failed,
        kills(next_decision(replay(fresh(), lines), status, elapsed, deadline)),
        !registers(next_decision(replay(fresh(), lines), status, elapsed, deadline)),
{
    lemma_fatal_recorded(lines);
}

/// A process that prints neither a ready line nor a fatal line and keeps
/// running is waited for until the deadline; at or after the deadline the
/// poll ends the wait, registers the process and does not kill it.
pub proof fn lemma_timeout_fails_open(lines: Seq<OutputLine>, elapsed: nat, deadline: nat)
    requires
        !has_ready_line(lines),
        !has_fatal_line(lines),
    ensures
        elapsed < deadline ==> next_decision(replay(fresh(), lines), StatusView::Running, elapsed, deadline) is Wait,
        elapsed >= deadline ==> next_decision(replay(fresh(), lines), StatusView::Running, elapsed, deadline) is TimedOut,
        elapsed >= deadline ==> registers(next_decision(replay(fresh(), lines), StatusView::Running, elapsed, deadline)),
        !kills(next_decision(replay(fresh(), lines), StatusView::Running, elapsed, deadline)),
{
    lemma_quiet_pending(lines);
}

} // verus!
