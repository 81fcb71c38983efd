//! Stopping the registered server: the escalation ladder from a graceful to
//! a forceful termination, as a state machine that the caller drives by
//! running each step and handing back what the step's command did.
use vstd::prelude::*;

use crate::platform::Platform;
use crate::registry::{apply, pid_of, Registry, SlotOp};
use crate::report::{is_failure_with, is_success_with, CommandResult};

verus! {

/// The port the preview server listens on.
pub const SERVER_PORT: u16 = 4000;

/// How long a gracefully signalled process is given to exit, in milliseconds.
pub const GRACE_MS: u64 = 1000;

/// How a stop request ended, once a process was found.
#[derive(Clone, Copy, PartialEq, Eq, Structural)]
pub enum StopOutcome {
    /// The process was signalled, or was found gone.
    Stopped,
    /// No termination request could be issued at all.
    Error,
}

/// The next thing to do.
#[derive(Clone, Copy, PartialEq, Eq, Structural)]
pub enum ShutdownStep {
    /// Terminate the process and its whole tree, forcefully.
    KillTree(u32),
    /// Signal the process itself directly.
    KillDirect(u32),
    /// Kill whatever listens on the port, as the port reclaimer does.
    SweepPort(u16),
    /// Send the graceful termination signal.
    Terminate(u32),
    /// Sleep for this many milliseconds.
    Pause(u64),
    /// Ask whether the process is still alive.
    Probe(u32),
    /// Send the forceful termination signal.
    ForceKill(u32),
    /// Nothing is left to do.
    Finish(StopOutcome),
}

/// What a step's command did. For a probe, `Succeeded` means the process
/// is alive and `Refused` that it is gone.
#[derive(Clone, Copy, PartialEq, Eq, Structural)]
pub enum CommandEvent {
    /// The command ran and reported success.
    Succeeded,
    /// The command ran and reported failure.
    Refused,
    /// The command could not be run.
    NotRun,
}

/// Where the ladder stands.
#[derive(Clone, Copy, PartialEq, Eq, Structural)]
pub enum Stage {
    AwaitTree,
    AwaitDirect,
    AwaitSweep,
    AwaitTerm,
    AwaitPause,
    AwaitProbe,
    AwaitForce,
    Done,
}

/// The ladder's state as plain values: the process, the stage, and whether
/// a termination request has been issued.
#[derive(Clone, Copy, PartialEq, Eq, Structural)]
pub struct ShutdownState {
    pub pid: u32,
    pub stage: Stage,
    pub issued: bool,
}

/// How the ladder ends, from whether a request was issued.
pub open spec fn outcome_of(issued: bool) -> StopOutcome {
    if issued {
        StopOutcome::Stopped
    } else {
        StopOutcome::Error
    }
}

/// The first state and step of the ladder on `p`: on Windows the process
/// tree is terminated, elsewhere the graceful signal is sent.
pub open spec fn ladder_start(p: Platform, pid: u32) -> (ShutdownState, ShutdownStep) {
    if p is Windows {
        (ShutdownState { pid, stage: Stage::AwaitTree, issued: false }, ShutdownStep::KillTree(pid))
    } else {
        (ShutdownState { pid, stage: Stage::AwaitTerm, issued: false }, ShutdownStep::Terminate(pid))
    }
}

/// One move of the ladder, from the state and what the last step did.
pub open spec fn ladder_next(s: ShutdownState, e: CommandEvent) -> (ShutdownState, ShutdownStep) {
    let ran = !(e is NotRun);
    match s.stage {
        Stage::AwaitTree => if e is Succeeded {
            (ShutdownState { stage: Stage::AwaitSweep, issued: true, ..s }, ShutdownStep::SweepPort(SERVER_PORT))
        } else {
            (ShutdownState { stage: Stage::AwaitDirect, issued: s.issued || ran, ..s }, ShutdownStep::KillDirect(s.pid))
        },
        Stage::AwaitDirect => (
            ShutdownState { stage: Stage::AwaitSweep, issued: s.issued || ran, ..s },
            ShutdownStep::SweepPort(SERVER_PORT),
        ),
        Stage::AwaitSweep => (
            ShutdownState { stage: Stage::Done, ..s },
            ShutdownStep::Finish(outcome_of(s.issued)),
        ),
        Stage::AwaitTerm => (
            ShutdownState { stage: Stage::AwaitPause, issued: s.issued || ran, ..s },
            ShutdownStep::Pause(GRACE_MS),
        ),
        Stage::AwaitPause => (ShutdownState { stage: Stage::AwaitProbe, ..s }, ShutdownStep::Probe(s.pid)),
        Stage::AwaitProbe => match e {
            CommandEvent::Succeeded => (
                ShutdownState { stage: Stage::AwaitForce, ..s },
                ShutdownStep::ForceKill(s.pid),
            ),
            CommandEvent::Refused => (
                ShutdownState { stage: Stage::Done, issued: true, ..s },
                ShutdownStep::Finish(StopOutcome::Stopped),
            ),
            CommandEvent::NotRun => (
                ShutdownState { stage: Stage::Done, ..s },
                ShutdownStep::Finish(outcome_of(s.issued)),
            ),
        },
        Stage::AwaitForce => (
            ShutdownState { stage: Stage::Done, issued: s.issued || ran, ..s },
            ShutdownStep::Finish(outcome_of(s.issued || ran)),
        ),
        Stage::Done => (s, ShutdownStep::Finish(outcome_of(s.issued))),
    }
}

/// The state and step after the ladder has taken in `es`, in order.
pub open spec fn ladder_after(start: (ShutdownState, ShutdownStep), es: Seq<CommandEvent>) -> (ShutdownState, ShutdownStep)
    decreases es.len(),
{
    if es.len() == 0 {
        start
    } else {
        ladder_next(ladder_after(start, es.drop_last()).0, es.last())
    }
}

/// Whatever the commands do, the ladder finishes: after at most three
/// events on Windows and four elsewhere, its step is `Finish`, and it stays
/// there.
pub proof fn lemma_ladder_finishes(p: Platform, pid: u32, es: Seq<CommandEvent>)
    ensures
        es.len() >= (if p is Windows {
            3int
        } else {
            4int
        }) ==> ladder_after(ladder_start(p, pid), es).1 is Finish,
{
    lemma_stage_progress(p, pid, es);
}

/// How far along the ladder is after `es`: on Windows, after one event it
/// is waiting on the direct signal or the sweep, after two on the sweep or
/// done, after three done; elsewhere likewise over four stages.
proof fn lemma_stage_progress(p: Platform, pid: u32, es: Seq<CommandEvent>)
    ensures
        ({
            let s = ladder_after(ladder_start(p, pid), es).0.stage;
            let n = es.len();
            if p is Windows {
                &&& n == 0 ==> s == Stage::AwaitTree
                &&& n == 1 ==> (s == Stage::AwaitDirect || s == Stage::AwaitSweep)
                &&& n == 2 ==> (s == Stage::AwaitSweep || s == Stage::Done)
                &&& n >= 3 ==> s == Stage::Done
            } else {
                &&& n == 0 ==> s == Stage::AwaitTerm
                &&& n == 1 ==> s == Stage::AwaitPause
                &&& n == 2 ==> s == Stage::AwaitProbe
                &&& n == 3 ==> (s == Stage::AwaitForce || s == Stage::Done)
                &&& n >= 4 ==> s == Stage::Done
            }
        }),
        ladder_after(ladder_start(p, pid), es).0.stage == Stage::Done ==> ladder_after(
            ladder_start(p, pid),
            es,
        ).1 is Finish,
    decreases es.len(),
{
    if es.len() > 0 {
        lemma_stage_progress(p, pid, es.drop_last());
    }
}

/// The escalation ladder for one process.
pub struct Shutdown {
    state: ShutdownState,
}

impl View for Shutdown {
    type V = ShutdownState;

    closed spec fn view(&self) -> ShutdownState {
        self.state
    }
}

impl Shutdown {
    /// Starts the ladder for `pid` on `platform`, with its first step.
    pub fn start(platform: Platform, pid: u32) -> (r: (Shutdown, ShutdownStep))
        ensures
            (r.0@, r.1) == ladder_start(platform, pid),
    {
        match platform {
            Platform::Windows => (
                Shutdown { state: ShutdownState { pid, stage: Stage::AwaitTree, issued: false } },
                ShutdownStep::KillTree(pid),
            ),
            _ => (
                Shutdown { state: ShutdownState { pid, stage: Stage::AwaitTerm, issued: false } },
                ShutdownStep::Terminate(pid),
            ),
        }
    }

    /// The process being stopped.
    pub fn pid(&self) -> (r: u32)
        ensures
            r == self@.pid,
    {
        self.state.pid
    }

    /// Moves on from what the last step's command did, and gives the next step.
    pub fn advance(&mut self, event: CommandEvent) -> (r: ShutdownStep)
        ensures
            (final(self)@, r) == ladder_next(old(self)@, event),
    {
        let s = self.state;
        let ran = match event {
            CommandEvent::NotRun => false,
            _ => true,
        };
        let (next, step) = match s.stage {
            Stage::AwaitTree => match event {
                CommandEvent::Succeeded => (
                    ShutdownState { pid: s.pid, stage: Stage::AwaitSweep, issued: true },
                    ShutdownStep::SweepPort(SERVER_PORT),
                ),
                _ => (
                    ShutdownState { pid: s.pid, stage: Stage::AwaitDirect, issued: s.issued || ran },
                    ShutdownStep::KillDirect(s.pid),
                ),
            },
            Stage::AwaitDirect => (
                ShutdownState { pid: s.pid, stage: Stage::AwaitSweep, issued: s.issued || ran },
                ShutdownStep::SweepPort(SERVER_PORT),
            ),
            Stage::AwaitSweep => (
                ShutdownState { pid: s.pid, stage: Stage::Done, issued: s.issued },
                ShutdownStep::Finish(outcome(s.issued)),
            ),
            Stage::AwaitTerm => (
                ShutdownState { pid: s.pid, stage: Stage::AwaitPause, issued: s.issued || ran },
                ShutdownStep::Pause(GRACE_MS),
            ),
            Stage::AwaitPause => (
                ShutdownState { pid: s.pid, stage: Stage::AwaitProbe, issued: s.issued },
                ShutdownStep::Probe(s.pid),
            ),
            Stage::AwaitProbe => match event {
                CommandEvent::Succeeded => (
                    ShutdownState { pid: s.pid, stage: Stage::AwaitForce, issued: s.issued },
                    ShutdownStep::ForceKill(s.pid),
                ),
                CommandEvent::Refused => (
                    ShutdownState { pid: s.pid, stage: Stage::Done, issued: true },
                    ShutdownStep::Finish(StopOutcome::Stopped),
                ),
                CommandEvent::NotRun => (
                    ShutdownState { pid: s.pid, stage: Stage::Done, issued: s.issued },
                    ShutdownStep::Finish(outcome(s.issued)),
                ),
            },
            Stage::AwaitForce => (
                ShutdownState { pid: s.pid, stage: Stage::Done, issued: s.issued || ran },
                ShutdownStep::Finish(outcome(s.issued || ran)),
            ),
            Stage::Done => (s, ShutdownStep::Finish(outcome(s.issued))),
        };
        self.state = next;
        step
    }
}

/// How the ladder ends, from whether a request was issued.
fn outcome(issued: bool) -> (r: StopOutcome)
    ensures
        r == outcome_of(issued),
{
    if issued {
        StopOutcome::Stopped
    } else {
        StopOutcome::Error
    }
}

/// What a stop request found in the registry.
pub enum StopPlan<H> {
    /// No server was registered.
    NothingRunning,
    /// The registered server, taken out of the registry, with its ladder
    /// and first step.
    Stopping(Shutdown, ShutdownStep, H),
}

/// A stop request finds a process in a slot holding `slot`.
pub open spec fn stop_finds(slot: Option<u32>) -> bool {
    slot is Some
}

/// Takes the registered server out of the registry and starts its ladder;
/// with nothing registered, reports that nothing runs.
pub fn begin_stop<H>(registry: &mut Registry<H>, platform: Platform) -> (r: StopPlan<H>)
    ensures
        final(registry)@ is None,
        pid_of(final(registry)@) == apply(pid_of(old(registry)@), SlotOp::Take),
        (r is NothingRunning) == !stop_finds(pid_of(old(registry)@)),
        match r {
            StopPlan::Stopping(s, step, h) => old(registry)@ == Some((s@.pid, h)) && (s@, step)
                == ladder_start(platform, s@.pid),
            StopPlan::NothingRunning => true,
        },
{
    match registry.take() {
        None => StopPlan::NothingRunning,
        Some((pid, handle)) => {
            let (s, step) = Shutdown::start(platform, pid);
            StopPlan::Stopping(s, step, handle)
        },
    }
}

/// The message for a stop that found nothing to stop.
pub open spec fn nothing_running_text() -> Seq<char> {
    "没有正在运行的服务器"@
}

/// The message for a completed stop.
pub open spec fn stopped_text() -> Seq<char> {
    "服务器已停止"@
}

/// The message for a stop that could not signal the process at all.
pub open spec fn unstoppable_text() -> Seq<char> {
    "无法终止服务器进程"@
}

/// The stop command's result when nothing was registered.
pub fn nothing_running_report() -> (r: CommandResult)
    ensures
        is_failure_with(r, nothing_running_text()),
{
    CommandResult::failed(String::from_str("没有正在运行的服务器"))
}

/// The stop command's result once the ladder has finished.
pub fn stop_report(o: StopOutcome) -> (r: Result<CommandResult, String>)
    ensures
        match o {
            StopOutcome::Stopped => r matches Ok(c) && is_success_with(c, stopped_text()),
            StopOutcome::Error => r matches Err(e) && e@ == unstoppable_text(),
        },
{
    match o {
        StopOutcome::Stopped => Ok(CommandResult::succeeded(String::from_str("服务器已停止"))),
        StopOutcome::Error => Err(String::from_str("无法终止服务器进程")),
    }
}

/// Stopping with nothing registered finds nothing and leaves the slot
/// empty, so a second stop finds nothing as well.
pub proof fn lemma_stop_idempotent(slot: Option<u32>)
    requires
        slot is None,
    ensures
        !stop_finds(slot),
        apply(slot, SlotOp::Take) is None,
        !stop_finds(apply(slot, SlotOp::Take)),
{
}

} // verus!
