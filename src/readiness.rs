//! Classifying the preview server's output lines, and the readiness state
//! that the two output listeners fill in while a start is pending.
use vstd::prelude::*;

use crate::text::{chars_of, contains, has_substring, index_of, occurs_at, trim_from, trimmed};

verus! {

/// The reason reported when the server says its port is taken.
pub open spec fn port_in_use_text() -> Seq<char> {
    "端口 4000 已被占用，请先停止其他 Hexo 服务器或占用该端口的程序"@
}

/// The reason reported for a fatal line with nothing after its marker.
pub open spec fn startup_failed_text() -> Seq<char> {
    "启动失败"@
}

/// A standard-output line that says the server is up.
pub open spec fn is_ready_line(line: Seq<char>) -> bool {
    has_substring(line, "running at"@) || has_substring(line, "Start processing"@)
        || has_substring(line, "localhost:4000"@)
}

/// A standard-error line that reports a fatal error.
pub open spec fn is_fatal_line(line: Seq<char>) -> bool {
    has_substring(line, "FATAL"@)
}

/// A fatal line that says the port is already taken.
pub open spec fn is_port_in_use_line(line: Seq<char>) -> bool {
    has_substring(line, "Port 4000 has been used"@) || has_substring(line, "EADDRINUSE"@)
}

/// `i` is the first position at which `p` occurs in `s`.
pub open spec fn first_at(s: Seq<char>, p: Seq<char>, i: int) -> bool {
    occurs_at(s, p, i) && forall|j: int| 0 <= j < i ==> !occurs_at(s, p, j)
}

/// The text of `s` after the first occurrence of `p`.
pub open spec fn after_first(s: Seq<char>, p: Seq<char>) -> Seq<char> {
    let i = choose|i: int| first_at(s, p, i);
    s.subrange(i + p.len(), s.len() as int)
}

/// The failure reason that a standard-error line gives, if it gives one.
pub open spec fn fatal_reason(line: Seq<char>) -> Option<Seq<char>> {
    if !is_fatal_line(line) {
        None
    } else if is_port_in_use_line(line) {
        Some(port_in_use_text())
    } else {
        let t = trimmed(after_first(line, "FATAL"@));
        Some(
            if t.len() == 0 {
                startup_failed_text()
            } else {
                t
            },
        )
    }
}

proof fn lemma_first_at_unique(s: Seq<char>, p: Seq<char>, i: int, j: int)
    requires
        first_at(s, p, i),
        first_at(s, p, j),
    ensures
        i == j,
{
}

/// Whether a standard-output line says the server is up.
pub fn ready_marker_in(line: &str) -> (r: bool)
    ensures
        r == is_ready_line(line@),
{
    contains(line, "running at") || contains(line, "Start processing") || contains(
        line,
        "localhost:4000",
    )
}

/// The failure reason that a standard-error line gives: `None` for a line
/// without the fatal marker; the port message when the port is taken;
/// otherwise the trimmed text after the marker, or a generic reason when
/// that is empty.
pub fn classify_stderr_line(line: &str) -> (r: Option<String>)
    ensures
        match r {
            Some(s) => fatal_reason(line@) == Some(s@),
            None => fatal_reason(line@) is None,
        },
{
    let v = chars_of(line);
    let marker = chars_of("FATAL");
    match index_of(&v, &marker) {
        None => None,
        Some(i) => {
            if contains(line, "Port 4000 has been used") || contains(line, "EADDRINUSE") {
                return Some(String::from_str("端口 4000 已被占用，请先停止其他 Hexo 服务器或占用该端口的程序"));
            }
            proof {
                assert(first_at(line@, "FATAL"@, i as int));
                let k = choose|k: int| first_at(line@, "FATAL"@, k);
                lemma_first_at_unique(line@, "FATAL"@, i as int, k);
            }
            let n = v.len();
            assert(occurs_at(v@, marker@, i as int) && i + marker@.len() <= n);
            let from: usize = i + marker.len();
            let t = trim_from(&v, from);
            if t.as_str().is_empty() {
                Some(String::from_str("启动失败"))
            } else {
                Some(t)
            }
        },
    }
}

/// What the readiness state holds, as plain values.
pub struct ReadinessView {
    pub ready: bool,
    pub failure: Option<Seq<char>>,
}

/// One line of the server's output, as the listeners deliver it.
pub enum OutputLine {
    Stdout(Seq<char>),
    Stderr(Seq<char>),
}

/// The readiness state before any line has come.
pub open spec fn fresh() -> ReadinessView {
    ReadinessView { ready: false, failure: None }
}

/// The state after one more line: a ready line sets the flag, and the first
/// fatal line sets the reason, which no later line replaces.
pub open spec fn observe(v: ReadinessView, line: OutputLine) -> ReadinessView {
    match line {
        OutputLine::Stdout(l) => ReadinessView {
            ready: v.ready || is_ready_line(l),
            failure: v.failure,
        },
        OutputLine::Stderr(l) => ReadinessView {
            ready: v.ready,
            failure: if v.failure is Some {
                v.failure
            } else {
                fatal_reason(l)
            },
        },
    }
}

/// The state after a sequence of lines, in the order they were delivered.
pub open spec fn replay(v: ReadinessView, lines: Seq<OutputLine>) -> ReadinessView
    decreases lines.len(),
{
    if lines.len() == 0 {
        v
    } else {
        observe(replay(v, lines.drop_last()), lines.last())
    }
}

/// The readiness state of one start attempt, written by the two output
/// listeners and read by the wait loop.
pub struct Readiness {
    ready: bool,
    failure: Option<String>,
}

impl View for Readiness {
    type V = ReadinessView;

    closed spec fn view(&self) -> ReadinessView {
        ReadinessView {
            ready: self.ready,
            failure: match self.failure {
                Some(s) => Some(s@),
                None => None,
            },
        }
    }
}

impl Readiness {
    /// A state with no line seen.
    pub fn new() -> (r: Readiness)
        ensures
            r@ == fresh(),
    {
        Readiness { ready: false, failure: None }
    }

    /// Takes in one standard-output line.
    pub fn observe_stdout(&mut self, line: &str)
        ensures
            final(self)@ == observe(old(self)@, OutputLine::Stdout(line@)),
    {
        if !self.ready && ready_marker_in(line) {
            self.ready = true;
        }
    }

    /// Takes in one standard-error line.
    pub fn observe_stderr(&mut self, line: &str)
        ensures
            final(self)@ == observe(old(self)@, OutputLine::Stderr(line@)),
    {
        if self.failure.is_none() {
            self.failure = classify_stderr_line(line);
        }
    }

    /// Whether a ready line has been seen.
    pub fn is_ready(&self) -> (r: bool)
        ensures
            r == self@.ready,
    {
        self.ready
    }

    /// The reason of the first fatal line, if one has been seen.
    pub fn failure(&self) -> (r: Option<String>)
        ensures
            match r {
                Some(s) => self@.failure == Some(s@),
                None => self@.failure is None,
            },
    {
        match &self.failure {
            Some(s) => Some(s.clone()),
            None => None,
        }
    }
}

impl Clone for Readiness {
    fn clone(&self) -> (r: Readiness)
        ensures
            r@ == self@,
    {
        Readiness { ready: self.ready, failure: self.failure() }
    }
}

/// Whatever lines follow, a ready flag once set stays set, and a failure
/// reason once recorded stays the same; so a failed verdict is never
/// overwritten, and the verdict never goes back to pending.
pub proof fn lemma_verdict_monotonic(v: ReadinessView, lines: Seq<OutputLine>)
    ensures
        v.ready ==> replay(v, lines).ready,
        v.failure is Some ==> replay(v, lines).failure == v.failure,
    decreases lines.len(),
{
    if lines.len() > 0 {
        lemma_verdict_monotonic(v, lines.drop_last());
    }
}

/// A ready verdict is never overwritten by lines that carry no fatal marker:
/// only a fatal line can turn it, so that failure wins over readiness.
pub proof fn lemma_ready_kept(v: ReadinessView, lines: Seq<OutputLine>)
    requires
        v.ready,
        v.failure is None,
        forall|i: int|
            0 <= i < lines.len() ==> match #[trigger] lines[i] {
                OutputLine::Stderr(l) => !is_fatal_line(l),
                OutputLine::Stdout(_) => true,
            },
    ensures
        replay(v, lines).ready,
        replay(v, lines).failure is None,
    decreases lines.len(),
{
    if lines.len() > 0 {
        let init = lines.drop_last();
        assert forall|i: int|
            0 <= i < init.len() implies match #[trigger] init[i] {
            OutputLine::Stderr(l) => !is_fatal_line(l),
            OutputLine::Stdout(_) => true,
        } by {
            assert(init[i] == lines[i]);
        }
        lemma_ready_kept(v, init);
        let last = lines[lines.len() - 1];
        assert(match last {
            OutputLine::Stderr(l) => !is_fatal_line(l),
            OutputLine::Stdout(_) => true,
        });
    }
}

} // verus!
