//! The result that each editor command hands back to the front end.
use vstd::prelude::*;

use crate::text::{decimal, push_decimal};

verus! {

/// The outcome of a command: whether it succeeded, what it printed, and a
/// message when it failed.
pub struct CommandResult {
    pub success: bool,
    pub stdout: Option<String>,
    pub stderr: Option<String>,
    pub error: Option<String>,
}

/// The view of an optional string.
pub open spec fn opt_view(o: Option<String>) -> Option<Seq<char>> {
    match o {
        Some(s) => Some(s@),
        None => None,
    }
}

/// `c` reports success with `message` as its output.
pub open spec fn is_success_with(c: CommandResult, message: Seq<char>) -> bool {
    c.success && opt_view(c.stdout) == Some(message) && c.stderr is None && c.error is None
}

/// `c` reports failure with `message` as its error.
pub open spec fn is_failure_with(c: CommandResult, message: Seq<char>) -> bool {
    !c.success && c.stdout is None && c.stderr is None && opt_view(c.error) == Some(message)
}

/// `r` is a result that `p` accepts.
pub open spec fn ok_with(r: Result<CommandResult, String>, p: spec_fn(CommandResult) -> bool) -> bool {
    match r {
        Ok(c) => p(c),
        Err(_) => false,
    }
}

/// The decimal numeral of a signed number, with `-` before a negative one.
pub open spec fn signed_decimal(n: int) -> Seq<char> {
    if n < 0 {
        seq!['-'] + decimal((-n) as nat)
    } else {
        decimal(n as nat)
    }
}

impl CommandResult {
    /// A success whose message stands in `stdout`.
    pub fn succeeded(message: String) -> (r: CommandResult)
        ensures
            is_success_with(r, message@),
    {
        CommandResult { success: true, stdout: Some(message), stderr: None, error: None }
    }

    /// A failure whose message stands in `error`.
    pub fn failed(message: String) -> (r: CommandResult)
        ensures
            is_failure_with(r, message@),
    {
        CommandResult { success: false, stdout: None, stderr: None, error: Some(message) }
    }
}

/// Appends the decimal numeral of `n`, signed, to `s`.
pub fn push_signed_decimal(s: &mut String, n: i32)
    ensures
        final(s)@ == old(s)@ + signed_decimal(n as int),
{
    if n < 0 {
        let ghost before = s@;
        crate::text::push_char(s, '-');
        let m: i64 = -(n as i64);
        push_decimal(s, m as u128);
        assert(s@ =~= before + signed_decimal(n as int));
    } else {
        push_decimal(s, n as u128);
    }
}

} // verus!
