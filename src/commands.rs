//! The command lines that the editor runs, and the results it builds from
//! what they print.
use vstd::prelude::*;

use crate::decode::{decoded_text, smart_decode};
use crate::platform::{tool_program, tool_program_name, Platform};
use crate::report::{is_failure_with, opt_view, CommandResult};
use crate::shutdown::ShutdownStep;
use crate::text::{decimal, decimal_string, push_decimal};

verus! {

/// A program to run and its arguments.
pub struct Invocation {
    pub program: String,
    pub args: Vec<String>,
}

/// The texts of a sequence of strings.
pub open spec fn texts(v: Seq<String>) -> Seq<Seq<char>> {
    v.map_values(|s: String| s@)
}

/// The texts of an optional list of strings.
pub open spec fn opt_texts(w: Option<Vec<String>>) -> Option<Seq<Seq<char>>> {
    match w {
        Some(v) => Some(texts(v@)),
        None => None,
    }
}

/// `i` runs `program` with `args`.
pub open spec fn runs(i: Invocation, program: Seq<char>, args: Seq<Seq<char>>) -> bool {
    i.program@ == program && texts(i.args@) == args
}

/// What `shell_words::split` gives for a command line: its words, or
/// `None` when a quote is left open.
pub uninterp spec fn shell_words_of(s: Seq<char>) -> Option<Seq<Seq<char>>>;

/// Relies on `shell_words::split`: splits a command line into words the
/// way a POSIX shell does, and fails on an unclosed quote.
#[verifier::external_body]
fn split_words(s: &str) -> (r: Option<Vec<String>>)
    ensures
        match r {
            Some(v) => shell_words_of(s@) == Some(texts(v@)),
            None => shell_words_of(s@) is None,
        },
{
    shell_words::split(s).ok()
}

/// The text of `s` as a `String`.
fn owned(s: &str) -> (r: String)
    ensures
        r@ == s@,
{
    String::from_str(s)
}

/// The command line that runs `command` through the platform's shell.
pub open spec fn shell_args(command: Seq<char>, p: Platform) -> (Seq<char>, Seq<Seq<char>>) {
    if p is Windows {
        ("cmd"@, seq!["/C"@, command])
    } else {
        ("sh"@, seq!["-c"@, command])
    }
}

/// Runs `command` through `cmd /C` on Windows and `sh -c` elsewhere.
pub fn shell_invocation(command: &str, platform: Platform) -> (r: Invocation)
    ensures
        runs(r, shell_args(command@, platform).0, shell_args(command@, platform).1),
{
    let (program, flag) = match platform {
        Platform::Windows => ("cmd", "/C"),
        _ => ("sh", "-c"),
    };
    let args = vec![owned(flag), owned(command)];
    let r = Invocation { program: owned(program), args };
    assert(texts(r.args@) =~= shell_args(command@, platform).1);
    r
}

/// The command line that runs the site tool with `command`, given the
/// words the command splits into. On Windows the tool's script is run
/// directly with those words, or with the whole command as one argument
/// when it does not split; elsewhere the shell runs `hexo <command>`.
pub open spec fn tool_args(command: Seq<char>, words: Option<Seq<Seq<char>>>, p: Platform) -> (Seq<char>, Seq<Seq<char>>) {
    if p is Windows {
        (
            tool_program(p),
            match words {
                Some(w) => w,
                None => seq![command],
            },
        )
    } else {
        ("sh"@, seq!["-c"@, tool_program(p) + " "@ + command])
    }
}

/// Builds the site tool's command line from the words `command` split into.
pub fn tool_invocation_with(words: Option<Vec<String>>, command: &str, platform: Platform) -> (r: Invocation)
    ensures
        runs(
            r,
            tool_args(command@, opt_texts(words), platform).0,
            tool_args(command@, opt_texts(words), platform).1,
        ),
{
    match platform {
        Platform::Windows => {
            let args = match words {
                Some(w) => w,
                None => vec![owned(command)],
            };
            let r = Invocation { program: owned(tool_program_name(platform)), args };
            assert(texts(r.args@) =~= tool_args(command@, opt_texts(words), platform).1);
            r
        },
        _ => {
            let mut line = owned(tool_program_name(platform));
            line.append(" ");
            line.append(command);
            let args = vec![owned("-c"), line];
            let r = Invocation { program: owned("sh"), args };
            assert(texts(r.args@) =~= tool_args(command@, opt_texts(words), platform).1);
            r
        },
    }
}

/// The site tool's command line for `command`: its words come from
/// `shell_words::split`, which only Windows needs.
pub fn tool_invocation(command: &str, platform: Platform) -> (r: Invocation)
    ensures
        runs(
            r,
            tool_args(command@, shell_words_of(command@), platform).0,
            tool_args(command@, shell_words_of(command@), platform).1,
        ),
{
    match platform {
        Platform::Windows => {
            let words = split_words(command);
            tool_invocation_with(words, command, platform)
        },
        _ => tool_invocation_with(None, command, platform),
    }
}

/// The command line that starts the preview server.
pub fn server_invocation(platform: Platform) -> (r: Invocation)
    ensures
        runs(r, tool_program(platform), seq!["server"@]),
{
    let r = Invocation { program: owned(tool_program_name(platform)), args: vec![owned("server")] };
    assert(texts(r.args@) =~= seq!["server"@]);
    r
}

/// The command line that carries out a step of the stop ladder; `None` for
/// the steps the caller carries out itself (signalling its own handle,
/// freeing the port through `port_holders`, sleeping, finishing).
pub open spec fn step_args(step: ShutdownStep) -> Option<(Seq<char>, Seq<Seq<char>>)> {
    match step {
        ShutdownStep::KillTree(p) => Some(
            ("taskkill"@, seq!["/pid"@, decimal(p as nat), "/T"@, "/F"@]),
        ),
        ShutdownStep::Terminate(p) => Some(("kill"@, seq![decimal(p as nat)])),
        ShutdownStep::Probe(p) => Some(("kill"@, seq!["-0"@, decimal(p as nat)])),
        ShutdownStep::ForceKill(p) => Some(("kill"@, seq!["-9"@, decimal(p as nat)])),
        _ => None,
    }
}

/// The command line for a step of the stop ladder.
pub fn step_invocation(step: ShutdownStep) -> (r: Option<Invocation>)
    ensures
        match step_args(step) {
            Some(a) => r matches Some(i) && runs(i, a.0, a.1),
            None => r is None,
        },
{
    let r = match step {
        ShutdownStep::KillTree(p) => Some(
            Invocation {
                program: owned("taskkill"),
                args: vec![owned("/pid"), decimal_string(p as u128), owned("/T"), owned("/F")],
            },
        ),
        ShutdownStep::Terminate(p) => Some(
            Invocation { program: owned("kill"), args: vec![decimal_string(p as u128)] },
        ),
        ShutdownStep::Probe(p) => Some(
            Invocation { program: owned("kill"), args: vec![owned("-0"), decimal_string(p as u128)] },
        ),
        ShutdownStep::ForceKill(p) => Some(
            Invocation { program: owned("kill"), args: vec![owned("-9"), decimal_string(p as u128)] },
        ),
        _ => None,
    };
    proof {
        if r is Some {
            let i = r->0;
            let a = step_args(step)->0;
            assert(texts(i.args@) =~= a.1);
        }
    }
    r
}

/// The command line that lists the processes holding `port`.
pub open spec fn listing_args(port: nat, p: Platform) -> (Seq<char>, Seq<Seq<char>>) {
    if p is Windows {
        ("cmd"@, seq!["/C"@, "netstat -ano | findstr :"@ + decimal(port)])
    } else {
        ("lsof"@, seq!["-t"@, "-iTCP:"@ + decimal(port), "-sTCP:LISTEN"@])
    }
}

/// Lists the processes holding `port`: on Windows the connections whose
/// line mentions `:port`, through `netstat` (`port_holders` keeps only the
/// listeners on exactly that port); elsewhere the TCP listeners on the port,
/// through `lsof`.
pub fn port_listing_invocation(port: u16, platform: Platform) -> (r: Invocation)
    ensures
        runs(r, listing_args(port as nat, platform).0, listing_args(port as nat, platform).1),
{
    let r = match platform {
        Platform::Windows => {
            let mut line = owned("netstat -ano | findstr :");
            push_decimal(&mut line, port as u128);
            Invocation { program: owned("cmd"), args: vec![owned("/C"), line] }
        },
        _ => {
            let mut arg = owned("-iTCP:");
            push_decimal(&mut arg, port as u128);
            Invocation {
                program: owned("lsof"),
                args: vec![owned("-t"), arg, owned("-sTCP:LISTEN")],
            }
        },
    };
    assert(texts(r.args@) =~= listing_args(port as nat, platform).1);
    r
}

/// The command line that forcefully kills process `pid`.
pub open spec fn kill_args(pid: nat, p: Platform) -> (Seq<char>, Seq<Seq<char>>) {
    if p is Windows {
        ("taskkill"@, seq!["/F"@, "/PID"@, decimal(pid)])
    } else {
        ("kill"@, seq!["-9"@, decimal(pid)])
    }
}

/// Forcefully kills process `pid`: `taskkill /F` on Windows, `kill -9` elsewhere.
pub fn kill_invocation(pid: u32, platform: Platform) -> (r: Invocation)
    ensures
        runs(r, kill_args(pid as nat, platform).0, kill_args(pid as nat, platform).1),
{
    let r = match platform {
        Platform::Windows => Invocation {
            program: owned("taskkill"),
            args: vec![owned("/F"), owned("/PID"), decimal_string(pid as u128)],
        },
        _ => Invocation { program: owned("kill"), args: vec![owned("-9"), decimal_string(pid as u128)] },
    };
    assert(texts(r.args@) =~= kill_args(pid as nat, platform).1);
    r
}

/// The error for a command that failed and printed nothing.
pub open spec fn no_output_text() -> Seq<char> {
    "命令执行失败，未返回输出"@
}

/// The error for a command that could not be run.
pub open spec fn launch_error_text(message: Seq<char>) -> Seq<char> {
    "命令执行错误: "@ + message
}

/// The result of a command that ran: its exit status, and both outputs
/// decoded; a failure with no output at all also gets an error message.
pub fn output_report(success: bool, stdout: &[u8], stderr: &[u8], platform: Platform) -> (r: CommandResult)
    ensures
        r.success == success,
        opt_view(r.stdout) == Some(decoded_text(stdout@, platform)),
        opt_view(r.stderr) == Some(decoded_text(stderr@, platform)),
        opt_view(r.error) == if !success && decoded_text(stdout@, platform).len() == 0
            && decoded_text(stderr@, platform).len() == 0 {
            Some(no_output_text())
        } else {
            None
        },
{
    let out = smart_decode(stdout, platform);
    let err = smart_decode(stderr, platform);
    let error = if !success && out.as_str().is_empty() && err.as_str().is_empty() {
        Some(owned("命令执行失败，未返回输出"))
    } else {
        None
    };
    CommandResult { success, stdout: Some(out), stderr: Some(err), error }
}

/// The result of a command that could not be run.
pub fn launch_error_report(message: &str) -> (r: CommandResult)
    ensures
        is_failure_with(r, launch_error_text(message@)),
{
    let mut s = owned("命令执行错误: ");
    s.append(message);
    CommandResult::failed(s)
}

} // verus!
