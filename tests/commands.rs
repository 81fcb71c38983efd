use hexo_supervisor::commands::{
    launch_error_report, output_report, server_invocation, shell_invocation, tool_invocation,
    tool_invocation_with,
};
use hexo_supervisor::decode::smart_decode;
use hexo_supervisor::platform::{tool_program_name, Platform};

#[test]
fn shell_command_lines() {
    let w = shell_invocation("dir \"C:\\My Site\"", Platform::Windows);
    assert_eq!(w.program, "cmd");
    assert_eq!(w.args, vec!["/C", "dir \"C:\\My Site\""]);
    let u = shell_invocation("ls -la", Platform::Linux);
    assert_eq!(u.program, "sh");
    assert_eq!(u.args, vec!["-c", "ls -la"]);
}

#[test]
fn tool_command_splits_words_on_windows() {
    let w = tool_invocation("new \"测试 文章\" --path a", Platform::Windows);
    assert_eq!(w.program, "hexo.cmd");
    assert_eq!(w.args, vec!["new", "测试 文章", "--path", "a"]);
}

#[test]
fn tool_command_with_open_quote_is_one_argument() {
    let w = tool_invocation("new \"unclosed", Platform::Windows);
    assert_eq!(w.args, vec!["new \"unclosed"]);
}

#[test]
fn tool_command_runs_through_shell_elsewhere() {
    let u = tool_invocation("new \"hello world\"", Platform::Linux);
    assert_eq!(u.program, "sh");
    assert_eq!(u.args, vec!["-c", "hexo new \"hello world\""]);
}

#[test]
fn tool_command_from_given_words() {
    let w = tool_invocation_with(Some(vec!["clean".to_string()]), "clean", Platform::Windows);
    assert_eq!(w.args, vec!["clean"]);
    let w = tool_invocation_with(None, "a 'b", Platform::Windows);
    assert_eq!(w.args, vec!["a 'b"]);
}

#[test]
fn server_command_line() {
    let w = server_invocation(Platform::Windows);
    assert_eq!(w.program, "hexo.cmd");
    assert_eq!(w.args, vec!["server"]);
    let m = server_invocation(Platform::MacOs);
    assert_eq!(m.program, "hexo");
    assert_eq!(tool_program_name(Platform::Linux), "hexo");
}

#[test]
fn decode_valid_utf8_everywhere() {
    let bytes = "生成完成 done".as_bytes();
    assert_eq!(smart_decode(bytes, Platform::Windows), "生成完成 done");
    assert_eq!(smart_decode(bytes, Platform::Linux), "生成完成 done");
}

#[test]
fn decode_gbk_on_windows() {
    // "中文" in GBK
    let bytes = [0xD6u8, 0xD0, 0xCE, 0xC4];
    assert_eq!(smart_decode(&bytes, Platform::Windows), "中文");
    assert_eq!(smart_decode(&bytes, Platform::Linux), "\u{FFFD}\u{FFFD}\u{FFFD}\u{FFFD}");
}

#[test]
fn decode_plain_ascii_everywhere() {
    assert_eq!(smart_decode(b"hello", Platform::Linux), "hello");
    assert_eq!(smart_decode(b"hello", Platform::MacOs), "hello");
    assert_eq!(smart_decode(b"hello", Platform::Windows), "hello");
    assert_eq!(smart_decode(b"", Platform::Linux), "");
}

#[test]
fn decode_lossy_when_gbk_fails() {
    let bytes = [b'a', 0xFF, b'b'];
    assert_eq!(smart_decode(&bytes, Platform::Windows), "a\u{FFFD}b");
    assert_eq!(smart_decode(&bytes, Platform::MacOs), "a\u{FFFD}b");
}

#[test]
fn output_report_with_output() {
    let r = output_report(true, b"ok\n", b"", Platform::Linux);
    assert!(r.success);
    assert_eq!(r.stdout.as_deref(), Some("ok\n"));
    assert_eq!(r.stderr.as_deref(), Some(""));
    assert_eq!(r.error, None);
    let r = output_report(false, b"", b"boom", Platform::Linux);
    assert!(!r.success);
    assert_eq!(r.error, None);
}

#[test]
fn output_report_silent_failure() {
    let r = output_report(false, b"", b"", Platform::Windows);
    assert!(!r.success);
    assert_eq!(r.stdout.as_deref(), Some(""));
    assert_eq!(r.error.as_deref(), Some("命令执行失败，未返回输出"));
}

#[test]
fn launch_error_message() {
    let r = launch_error_report("No such file or directory (os error 2)");
    assert!(!r.success);
    assert_eq!(r.stdout, None);
    assert_eq!(
        r.error.as_deref(),
        Some("命令执行错误: No such file or directory (os error 2)")
    );
}
