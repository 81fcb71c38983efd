use hexo_supervisor::commands::{kill_invocation, port_listing_invocation};
use hexo_supervisor::platform::Platform;
use hexo_supervisor::ports::{holder_of_line, port_holders, port_report, port_unchecked_error};

#[test]
fn netstat_listening_lines_give_pids() {
    let out = "  TCP    0.0.0.0:4000           0.0.0.0:0              LISTENING       12345\r\n  TCP    127.0.0.1:4000         127.0.0.1:51234        ESTABLISHED     12345\r\n  TCP    [::]:4000              [::]:0                 LISTENING       678\r\n";
    assert_eq!(port_holders(out, 4000, Platform::Windows), vec![12345, 678]);
}

#[test]
fn netstat_odd_lines_are_skipped() {
    let out = "LISTENING\nTCP 0.0.0.0:4000 0.0.0.0:0 LISTENING abc\nTCP 0.0.0.0:4000 0.0.0.0:0 LISTENING +9   \nTCP 0.0.0.0:4000 0.0.0.0:0 LISTENING 99999999999\nTCP 0.0.0.0:4000 LISTENING 5";
    assert_eq!(port_holders(out, 4000, Platform::Windows), vec![9]);
    assert_eq!(port_holders("", 4000, Platform::Windows), Vec::<u32>::new());
}

#[test]
fn lsof_lines_give_pids() {
    assert_eq!(port_holders("4242\n", 4000, Platform::Linux), vec![4242]);
    assert_eq!(port_holders(" 11\n22 \n\nx\n33", 4000, Platform::MacOs), vec![11, 22, 33]);
    assert_eq!(port_holders("", 4000, Platform::Linux), Vec::<u32>::new());
    assert_eq!(port_holders("4294967296\n-1\n", 4000, Platform::Linux), Vec::<u32>::new());
}

#[test]
fn port_reports() {
    let freed = port_report(2, 4000);
    assert!(freed.success);
    assert_eq!(freed.stdout.as_deref(), Some("已成功终止 2 个占用端口 4000 的进程"));
    let free = port_report(0, 8080);
    assert!(free.success);
    assert_eq!(free.stdout.as_deref(), Some("端口 8080 未被占用"));
    assert_eq!(port_unchecked_error(), "无法检查或清理端口");
}

#[test]
fn port_command_lines() {
    let win = port_listing_invocation(4000, Platform::Windows);
    assert_eq!(win.program, "cmd");
    assert_eq!(win.args, vec!["/C", "netstat -ano | findstr :4000"]);
    let unix = port_listing_invocation(65535, Platform::Linux);
    assert_eq!(unix.program, "lsof");
    assert_eq!(unix.args, vec!["-t", "-iTCP:65535", "-sTCP:LISTEN"]);
    let k = kill_invocation(12, Platform::Windows);
    assert_eq!((k.program.as_str(), k.args), ("taskkill", vec!["/F".to_string(), "/PID".to_string(), "12".to_string()]));
    let k = kill_invocation(12, Platform::Linux);
    assert_eq!((k.program.as_str(), k.args), ("kill", vec!["-9".to_string(), "12".to_string()]));
}

#[test]
fn netstat_other_ports_and_states_are_not_holders() {
    let out = "  TCP    0.0.0.0:40001          0.0.0.0:0              LISTENING       7\r\n  TCP    127.0.0.1:14000        0.0.0.0:0              LISTENING       8\r\n  TCP    127.0.0.1:51234        127.0.0.1:4000         ESTABLISHED     9\r\n  TCP    127.0.0.1:4000         127.0.0.1:51234        ESTABLISHED     10\r\n  UDP    0.0.0.0:4000           *:*                                    11\r\n  TCP    0.0.0.0:4000           0.0.0.0:0              LISTENING       12\r\n";
    assert_eq!(port_holders(out, 4000, Platform::Windows), vec![12]);
    assert_eq!(port_holders(out, 40001, Platform::Windows), vec![7]);
    assert_eq!(port_holders(out, 14000, Platform::Windows), vec![8]);
}

#[test]
fn one_netstat_line() {
    let line: Vec<char> = "TCP 0.0.0.0:40001 0.0.0.0:0 LISTENING 7".chars().collect();
    assert_eq!(holder_of_line(&line, 4000, Platform::Windows), None);
    assert_eq!(holder_of_line(&line, 40001, Platform::Windows), Some(7));
    let line: Vec<char> = "  TCP    [::]:4000   [::]:0   LISTENING   31\r".chars().collect();
    assert_eq!(holder_of_line(&line, 4000, Platform::Windows), Some(31));
}
