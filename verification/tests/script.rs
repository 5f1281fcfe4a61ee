use drop_typing::hotkey::Platform;
use drop_typing::script::{
    expand_tilde, extension, finish, finish_bytes, run, script_path, start_failed, truncate,
    Folder, Launch,
};

const HOME: Option<&str> = Some("/Users/me");

fn line_on(script: &str, platform: Platform) -> Launch {
    run(script, None, HOME, false, platform).unwrap()
}

fn args(l: &Launch) -> Vec<&str> {
    l.args.iter().map(|a| a.as_str()).collect()
}

#[test]
fn shell_line_success() {
    let launch = line_on("echo drop-typing-ok", Platform::Macos);
    assert_eq!(launch.program, "/bin/zsh");
    assert_eq!(args(&launch), vec!["-lc", "echo drop-typing-ok"]);
    assert!(finish(Some(0), "").is_ok());
}

#[test]
fn shell_line_nonzero_exit_returns_error_with_stderr() {
    let launch = line_on("echo 'boom' >&2; exit 7", Platform::Macos);
    assert_eq!(args(&launch), vec!["-lc", "echo 'boom' >&2; exit 7"]);
    let err = finish_bytes(Some(7), b"boom\n").unwrap_err();
    assert!(err.message.contains("退出码 7"), "{}", err.message);
    assert!(err.message.contains("boom"), "{}", err.message);
}

#[test]
fn shell_line_unknown_command_reports_not_found() {
    let launch = line_on("drop-typing-no-such-command-xyz", Platform::Macos);
    assert_eq!(args(&launch), vec!["-lc", "drop-typing-no-such-command-xyz"]);
    let err = finish(
        Some(127),
        "zsh:1: command not found: drop-typing-no-such-command-xyz\n",
    )
    .unwrap_err();
    let msg = err.message;
    assert!(
        msg.contains("command not found") || msg.contains("未找到命令"),
        "{msg}"
    );
}

#[test]
fn shell_line_nonzero_exit_via_cmd() {
    let launch = line_on("exit 7", Platform::Windows);
    assert_eq!(launch.program, "cmd");
    assert_eq!(args(&launch), vec!["/C", "exit 7"]);
    let err = finish(Some(7), "").unwrap_err();
    assert!(err.message.contains("退出码 7"), "{}", err.message);
}

#[test]
fn shell_line_unknown_command_via_cmd() {
    let launch = line_on("drop-typing-no-such-command-xyz", Platform::Windows);
    assert_eq!(args(&launch), vec!["/C", "drop-typing-no-such-command-xyz"]);
    let err = finish(
        Some(1),
        "'drop-typing-no-such-command-xyz' is not recognized as an internal or external command",
    )
    .unwrap_err();
    let msg = err.message;
    assert!(
        msg.contains("not recognized") || msg.contains("不是内部或外部命令"),
        "{msg}"
    );
}

#[test]
fn file_path_executes_via_shebang() {
    let launch = run("/tmp/ok.sh", None, HOME, true, Platform::Macos).unwrap();
    assert_eq!(launch.program, "/tmp/ok.sh");
    assert!(launch.args.is_empty());
    assert_eq!(launch.folder, Folder::OfScript);
    assert!(finish(Some(0), "").is_ok());
}

#[test]
fn file_path_nonzero_exit_reports_code_and_stderr() {
    let launch = run("/tmp/fail.sh", None, HOME, true, Platform::Macos).unwrap();
    assert_eq!(launch.program, "/tmp/fail.sh");
    let msg = finish_bytes(Some(9), b"from-script\n").unwrap_err().message;
    assert!(msg.contains("退出码 9"), "{msg}");
    assert!(msg.contains("from-script"), "{msg}");
}

#[test]
fn tilde_expansion_uses_home() {
    let home = "/Users/me";
    assert_eq!(expand_tilde("~", Some(home)), home);
    assert_eq!(
        expand_tilde("~/backup.sh", Some(home)),
        format!("{home}/backup.sh")
    );
    assert_eq!(expand_tilde("/abs/path.sh", Some(home)), "/abs/path.sh");
    assert_eq!(expand_tilde("~/backup.sh", None), "~/backup.sh");
}

#[test]
fn non_file_value_falls_through_to_shell() {
    let launch = line_on("~/drop-typing-no-such-dir-xyz/foo.sh", Platform::Macos);
    assert_eq!(launch.program, "/bin/zsh");
    assert_eq!(args(&launch), vec!["-lc", "~/drop-typing-no-such-dir-xyz/foo.sh"]);
    let msg = finish(
        Some(127),
        "zsh:1: no such file or directory: /Users/me/drop-typing-no-such-dir-xyz/foo.sh",
    )
    .unwrap_err()
    .message;
    assert!(
        msg.contains("no such file") || msg.contains("No such file") || msg.contains("没有那个文件"),
        "{msg}"
    );
}

#[test]
fn non_file_value_falls_through_to_cmd() {
    let launch = line_on("C:\\drop-typing-no-such-dir-xyz\\foo.exe", Platform::Windows);
    assert_eq!(launch.program, "cmd");
    assert_eq!(args(&launch), vec!["/C", "C:\\drop-typing-no-such-dir-xyz\\foo.exe"]);
    let msg = finish(
        Some(1),
        "'C:\\drop-typing-no-such-dir-xyz\\foo.exe' is not recognized as an internal or external command",
    )
    .unwrap_err()
    .message;
    assert!(
        msg.contains("not recognized") || msg.contains("不是内部或外部命令"),
        "{msg}"
    );
}

#[test]
fn empty_script_rejected() {
    let err = run("   ", None, HOME, false, Platform::Macos).unwrap_err();
    assert!(err.message.contains("脚本内容为空"));
    assert_eq!(script_path("", HOME).unwrap_err().message, "脚本内容为空");
}

#[test]
fn lines_and_paths_lose_white_space_around_them() {
    assert_eq!(args(&line_on("  ls \n", Platform::Macos)), vec!["-lc", "ls"]);
    assert_eq!(script_path(" ~/a.sh ", HOME).unwrap(), "/Users/me/a.sh");
}

#[test]
fn windows_files_start_by_their_extension() {
    let bat = run("C:\\x\\A.BAT", None, HOME, true, Platform::Windows).unwrap();
    assert_eq!(bat.program, "cmd");
    assert_eq!(args(&bat), vec!["/C", "C:\\x\\A.BAT"]);
    let ps = run("C:\\x\\a.ps1", Some("cmd"), HOME, true, Platform::Windows).unwrap();
    assert_eq!(ps.program, "powershell");
    assert_eq!(
        args(&ps),
        vec!["-NoProfile", "-ExecutionPolicy", "Bypass", "-File", "C:\\x\\a.ps1"]
    );
}

#[test]
fn the_shell_is_a_choice_on_windows_only() {
    let w = run("dir", Some("powershell"), HOME, false, Platform::Windows).unwrap();
    assert_eq!(w.program, "powershell");
    assert_eq!(w.folder, Folder::Home);
    let m = run("ls", Some("powershell"), HOME, false, Platform::Macos).unwrap();
    assert_eq!(m.program, "/bin/zsh");
}

#[test]
fn extensions_follow_the_last_dot_of_the_name() {
    assert_eq!(extension("/a.b/c.tar.gz", Platform::Macos).as_deref(), Some("gz"));
    assert_eq!(extension("/a.b/c", Platform::Macos), None);
    assert_eq!(extension("/a/.bashrc", Platform::Macos), None);
    assert_eq!(extension("a\\.x", Platform::Macos).as_deref(), Some("x"));
    assert_eq!(extension("a\\.x", Platform::Windows), None);
}

#[test]
fn failures_name_code_or_signal() {
    assert_eq!(finish(Some(-1), " ").unwrap_err().message, "脚本执行失败（退出码 -1）");
    assert_eq!(
        finish(None, "killed").unwrap_err().message,
        "脚本执行失败（退出码 信号终止）：killed"
    );
}

#[test]
fn bytes_that_are_no_text_are_replaced() {
    let msg = finish_bytes(Some(2), &[b'a', 0xff, b'b']).unwrap_err().message;
    assert_eq!(msg, "脚本执行失败（退出码 2）：a\u{fffd}b");
}

#[test]
fn long_output_is_cut() {
    let long = "错".repeat(2001);
    let msg = finish(Some(1), &long).unwrap_err().message;
    assert!(msg.ends_with("…（已截断）"));
    assert_eq!(msg.chars().filter(|c| *c == '错').count(), 2000);
    assert_eq!(truncate("abc", 3), "abc");
    assert_eq!(truncate("abcd", 3), "abc…（已截断）");
}

#[test]
fn what_could_not_be_started() {
    let file = run("/tmp/a.sh", None, HOME, true, Platform::Macos).unwrap();
    assert_eq!(
        start_failed(&file, "/tmp/a.sh", "denied", Platform::Macos).message,
        "无法执行脚本 /tmp/a.sh：denied（若是缺少执行权限，请先运行 chmod +x 后重试）"
    );
    let line = line_on("dir", Platform::Windows);
    assert_eq!(
        start_failed(&line, "dir", "gone", Platform::Windows).message,
        "无法启动 cmd.exe：gone"
    );
    let zsh = line_on("ls", Platform::Macos);
    assert_eq!(
        start_failed(&zsh, "ls", "gone", Platform::Macos).message,
        "无法启动 /bin/zsh：gone"
    );
}
