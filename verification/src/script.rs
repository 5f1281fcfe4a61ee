//! Commands that run a script.
//!
//! A script is the path of a file that exists, which is run by itself, or else
//! a line for the shell. What is started, and what is said of how it went, is
//! decided here.
use crate::hotkey::bindings::Platform;
use crate::search;
use crate::text;
use vstd::prelude::*;

verus! {

/// Why a script could not be run, or how it failed.
#[derive(Debug)]
pub struct ScriptError {
    pub message: String,
}

/// The folder that a script runs in.
#[derive(Debug, Clone, Copy, PartialEq, Eq, Structural)]
pub enum Folder {
    /// The one that holds the script.
    OfScript,
    Home,
}

/// What is started, and where.
#[derive(Debug)]
pub struct Launch {
    pub program: String,
    pub args: Vec<String>,
    pub folder: Folder,
}

/// What a [`Launch`] stands for.
#[verifier::ext_equal]
pub struct Started {
    pub program: Seq<char>,
    pub args: Seq<Seq<char>>,
    pub folder: Folder,
}

impl View for Launch {
    type V = Started;

    open spec fn view(&self) -> Started {
        Started {
            program: self.program@,
            args: search::texts(self.args@),
            folder: self.folder,
        }
    }
}

// ---------------------------------------------------------------------------
// Paths
// ---------------------------------------------------------------------------

/// A tilde at the beginning stands for the home folder, where there is one.
pub open spec fn without_tilde(raw: Seq<char>, home: Option<Seq<char>>) -> Seq<char> {
    match home {
        Some(h) => if raw == "~"@ {
            h
        } else if search::has_prefix(raw, "~/"@) {
            h + "/"@ + raw.skip(2)
        } else {
            raw
        },
        None => raw,
    }
}

pub fn expand_tilde(raw: &str, home: Option<&str>) -> (r: String)
    ensures
        r@ == without_tilde(
            raw@,
            match home {
                Some(h) => Some(h@),
                None => None,
            },
        ),
{
    match home {
        Some(h) => {
            if text::same(raw, "~") {
                return h.to_string();
            }
            if search::starts_with(raw, "~/") {
                proof {
                    reveal_strlit("~/");
                }
                let cs = text::chars_of(raw);
                let mut out = h.to_string();
                out.append("/");
                out.append(&text::string_of_range(&cs, 2, cs.len()));
                assert(raw@.subrange(2, raw@.len() as int) == raw@.skip(2));
                return out;
            }
            raw.to_string()
        },
        None => raw.to_string(),
    }
}

/// The characters that a name begins after.
pub open spec fn separates(c: char, platform: Platform) -> bool {
    c == '/' || (platform == Platform::Windows && (c == '\\' || c == ':'))
}

/// What comes after the last dot of a file's name, unless the name begins with it.
pub open spec fn extension_of(path: Seq<char>, platform: Platform) -> Option<Seq<char>> {
    match last_dot(path, platform) {
        Some(i) => if i > 0 && !separates(path[i - 1], platform) {
            Some(path.skip(i + 1))
        } else {
            None
        },
        None => None,
    }
}

/// The last dot of a file's name.
pub open spec fn last_dot(path: Seq<char>, platform: Platform) -> Option<int>
    decreases path.len(),
{
    if path.len() == 0 || separates(path.last(), platform) {
        None
    } else if path.last() == '.' {
        Some(path.len() - 1)
    } else {
        last_dot(path.drop_last(), platform)
    }
}

fn is_separator(c: char, platform: Platform) -> (r: bool)
    ensures
        r == separates(c, platform),
{
    c == '/' || (platform == Platform::Windows && (c == '\\' || c == ':'))
}

/// The extension of the file that a path names.
pub fn extension(path: &str, platform: Platform) -> (r: Option<String>)
    ensures
        match extension_of(path@, platform) {
            Some(e) => r is Some && r->0@ == e,
            None => r is None,
        },
{
    let cs = text::chars_of(path);
    let mut n: usize = cs.len();
    assert(path@.take(n as int) == path@);
    while n > 0
        invariant
            n <= cs@.len(),
            cs@ == path@,
            last_dot(path@, platform) == last_dot(path@.take(n as int), platform),
        decreases n,
    {
        let c = cs[n - 1];
        assert(path@.take(n as int).drop_last() == path@.take(n - 1));
        if is_separator(c, platform) {
            return None;
        }
        if c == '.' {
            if n == 1 || is_separator(cs[n - 2], platform) {
                return None;
            }
            assert(path@.subrange(n as int, path@.len() as int) == path@.skip(n as int));
            return Some(text::string_of_range(&cs, n, cs.len()));
        }
        n -= 1;
    }
    None
}

// ---------------------------------------------------------------------------
// Starting
// ---------------------------------------------------------------------------

/// How a file is started: what only a shell of Windows can run goes to it.
pub open spec fn file_start(path: Seq<char>, platform: Platform) -> Started {
    let ext = match extension_of(path, platform) {
        Some(e) => Some(text::ascii_lower_text(e)),
        None => None,
    };
    if ext == Some("bat"@) || ext == Some("cmd"@) {
        Started { program: "cmd"@, args: seq!["/C"@, path], folder: Folder::OfScript }
    } else if ext == Some("ps1"@) {
        Started {
            program: "powershell"@,
            args: seq!["-NoProfile"@, "-ExecutionPolicy"@, "Bypass"@, "-File"@, path],
            folder: Folder::OfScript,
        }
    } else {
        Started { program: path, args: Seq::empty(), folder: Folder::OfScript }
    }
}

/// How a line is started. Only Windows leaves a choice of shells.
pub open spec fn line_start(line: Seq<char>, shell: Option<Seq<char>>, platform: Platform) -> Started {
    match platform {
        Platform::Macos => Started {
            program: "/bin/zsh"@,
            args: seq!["-lc"@, line],
            folder: Folder::Home,
        },
        Platform::Windows => if shell == Some("powershell"@) {
            Started {
                program: "powershell"@,
                args: seq!["-NoProfile"@, "-Command"@, line],
                folder: Folder::Home,
            }
        } else {
            Started { program: "cmd"@, args: seq!["/C"@, line], folder: Folder::Home }
        },
    }
}

fn started(program: &str, args: Vec<String>, folder: Folder) -> (r: Launch)
    ensures
        r@ == (Started { program: program@, args: search::texts(args@), folder }),
{
    Launch { program: program.to_string(), args, folder }
}

fn run_file(path: &str, platform: Platform) -> (r: Launch)
    ensures
        r@ == file_start(path@, platform),
{
    match extension(path, platform) {
        Some(e) => {
            let ext = text::to_ascii_lowercase(&e);
            if text::same(&ext, "bat") || text::same(&ext, "cmd") {
                let args = vec!["/C".to_string(), path.to_string()];
                assert(search::texts(args@) =~= seq!["/C"@, path@]);
                return started("cmd", args, Folder::OfScript);
            }
            if text::same(&ext, "ps1") {
                let args = vec![
                    "-NoProfile".to_string(),
                    "-ExecutionPolicy".to_string(),
                    "Bypass".to_string(),
                    "-File".to_string(),
                    path.to_string(),
                ];
                assert(search::texts(args@) =~= seq![
                    "-NoProfile"@,
                    "-ExecutionPolicy"@,
                    "Bypass"@,
                    "-File"@,
                    path@,
                ]);
                return started("powershell", args, Folder::OfScript);
            }
        },
        None => {},
    }
    let none: Vec<String> = Vec::new();
    assert(search::texts(none@) =~= Seq::<Seq<char>>::empty());
    started(path, none, Folder::OfScript)
}

fn run_shell_line(line: &str, shell: Option<&str>, platform: Platform) -> (r: Launch)
    ensures
        r@ == line_start(
            line@,
            match shell {
                Some(s) => Some(s@),
                None => None,
            },
            platform,
        ),
{
    match platform {
        Platform::Macos => {
            let args = vec!["-lc".to_string(), line.to_string()];
            assert(search::texts(args@) =~= seq!["-lc"@, line@]);
            started("/bin/zsh", args, Folder::Home)
        },
        Platform::Windows => {
            let power = match shell {
                Some(s) => text::same(s, "powershell"),
                None => false,
            };
            if power {
                let args = vec![
                    "-NoProfile".to_string(),
                    "-Command".to_string(),
                    line.to_string(),
                ];
                assert(search::texts(args@) =~= seq!["-NoProfile"@, "-Command"@, line@]);
                started("powershell", args, Folder::Home)
            } else {
                let args = vec!["/C".to_string(), line.to_string()];
                assert(search::texts(args@) =~= seq!["/C"@, line@]);
                started("cmd", args, Folder::Home)
            }
        },
    }
}

/// The path that a script may be: its text without white space around it and
/// without a tilde. There is none where there is no text.
pub fn script_path(script: &str, home: Option<&str>) -> (r: Result<String, ScriptError>)
    ensures
        text::blank(script@) ==> r is Err && r->Err_0.message@ == "脚本内容为空"@,
        !text::blank(script@) ==> r is Ok && r->Ok_0@ == without_tilde(
            text::trimmed(script@),
            match home {
                Some(h) => Some(h@),
                None => None,
            },
        ),
{
    if text::is_blank(script) {
        return Err(ScriptError { message: "脚本内容为空".to_string() });
    }
    Ok(expand_tilde(&text::trim(script), home))
}

/// A file is started by itself, anything else is a line for the shell.
pub open spec fn script_start(
    script: Seq<char>,
    shell: Option<Seq<char>>,
    home: Option<Seq<char>>,
    is_file: bool,
    platform: Platform,
) -> Started {
    if is_file {
        file_start(without_tilde(text::trimmed(script), home), platform)
    } else {
        line_start(text::trimmed(script), shell, platform)
    }
}

/// What is started for a script, where `is_file` says whether there is a file
/// at its [`script_path`].
pub fn run(
    script: &str,
    shell: Option<&str>,
    home: Option<&str>,
    is_file: bool,
    platform: Platform,
) -> (r: Result<Launch, ScriptError>)
    ensures
        text::blank(script@) ==> r is Err && r->Err_0.message@ == "脚本内容为空"@,
        !text::blank(script@) ==> r is Ok && r->Ok_0@ == script_start(
            script@,
            match shell {
                Some(s) => Some(s@),
                None => None,
            },
            match home {
                Some(h) => Some(h@),
                None => None,
            },
            is_file,
            platform,
        ),
{
    match script_path(script, home) {
        Ok(path) => {
            if is_file {
                Ok(run_file(&path, platform))
            } else {
                Ok(run_shell_line(&text::trim(script), shell, platform))
            }
        },
        Err(e) => Err(e),
    }
}

// ---------------------------------------------------------------------------
// How it went
// ---------------------------------------------------------------------------

pub open spec fn start_message(program: Seq<char>, folder: Folder, path: Seq<char>, error: Seq<char>, platform: Platform) -> Seq<char> {
    match folder {
        Folder::OfScript => "无法执行脚本 "@ + path + "："@ + error + "（"@ + (match platform {
            Platform::Windows => "请确认文件关联，或改用 .bat/.cmd/.ps1/.exe"@,
            Platform::Macos => "若是缺少执行权限，请先运行 chmod +x 后重试"@,
        }) + "）"@,
        Folder::Home => "无法启动 "@ + program + (match platform {
            Platform::Windows => ".exe"@,
            Platform::Macos => ""@,
        }) + "："@ + error,
    }
}

/// What is said where nothing could be started. `path` is the [`script_path`].
pub fn start_failed(launch: &Launch, path: &str, error: &str, platform: Platform) -> (r:
    ScriptError)
    ensures
        r.message@ == start_message(launch.program@, launch.folder, path@, error@, platform),
{
    let mut m = String::new();
    match launch.folder {
        Folder::OfScript => {
            m.append("无法执行脚本 ");
            m.append(path);
            m.append("：");
            m.append(error);
            m.append("（");
            match platform {
                Platform::Windows => m.append("请确认文件关联，或改用 .bat/.cmd/.ps1/.exe"),
                Platform::Macos => m.append("若是缺少执行权限，请先运行 chmod +x 后重试"),
            }
            m.append("）");
            assert(m@ =~= start_message(launch.program@, launch.folder, path@, error@, platform));
        },
        Folder::Home => {
            m.append("无法启动 ");
            m.append(&launch.program);
            match platform {
                Platform::Windows => m.append(".exe"),
                Platform::Macos => m.append(""),
            }
            m.append("：");
            m.append(error);
            assert(m@ =~= start_message(launch.program@, launch.folder, path@, error@, platform));
        },
    }
    ScriptError { message: m }
}

/// At most `max` characters, with a note where there were more.
pub open spec fn shortened(s: Seq<char>, max: nat) -> Seq<char> {
    if s.len() <= max {
        s
    } else {
        s.take(max as int) + "…（已截断）"@
    }
}

pub fn truncate(s: &str, max_chars: usize) -> (r: String)
    ensures
        r@ == shortened(s@, max_chars as nat),
{
    let cs = text::chars_of(s);
    if cs.len() <= max_chars {
        return s.to_string();
    }
    let mut out = text::string_of_range(&cs, 0, max_chars);
    assert(s@.subrange(0, max_chars as int) == s@.take(max_chars as int));
    out.append("…（已截断）");
    out
}

/// What is said of a script that failed: its code, and what it wrote to its
/// error output.
pub open spec fn failure_message(code: Option<i32>, errors: Seq<char>) -> Seq<char> {
    let head = "脚本执行失败（退出码 "@ + (match code {
        Some(c) => search::signed_decimal(c as int),
        None => "信号终止"@,
    }) + "）"@;
    if text::blank(errors) {
        head
    } else {
        head + "："@ + shortened(text::trimmed(errors), 2000)
    }
}

/// How a script went that ended with `code`, or by a signal.
pub fn finish(code: Option<i32>, errors: &str) -> (r: Result<(), ScriptError>)
    ensures
        code == Some(0i32) ==> r is Ok,
        code != Some(0i32) ==> r is Err && r->Err_0.message@ == failure_message(code, errors@),
{
    let mut m = "脚本执行失败（退出码 ".to_string();
    match code {
        Some(c) => {
            if c == 0 {
                return Ok(());
            }
            m.append(&search::signed_decimal_text(c));
        },
        None => m.append("信号终止"),
    }
    m.append("）");
    if !text::is_blank(errors) {
        m.append("：");
        m.append(&truncate(&text::trim(errors), 2000));
    }
    Err(ScriptError { message: m })
}

/// How a script went, with its error output as it came.
pub fn finish_bytes(code: Option<i32>, errors: &[u8]) -> (r: Result<(), ScriptError>)
    ensures
        code == Some(0i32) ==> r is Ok,
        code != Some(0i32) ==> r is Err && r->Err_0.message@ == failure_message(
            code,
            text::lossy(errors@),
        ),
{
    finish(code, &text::from_utf8_lossy(errors))
}

// ---------------------------------------------------------------------------
// Laws
// ---------------------------------------------------------------------------

/// Whatever a script writes, what is shown of it stays short.
pub proof fn law_messages_stay_short(s: Seq<char>, max: nat)
    ensures
        shortened(s, max).len() <= max + 6,
        shortened(s, max).take(if s.len() <= max {
            s.len() as int
        } else {
            max as int
        }) == s.take(if s.len() <= max {
            s.len() as int
        } else {
            max as int
        }),
{
    reveal_strlit("…（已截断）");
    if s.len() > max {
        assert(shortened(s, max).take(max as int) =~= s.take(max as int));
    }
}

/// The shell that the user has chosen has no say in how a file is started, nor
/// in anything on macOS.
pub proof fn law_shell_is_for_lines_on_windows(
    script: Seq<char>,
    shell: Option<Seq<char>>,
    home: Option<Seq<char>>,
    is_file: bool,
    platform: Platform,
)
    requires
        is_file || platform == Platform::Macos,
    ensures
        script_start(script, shell, home, is_file, platform) == script_start(
            script,
            None,
            home,
            is_file,
            platform,
        ),
{
}

/// A tilde stands for the home folder at the beginning of a path and nowhere
/// else; without a home folder it stays.
pub proof fn law_tilde_is_the_home_folder(rest: Seq<char>, home: Seq<char>, raw: Seq<char>)
    ensures
        without_tilde("~/"@ + rest, Some(home)) == home + "/"@ + rest,
        without_tilde("~"@, Some(home)) == home,
        without_tilde(raw, None) == raw,
        raw.len() > 0 && raw[0] != '~' ==> without_tilde(raw, Some(home)) == raw,
{
    reveal_strlit("~/");
    reveal_strlit("~");
    let p = "~/"@ + rest;
    assert(p.subrange(0, 2) =~= "~/"@);
    assert(p.skip(2) =~= rest);
    assert(p.len() != "~"@.len());
    if raw.len() > 0 && raw[0] != '~' {
        assert("~"@[0] == '~');
        if search::has_prefix(raw, "~/"@) {
            assert(raw.subrange(0, 2)[0] == raw[0]);
        }
    }
}

/// The extension of a file is what follows the last dot of its name.
pub proof fn law_extensions_follow_the_last_dot(
    path: Seq<char>,
    ext: Seq<char>,
    platform: Platform,
)
    requires
        path.len() > 0,
        !separates(path.last(), platform),
        forall|i: int|
            0 <= i < ext.len() ==> #[trigger] ext[i] != '.' && !separates(ext[i], platform),
    ensures
        extension_of(path.push('.') + ext, platform) == Some(ext),
{
    lemma_last_dot(path, ext, platform);
    let p = path.push('.') + ext;
    assert(p.skip(path.len() as int + 1) =~= ext);
}

proof fn lemma_last_dot(path: Seq<char>, ext: Seq<char>, platform: Platform)
    requires
        forall|i: int|
            0 <= i < ext.len() ==> #[trigger] ext[i] != '.' && !separates(ext[i], platform),
    ensures
        last_dot(path.push('.') + ext, platform) == Some(path.len() as int),
    decreases ext.len(),
{
    let p = path.push('.') + ext;
    if ext.len() == 0 {
        assert(p =~= path.push('.'));
        assert(p.last() == '.');
    } else {
        let rest = ext.drop_last();
        assert forall|i: int| 0 <= i < rest.len() implies #[trigger] rest[i] != '.' && !separates(
            rest[i],
            platform,
        ) by {
            assert(rest[i] == ext[i]);
        }
        lemma_last_dot(path, rest, platform);
        assert(p.drop_last() =~= path.push('.') + rest);
        assert(p.last() == ext[ext.len() - 1]);
    }
}

/// Whatever is started, it is the script that runs: a file by its own path, in
/// its own folder, and a line as it was written, but for the white space around
/// it, in the home folder.
pub proof fn law_the_script_is_what_runs(
    script: Seq<char>,
    shell: Option<Seq<char>>,
    home: Option<Seq<char>>,
    is_file: bool,
    platform: Platform,
)
    ensures
        ({
            let s = script_start(script, shell, home, is_file, platform);
            &&& is_file ==> s.folder == Folder::OfScript && {
                let path = without_tilde(text::trimmed(script), home);
                ||| s.program == path && s.args.len() == 0
                ||| s.args.len() > 0 && s.args.last() == path
            }
            &&& !is_file ==> s.folder == Folder::Home && s.args.len() > 0 && s.args.last()
                == text::trimmed(script)
            &&& !is_file && platform == Platform::Macos ==> s.program == "/bin/zsh"@
            &&& !is_file && platform == Platform::Windows ==> (s.program == "powershell"@ <==> shell
                == Some("powershell"@)) && (shell != Some("powershell"@) ==> s.program == "cmd"@)
        }),
{
    reveal_strlit("powershell");
    reveal_strlit("cmd");
    assert("powershell"@.len() != "cmd"@.len());
}

/// Files that only a shell of Windows runs are handed to it; any other file is
/// started by itself.
pub proof fn law_files_start_by_their_extension(path: Seq<char>, platform: Platform, e: Seq<char>)
    requires
        extension_of(path, platform) == Some(e),
    ensures
        ({
            let ext = text::ascii_lower_text(e);
            &&& ext == "bat"@ || ext == "cmd"@ <==> file_start(path, platform).args.len() == 2
            &&& ext == "bat"@ || ext == "cmd"@ ==> file_start(path, platform).program == "cmd"@
            &&& ext == "ps1"@ ==> file_start(path, platform).program == "powershell"@ && file_start(
                path,
                platform,
            ).args.contains("-File"@)
            &&& ext != "bat"@ && ext != "cmd"@ && ext != "ps1"@ ==> file_start(
                path,
                platform,
            ).program == path && file_start(path, platform).args.len() == 0
        }),
{
    reveal_strlit("bat");
    reveal_strlit("cmd");
    reveal_strlit("ps1");
    assert("bat"@[0] == 'b' && "cmd"@[0] == 'c' && "ps1"@[0] == 'p');
    let ext = text::ascii_lower_text(e);
    if ext == "ps1"@ {
        assert(file_start(path, platform).args[3] == "-File"@);
    }
}

/// A script that failed is reported with its code and with the beginning of
/// what it wrote to its error output.
pub proof fn law_failures_are_reported_in_full(code: i32, errors: Seq<char>)
    ensures
        search::has_text(failure_message(Some(code), errors), search::signed_decimal(code as int)),
        !text::blank(errors) && text::trimmed(errors).len() <= 2000 ==> search::occurs_at(
            failure_message(Some(code), errors),
            text::trimmed(errors),
            failure_message(Some(code), errors).len() - text::trimmed(errors).len(),
        ),
{
    let m = failure_message(Some(code), errors);
    let head = "脚本执行失败（退出码 "@;
    let d = search::signed_decimal(code as int);
    assert(m.subrange(head.len() as int, (head.len() + d.len()) as int) =~= d);
    assert(search::occurs_at(m, d, head.len() as int));
    if !text::blank(errors) && text::trimmed(errors).len() <= 2000 {
        let t = text::trimmed(errors);
        assert(m.subrange(m.len() - t.len(), m.len() as int) =~= t);
    }
}

/// A script that could not be started is named, with the reason.
pub proof fn law_what_did_not_start_is_named(
    program: Seq<char>,
    path: Seq<char>,
    error: Seq<char>,
    platform: Platform,
)
    ensures
        search::has_text(start_message(program, Folder::OfScript, path, error, platform), path),
        search::has_text(start_message(program, Folder::OfScript, path, error, platform), error),
        search::has_text(start_message(program, Folder::Home, path, error, platform), program),
        search::has_text(start_message(program, Folder::Home, path, error, platform), error),
{
    let a = start_message(program, Folder::OfScript, path, error, platform);
    let b = start_message(program, Folder::Home, path, error, platform);
    let ah = "无法执行脚本 "@;
    let colon = "："@;
    assert(a.subrange(ah.len() as int, (ah.len() + path.len()) as int) =~= path);
    assert(search::occurs_at(a, path, ah.len() as int));
    let i = (ah.len() + path.len() + colon.len()) as int;
    assert(a.subrange(i, i + error.len()) =~= error);
    assert(search::occurs_at(a, error, i));
    let bh = "无法启动 "@;
    assert(b.subrange(bh.len() as int, (bh.len() + program.len()) as int) =~= program);
    assert(search::occurs_at(b, program, bh.len() as int));
    assert(b.subrange(b.len() - error.len(), b.len() as int) =~= error);
    assert(search::occurs_at(b, error, b.len() - error.len()));
}

} // verus!
