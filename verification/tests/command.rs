use drop_typing::command::{
    parse, KeyCombo, Lexicon, Modifier, ModifierFamily, ParsedCommand, ScriptCommand,
};
use drop_typing::config::{
    CommandActionEntry, CommandConfig, CommandHomophoneEntry, CommandStopEntry,
};

fn builtin_lexicon() -> Lexicon {
    Lexicon::default()
}

fn disp(text: &str) -> Option<String> {
    parse(text, &builtin_lexicon()).map(|c| c.display())
}

fn action(phrase: &str, modifiers: Vec<Modifier>, key: &str) -> CommandActionEntry {
    CommandActionEntry {
        phrase: phrase.into(),
        modifiers,
        key: key.into(),
        script: None,
        shell: None,
    }
}

#[test]
fn aliases_chinese() {
    assert_eq!(disp("复制").as_deref(), Some("CMD+C"));
    assert_eq!(disp("粘贴").as_deref(), Some("CMD+V"));
    assert_eq!(disp("回车").as_deref(), Some("ENTER"));
    assert_eq!(disp("换行").as_deref(), Some("ENTER"));
}

#[test]
fn aliases_english_and_ctrl() {
    assert_eq!(disp("copy").as_deref(), Some("CMD+C"));
    assert_eq!(disp("Ctrl+C").as_deref(), Some("CMD+C"));
    assert_eq!(disp("ctrl c").as_deref(), Some("CMD+C"));
    assert_eq!(disp("Ctrl+V").as_deref(), Some("CMD+V"));
    assert_eq!(disp("enter").as_deref(), Some("ENTER"));
}

#[test]
fn combo_direct() {
    assert_eq!(disp("Shift+Command+E").as_deref(), Some("SHIFT+CMD+E"));
    assert_eq!(disp("shift command e").as_deref(), Some("SHIFT+CMD+E"));
    assert_eq!(disp("Command Shift P").as_deref(), Some("SHIFT+CMD+P"));
    assert_eq!(disp("control option f5").as_deref(), Some("CTRL+OPT+F5"));
    assert_eq!(disp("cmd space").as_deref(), Some("CMD+SPACE"));
}

#[test]
fn bare_named_keys() {
    assert_eq!(disp("escape").as_deref(), Some("ESC"));
    assert_eq!(disp("tab").as_deref(), Some("TAB"));
    assert_eq!(disp("up").as_deref(), Some("UP"));
    assert_eq!(disp("f12").as_deref(), Some("F12"));
}

#[test]
fn rejects_garbage() {
    assert!(parse("", &builtin_lexicon()).is_none());
    assert!(parse("今天天气不错", &builtin_lexicon()).is_none());
    assert!(parse("e", &builtin_lexicon()).is_none());
    assert!(parse("shift", &builtin_lexicon()).is_none());
    assert!(parse("command e f", &builtin_lexicon()).is_none());
    assert!(parse("command 今天", &builtin_lexicon()).is_none());
}

#[test]
fn chinese_aliases_and_modifiers() {
    assert_eq!(disp("拷贝").as_deref(), Some("CMD+C"));
    assert_eq!(disp("黏贴").as_deref(), Some("CMD+V"));
    assert_eq!(disp("剪切").as_deref(), Some("CMD+X"));
    assert_eq!(disp("撤销").as_deref(), Some("CMD+Z"));
    assert_eq!(disp("重做").as_deref(), Some("SHIFT+CMD+Z"));
    assert_eq!(disp("全选").as_deref(), Some("CMD+A"));
    assert_eq!(disp("保存").as_deref(), Some("CMD+S"));
    assert_eq!(disp("控制 选项 f5").as_deref(), Some("CTRL+OPT+F5"));
    assert_eq!(disp("命令 空格").as_deref(), Some("CMD+SPACE"));
    assert_eq!(disp("命令 回车").as_deref(), Some("CMD+ENTER"));
    assert_eq!(disp("逃逸").as_deref(), Some("ESC"));
    assert_eq!(disp("方向左").as_deref(), Some("LEFT"));
    assert_eq!(disp("换挡 命令 批").as_deref(), Some("SHIFT+CMD+P"));
}

#[test]
fn filler_words_tolerated() {
    assert_eq!(
        disp("按一下 shift command e").as_deref(),
        Some("SHIFT+CMD+E")
    );
    assert_eq!(disp("帮我按 command 加 c").as_deref(), Some("CMD+C"));
    assert_eq!(disp("复制一下").as_deref(), Some("CMD+C"));
    assert_eq!(disp("按一下复制").as_deref(), Some("CMD+C"));
}

#[test]
fn connectives_and_homophones() {
    assert_eq!(disp("命令 加 西").as_deref(), Some("CMD+C"));
    assert_eq!(disp("cmd加c").as_deref(), Some("CMD+C"));
    assert_eq!(disp("shift 和 command 与 e").as_deref(), Some("SHIFT+CMD+E"));
}

#[test]
fn repeated_and_conflicting_keys() {
    assert_eq!(disp("command c c").as_deref(), Some("CMD+C"));
    assert!(parse("command c v", &builtin_lexicon()).is_none());
}

#[test]
fn unknown_ratio_guard() {
    assert!(parse("哒哒哒哒", &builtin_lexicon()).is_none());
    assert!(parse("一", &builtin_lexicon()).is_none());
    assert!(parse("哒哒哒复制哒哒哒哒哒哒", &builtin_lexicon()).is_none());
}

#[test]
fn user_entries_take_priority() {
    let user_cfg = CommandConfig {
        stop: vec![CommandStopEntry {
            phrase: "复制".into(),
        }],
        ..Default::default()
    };
    let lex = Lexicon::build(Some(&user_cfg));
    assert!(parse("复制", &lex).is_none());
    assert_eq!(
        parse("copy", &lex).map(|c| c.display()).as_deref(),
        Some("CMD+C")
    );
}

#[test]
fn user_action_appended() {
    let user_cfg = CommandConfig {
        action: vec![action("截图", vec![Modifier::Shift, Modifier::Command], "4")],
        ..Default::default()
    };
    let lex = Lexicon::build(Some(&user_cfg));
    let result = parse("截图", &lex).map(|c| c.display());
    assert_eq!(result.as_deref(), Some("SHIFT+CMD+4"));
}

#[test]
fn user_entry_does_not_break_builtin() {
    let user_cfg = CommandConfig {
        action: vec![action("截图", vec![Modifier::Command], "3")],
        ..Default::default()
    };
    let lex = Lexicon::build(Some(&user_cfg));
    assert_eq!(
        parse("复制", &lex).map(|c| c.display()).as_deref(),
        Some("CMD+C")
    );
}

#[test]
fn full_width_and_upper_case_are_read() {
    assert_eq!(disp("ＣＯＰＹ").as_deref(), Some("CMD+C"));
    assert_eq!(disp("ＣＭＤ　Ｃ").as_deref(), Some("CMD+C"));
}

#[test]
fn scripts_go_before_keys() {
    let mut entry = action("跑备份", vec![], "C");
    entry.script = Some("/bin/sh backup.sh".into());
    entry.shell = Some("powershell".into());
    let user_cfg = CommandConfig {
        action: vec![entry],
        ..Default::default()
    };
    let lex = Lexicon::build(Some(&user_cfg));
    assert_eq!(
        parse("跑备份", &lex),
        Some(ParsedCommand::Script(ScriptCommand {
            script: "/bin/sh backup.sh".into(),
            shell: Some("powershell".into()),
        }))
    );
}

#[test]
fn a_blank_script_is_none() {
    let mut entry = action("截图", vec![Modifier::Command], "3");
    entry.script = Some("  ".into());
    assert_eq!(entry.command().display(), "CMD+3");
}

fn with_homophones(list: &[(&str, &str)]) -> Lexicon {
    let user_cfg = CommandConfig {
        homophone: list
            .iter()
            .map(|(phrase, letter)| CommandHomophoneEntry {
                phrase: phrase.to_string(),
                letter: letter.to_string(),
            })
            .collect(),
        ..Default::default()
    };
    Lexicon::build(Some(&user_cfg))
}

#[test]
fn an_empty_homophone_is_passed_over() {
    let lex = with_homophones(&[("", "C")]);
    assert_eq!(parse("复制", &lex).unwrap().display(), "CMD+C");
    assert!(parse("shift", &lex).is_none());
    assert!(parse("鼋鼍", &lex).is_none());
}

#[test]
fn the_longest_homophone_counts() {
    let lex = with_homophones(&[("鼋", "A"), ("鼋鼍", "M")]);
    assert_eq!(parse("ctrl 鼋鼍", &lex).unwrap().display(), "CTRL+M");
    assert_eq!(parse("ctrl 鼋", &lex).unwrap().display(), "CTRL+A");
}

#[test]
fn modifiers_are_shown_by_family_in_order() {
    let combo = KeyCombo {
        modifiers: vec![Modifier::MetaRight, Modifier::ShiftLeft, Modifier::AltGr, Modifier::Control],
        key: "A".into(),
    };
    assert_eq!(combo.display(), "CTRL+OPT+SHIFT+CMD+A");
    assert_eq!(Modifier::AltGr.family(), ModifierFamily::Option);
    assert_eq!(
        ParsedCommand::Combo(combo).spaced_display(),
        "CTRL + OPT + SHIFT + CMD + A"
    );
}

#[test]
fn an_unknown_modifier_is_refused() {
    let e = Modifier::from_name("Hyper").unwrap_err();
    assert!(e.contains("无法识别的修饰键 'Hyper'"), "{e}");
}
