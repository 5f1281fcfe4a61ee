use drop_typing::command::Modifier;
use drop_typing::config::{format_toml_error, needs_restart, Config, ConfigSource};
use drop_typing::hotkey::{Bindings, Platform};

#[test]
fn parse_config_file_rejects_invalid_toml_with_position() {
    let raw = "long_press_threshold_ms = \"abc\"\nasr = [\n";
    let e = toml::from_str::<toml::Table>(raw).unwrap_err();
    let err = format_toml_error(raw.as_bytes(), e.span().map(|s| s.start), e.message());
    assert!(err.contains("行"), "{err}");
}

#[test]
fn parse_config_file_accepts_valid_toml() {
    let raw = "[asr]\nprovider = \"bailian\"\napi_key = \"sk-test\"\n\n[llm]\napi_key = \"sk-llm\"\n";
    let table: toml::Table = toml::from_str(raw).unwrap();
    let mut cfg = Config::default();
    cfg.asr.provider = table["asr"]["provider"].as_str().unwrap().to_string();
    cfg.asr.api_key = table["asr"]["api_key"].as_str().map(String::from);
    let (cfg, warning) = Config::load_lenient(ConfigSource::Parsed(cfg), Some("sk-env".into()));
    assert_eq!(warning, None);
    assert_eq!(cfg.asr.provider, "bailian");
    assert_eq!(cfg.asr_api_key().as_deref(), Some("sk-test"));
}

#[test]
fn parse_config_file_accepts_precise_modifiers() {
    let read: Vec<Modifier> = ["ControlRight", "ShiftLeft"]
        .iter()
        .map(|n| Modifier::from_name(n).unwrap())
        .collect();
    assert_eq!(read, vec![Modifier::ControlRight, Modifier::ShiftLeft]);
}

#[test]
fn parse_precise_modifier_aliases() {
    let read: Vec<Modifier> = ["CmdRight", "AltGr"]
        .iter()
        .map(|n| Modifier::from_name(n).unwrap())
        .collect();
    assert_eq!(read, vec![Modifier::MetaRight, Modifier::AltGr]);
}

#[test]
fn needs_restart_true_when_wakeword_changes() {
    let old = Config::default();
    let mut new = Config::default();
    new.wakeword.enabled = true;
    assert!(needs_restart(&old, &new));
    assert!(needs_restart(&new, &old));
}

#[test]
fn needs_restart_true_when_hotkey_changes() {
    let old = Config::default();
    let mut new = Config::default();
    new.hotkey.keyboard.trigger = Some(vec!["MetaLeft".to_string()]);
    assert!(needs_restart(&old, &new));
}

#[test]
fn needs_restart_false_when_only_llm_changes() {
    let old = Config::default();
    let mut new = Config::default();
    new.llm.api_key = Some("sk-x".to_string());
    assert!(!needs_restart(&old, &new));
}

#[test]
fn errors_are_located() {
    let raw = "a = 1\nb = [\n";
    assert_eq!(
        format_toml_error(raw.as_bytes(), Some(10), "bad"),
        "第 2 行第 5 列：bad"
    );
    assert_eq!(format_toml_error(raw.as_bytes(), None, "bad"), "bad");
}

#[test]
fn keys_are_looked_for_in_order() {
    let mut cfg = Config::default();
    cfg.dashscope_api_key = Some("old".into());
    assert_eq!(cfg.asr_api_key().as_deref(), Some("old"));
    cfg.asr.api_key = Some("new".into());
    assert_eq!(cfg.asr_api_key().as_deref(), Some("new"));
    cfg.asr.api_key = Some("  ".into());
    assert_eq!(cfg.asr_api_key(), None);
}

#[test]
fn a_missing_file_is_told_and_the_environment_helps() {
    let (cfg, warning) = Config::load_lenient(ConfigSource::Missing, Some("sk-env".into()));
    assert_eq!(
        warning.as_deref(),
        Some("未找到配置文件 ~/.drop-typing.toml。请创建并填入 ASR API Key；或设置环境变量 DASHSCOPE_API_KEY。")
    );
    assert_eq!(cfg.asr_api_key().as_deref(), Some("sk-env"));
    let (_, warning) = Config::load_lenient(
        ConfigSource::Unreadable {
            path: "/x".into(),
            error: "denied".into(),
        },
        None,
    );
    assert_eq!(warning.as_deref(), Some("配置文件读取失败（/x）：denied"));
}

#[test]
fn the_countdown_of_the_section_goes_first() {
    let mut cfg = Config::default();
    assert_eq!(cfg.effective_command_countdown_ms(), 1000);
    cfg.command.countdown_ms = Some(2500);
    assert_eq!(cfg.effective_command_countdown_ms(), 2500);
}

#[test]
fn shortcuts_fall_back_to_the_platform() {
    let mut cfg = Config::default();
    let usual = Bindings::platform_default(Platform::Macos);
    assert_eq!(cfg.hotkey_bindings(Platform::Macos).trigger, usual.trigger);
    assert!(cfg.hotkey_bindings(Platform::Macos).mouse.trigger.is_some());
    cfg.hotkey.keyboard.trigger = Some(vec!["NoSuchKey".into()]);
    assert_eq!(cfg.hotkey_bindings(Platform::Macos).trigger, usual.trigger);
}

#[test]
fn models_and_protocols_have_defaults() {
    let mut cfg = Config::default();
    assert_eq!(cfg.asr_protocol(), "dashscope-realtime");
    assert_eq!(cfg.asr_model_name(), "fun-asr-realtime");
    cfg.asr.provider = "bailian-http".to_string();
    assert_eq!(cfg.asr_protocol(), "dashscope-http");
    assert_eq!(cfg.asr_model_name(), "qwen3-asr-flash");
    cfg.asr_model = Some("old".to_string());
    assert_eq!(cfg.asr_model_name(), "old");
    cfg.asr.model = Some("new".to_string());
    assert_eq!(cfg.asr_model_name(), "new");
    assert_eq!(cfg.llm_protocol(), "openai-chat");
    assert_eq!(cfg.llm_strength(), "standard");
    assert_eq!(cfg.llm_api_key(), None);
    cfg.llm.api_key = Some("  ".to_string());
    assert_eq!(cfg.llm_api_key(), None);
    cfg.llm.api_key = Some("k".to_string());
    assert_eq!(cfg.llm_api_key().as_deref(), Some("k"));
}

#[test]
fn side_buttons_are_bound_only_by_their_section() {
    let mut cfg = Config::default();
    let bound = cfg.hotkey.clone().into_bindings(Platform::Macos).unwrap();
    assert_eq!(bound.mouse.trigger, None);
    assert_eq!(bound.mouse.repair, None);
    cfg.hotkey.keyboard.trigger = Some(vec!["MetaRight".into()]);
    assert_eq!(cfg.hotkey_bindings(Platform::Macos).mouse.trigger, None);
}
