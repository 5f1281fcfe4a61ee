use drop_typing::config::{Config, KeywordEntry};
use drop_typing::hotkey::{CapturedCombo, Platform};
use drop_typing::prompts::{default_style_prompt, PromptConfig, StylePrompts};
use drop_typing::settings::connection::{
    asr_to_try, asr_tried, improve, improve_finished, llm_to_try, llm_tried, try_asr_payload,
    try_llm_payload, AsrTrial, LlmTrial,
};
use drop_typing::settings::devices::{apply_audio_payload, audio_view, SoundTest};
use drop_typing::settings::general::{
    apply_general_payload, command_refused, command_view, file_refused, file_saved, file_view,
    general_view, prompts_refused,
};
use drop_typing::settings::restart::{app_bundle, restart_plan};
use drop_typing::settings::shortcuts::{
    apply_shortcut_payload, capture_request, combo_captured, reset_shortcuts, shortcut_view,
    Captured,
};
use drop_typing::settings::styles::{
    add_style, delete_style, emit_styles, reset_prompt, select_style,
};
use drop_typing::settings::wakeword::{
    apply_wakeword_payload, preview_tokens, reset_wakeword, wakeword_view, TokenSource,
};
use drop_typing::settings::{opt_str, read_payload, saved, Page, Reply};
use drop_typing::wakeword::text2token::{load_cjk_map, load_en_phone, load_tokens};
use drop_typing::wakeword::Text2Token;

fn json(s: &str) -> serde_json::Value {
    serde_json::from_str(s).unwrap()
}

fn events(v: &[Reply]) -> Vec<&str> {
    v.iter().map(|r| r.event.as_str()).collect()
}

#[test]
fn messages_that_are_no_json_are_empty() {
    assert!(read_payload("{").is_null());
    assert_eq!(read_payload("{\"a\":1}")["a"], 1);
}

#[test]
fn texts_are_trimmed_and_empty_ones_left_out() {
    let v = json("{\"a\":\" x \",\"b\":\"  \",\"c\":3}");
    assert_eq!(opt_str(&v, "a").as_deref(), Some("x"));
    assert_eq!(opt_str(&v, "b"), None);
    assert_eq!(opt_str(&v, "c"), None);
    assert_eq!(opt_str(&v, "d"), None);
}

#[test]
fn saving_is_answered_and_taken_over() {
    let ok = saved(Page::General, Ok(()));
    assert_eq!(
        events(&ok),
        vec!["drop-typing://config-saved", "drop-typing://runtime-reload"]
    );
    assert_eq!(ok[0].body, json("{\"success\":true}"));
    assert_eq!(events(&saved(Page::Shortcut, Ok(()))), vec!["drop-typing://shortcut-saved"]);
    let bad = saved(Page::Audio, Err("满".into()));
    assert_eq!(events(&bad), vec!["drop-typing://audio-config-saved"]);
    assert_eq!(bad[0].body, json("{\"success\":false,\"error\":\"满\"}"));
}

#[test]
fn models_and_times_are_taken_over() {
    let v = json(
        "{\"asr\":{\"provider\":\" \",\"api_key\":\" k \"},\"llm\":{\"model\":\"m\"},\
         \"thresholds\":{\"long_press_threshold_ms\":50,\"double_press_window_ms\":10000,\
         \"command_countdown_ms\":700}}",
    );
    let mut cfg = Config::default();
    cfg.llm.current_style = Some("pua".into());
    let new = apply_general_payload(cfg, &v).unwrap();
    assert_eq!(new.asr.provider, "bailian");
    assert_eq!(new.asr.api_key.as_deref(), Some("k"));
    assert_eq!(new.llm.model.as_deref(), Some("m"));
    assert_eq!(new.llm.current_style.as_deref(), Some("pua"));
    assert_eq!(new.long_press_threshold_ms, 50);
    assert_eq!(new.double_press_window_ms, 10000);
    assert_eq!(new.command_countdown_ms, 700);
}

#[test]
fn times_out_of_range_are_refused() {
    let times = |a: &str, b: &str| {
        json(&format!(
            "{{\"thresholds\":{{\"long_press_threshold_ms\":{a},\"double_press_window_ms\":{b},\"command_countdown_ms\":100}}}}"
        ))
    };
    assert_eq!(
        apply_general_payload(Config::default(), &times("49", "1")).unwrap_err(),
        "long_press_threshold_ms 超出范围（50~10000ms）：49"
    );
    assert_eq!(
        apply_general_payload(Config::default(), &times("100", "10001")).unwrap_err(),
        "double_press_window_ms 超出范围（50~10000ms）：10001"
    );
    assert_eq!(
        apply_general_payload(Config::default(), &times("100", "\"x\"")).unwrap_err(),
        "double_press_window_ms 缺失或格式错误"
    );
}

#[test]
fn the_general_page_shows_the_configuration() {
    let mut cfg = Config::default();
    cfg.command.countdown_ms = Some(5);
    let r = general_view(&cfg);
    assert_eq!(r.event, "drop-typing://general-config");
    assert_eq!(r.body["asr"]["provider"], "bailian");
    assert!(r.body["asr"]["api_key"].is_null());
    assert_eq!(r.body["thresholds"]["command_countdown_ms"], 1000);
    assert_eq!(r.body["effective_command_countdown_ms"], 5);
    let c = command_view(json("{\"action\":[]}"), &cfg);
    assert_eq!(c.body["config"], json("{\"action\":[]}"));
    assert_eq!(c.body["effective_command_countdown_ms"], 5);
}

#[test]
fn shown_models_are_read_back() {
    let mut cfg = Config::default();
    cfg.asr.api_key = Some("k".into());
    cfg.asr.model = Some("m".into());
    let page = general_view(&cfg).body;
    let mut other = Config::default();
    try_asr_payload(&mut other, &page);
    assert_eq!(other.asr, cfg.asr);
}

#[test]
fn what_cannot_be_read_is_refused() {
    assert_eq!(
        prompts_refused("x")[0].body,
        json("{\"success\":false,\"error\":\"提示词 JSON 解析失败：x\"}")
    );
    let c = command_refused("y");
    assert_eq!(events(&c), vec!["drop-typing://command-config-saved"]);
    assert_eq!(c[0].body["error"], "指令配置解析失败：y");
    assert_eq!(file_refused("z").body["error"], "z");
}

#[test]
fn a_new_file_asks_for_a_restart_where_it_must() {
    let old = Config::default();
    let mut new = Config::default();
    assert_eq!(
        events(&file_saved(&old, &new)),
        vec!["drop-typing://runtime-reload", "drop-typing://config-file-saved"]
    );
    new.wakeword.enabled = true;
    let r = file_saved(&old, &new);
    assert_eq!(
        events(&r),
        vec![
            "drop-typing://runtime-reload",
            "drop-typing://config-file-saved",
            "drop-typing://restart-required"
        ]
    );
    assert_eq!(r[1].body, json("{\"success\":true,\"restart_required\":true}"));
    assert_eq!(r[2].body["message"], "配置中热键设置已变化，需要重启应用后才能生效。");
    assert_eq!(file_view("t", "/p", true).body, json("{\"text\":\"t\",\"path\":\"/p\",\"exists\":true}"));
}

fn no_prompts() -> PromptConfig {
    PromptConfig {
        base: None,
        styles: None,
    }
}

#[test]
fn styles_are_added_once() {
    let mut pc = no_prompts();
    let error = |r: (bool, Reply)| {
        assert!(!r.0);
        r.1.body["error"].as_str().unwrap().to_string()
    };
    assert_eq!(error(add_style(" ", &mut pc)), "样式名称不能为空");
    assert_eq!(error(add_style("pua", &mut pc)), "不能使用与内置样式相同的名称");
    let (added, r) = add_style("mine", &mut pc);
    assert!(added);
    assert_eq!(r.event, "drop-typing://style-added");
    assert_eq!(r.body, json("{\"success\":true,\"key\":\"mine\"}"));
    assert_eq!(error(add_style("mine", &mut pc)), "样式名称已存在");
    assert_eq!(pc.styles.unwrap().get("mine").as_deref(), Some(""));
}

#[test]
fn a_lost_style_is_not_left_chosen() {
    let mut pc = no_prompts();
    let _ = add_style("mine", &mut pc);
    let mut cfg = Config::default();
    cfg.llm.current_style = Some("mine".into());
    let d = delete_style("mine", &mut pc, &mut cfg);
    assert!(d.deleted && d.config_changed);
    assert_eq!(d.reply.body, json("{\"success\":true,\"key\":\"mine\",\"existed\":true}"));
    assert_eq!(cfg.llm.current_style, None);
    let again = delete_style("mine", &mut pc, &mut cfg);
    assert_eq!(again.reply.body["existed"], false);
    assert!(!again.config_changed);
    let builtin = delete_style("pua", &mut pc, &mut cfg);
    assert!(!builtin.deleted);
    assert_eq!(builtin.reply.body["error"], "不能删除内置样式");
}

#[test]
fn prompts_are_reset_to_the_builtin_ones() {
    let mut styles = StylePrompts::new();
    styles.insert("pua", "我的");
    let mut pc = PromptConfig {
        base: Some("底".into()),
        styles: Some(styles),
    };
    let mut cfg = Config::default();
    cfg.llm.current_style = Some("pua".into());
    let (changed, r) = reset_prompt("pua", &mut pc, &mut cfg);
    assert!(changed);
    assert_eq!(r.body["default_text"], default_style_prompt("pua").unwrap());
    assert_eq!(pc.base.as_deref(), Some("底"));
    assert_eq!(pc.styles.as_ref().unwrap().get("pua"), None);
    let (changed, _) = reset_prompt("base", &mut pc, &mut cfg);
    assert!(!changed);
    assert_eq!(pc.base, None);
    let (_, unknown) = reset_prompt("none", &mut pc, &mut cfg);
    assert_eq!(unknown.body["default_text"], "");
}

#[test]
fn the_bar_chooses_a_style() {
    let mut cfg = Config::default();
    select_style(&mut cfg, &json("{\"style\":\"pua\"}"));
    assert_eq!(cfg.llm.current_style.as_deref(), Some("pua"));
    select_style(&mut cfg, &json("{\"style\":null}"));
    assert_eq!(cfg.llm.current_style, None);
}

#[test]
fn builtin_styles_come_first() {
    let mut pc = no_prompts();
    let _ = add_style("mine", &mut pc);
    let mut cfg = Config::default();
    cfg.llm.current_style = Some("mine".into());
    let r = emit_styles(&pc, &cfg);
    assert_eq!(r.event, "drop-typing://styles");
    let list = r.body["styles"].as_array().unwrap();
    assert_eq!(list.len(), 5);
    assert_eq!(list[0], json("{\"key\":\"high_eq\",\"label\":\"高情商\",\"builtin\":true}"));
    assert_eq!(list[4], json("{\"key\":\"mine\",\"label\":\"mine\",\"builtin\":false}"));
    assert_eq!(r.body["current"], "mine");
}

#[test]
fn wake_words_are_taken_over() {
    let mut cfg = Config::default();
    let v = json(
        "{\"keywords\":[{\"keyword\":\"你好\",\"action\":\"repair\"},{\"keyword\":\"喂\"},7],\
         \"enabled\":true,\"advanced\":{\"model_dir\":\" m \",\"pre_roll_ms\":9}}",
    );
    apply_wakeword_payload(&mut cfg, &v, Some(1), None);
    let pair = |k: &str, a: &str| KeywordEntry {
        keyword: k.into(),
        action: a.into(),
    };
    assert_eq!(
        cfg.wakeword.keywords,
        vec![pair("你好", "repair"), pair("喂", "input"), pair("", "input")]
    );
    assert!(cfg.wakeword.enabled);
    assert_eq!(cfg.wakeword.model_dir, "m");
    assert_eq!(cfg.wakeword.pre_roll_ms, 9);
    assert_eq!(cfg.wakeword.silence_timeout_ms, 1500);
    assert_eq!(cfg.wakeword.keywords_threshold, 1);
    assert_eq!(cfg.wakeword.keywords_score, 1.0f32.to_bits());
    reset_wakeword(&mut cfg);
    assert!(cfg.wakeword.keywords.is_empty());
    assert_eq!(cfg.wakeword.model_dir, "m");
}

#[test]
fn the_wake_word_page_shows_own_and_builtin_words() {
    let mut cfg = Config::default();
    cfg.wakeword.keywords = vec![KeywordEntry {
        keyword: "你好".into(),
        action: "input".into(),
    }];
    let r = wakeword_view(
        &cfg.wakeword,
        serde_json::Value::from(0.25),
        serde_json::Value::from(1.0),
    );
    assert_eq!(r.event, "drop-typing://wakeword-config");
    assert_eq!(r.body["keywords"][0]["keyword"], "你好");
    assert_eq!(r.body["defaults"][4], json("{\"keyword\":\"小易清空\",\"action\":\"clear\"}"));
    assert_eq!(r.body["has_custom"], true);
    assert_eq!(r.body["enabled"], false);
    assert_eq!(r.body["advanced"]["keywords_threshold"], 0.25);
    assert_eq!(r.body["advanced"]["ring_buffer_duration_ms"], 3000);
}

#[test]
fn tokens_are_shown_or_why_not() {
    let v = json("{\"keywords\":[{\"keyword\":\"打\"}]}");
    let error = |r: Reply| r.body["error"].as_str().unwrap().to_string();
    assert_eq!(error(preview_tokens(&json("{}"), TokenSource::Missing)), "没有关键词");
    assert_eq!(error(preview_tokens(&v, TokenSource::Missing)), "模型目录未找到");
    assert_eq!(
        error(preview_tokens(&v, TokenSource::Broken("x".into()))),
        "text2token 加载失败：x"
    );
    let t = Text2Token {
        token_table: load_tokens("d 1\nǎ 2\n").unwrap(),
        cjk_map: load_cjk_map("{\"打\":[\"d\",\"ǎ\"]}").unwrap(),
        en_phone: load_en_phone("AY EY1\n").unwrap(),
    };
    assert_eq!(
        preview_tokens(&v, TokenSource::Tables(&t)).body,
        json("{\"lines\":[\"d ǎ @打\"]}")
    );
    let bad = json("{\"keywords\":[{\"keyword\":\"谁\"}]}");
    assert!(error(preview_tokens(&bad, TokenSource::Tables(&t))).starts_with("转换失败："));
}

#[test]
fn devices_are_shown_and_chosen() {
    let mut cfg = Config::default();
    apply_audio_payload(&mut cfg, &json("{\"input_device\":\" Drop Mic \"}"));
    assert_eq!(cfg.audio.input_device.as_deref(), Some("Drop Mic"));
    let list = vec![("A".to_string(), false), ("B".to_string(), true)];
    let r = audio_view(&list, &cfg);
    assert_eq!(r.body["default_name"], "B");
    assert_eq!(r.body["current"], "Drop Mic");
    assert_eq!(r.body["devices"][0], json("{\"name\":\"A\",\"is_default\":false}"));
    apply_audio_payload(&mut cfg, &json("{\"input_device\":\"\"}"));
    assert_eq!(cfg.audio.input_device, None);
}

#[test]
fn one_sound_test_runs_at_a_time() {
    let mut t = SoundTest::new();
    assert!(t.start());
    t.ask_to_stop();
    assert!(t.stop);
    assert!(!t.start());
    assert_eq!(t.finished(Some("坏".into())).unwrap().body, json("{\"message\":\"坏\"}"));
    assert!(t.start());
    assert!(t.finished(None).is_none());
}

#[test]
fn shortcuts_are_shown_taken_over_and_reset() {
    let mut cfg = Config::default();
    let v = json(
        "{\"keyboard\":{\"trigger\":[\"MetaLeft\",\"\",3],\"repair\":\"x\"},\
         \"mouse\":{\"trigger\":\"back\",\"repair\":\"side\"}}",
    );
    apply_shortcut_payload(&mut cfg, &v);
    assert_eq!(cfg.hotkey.keyboard.trigger, Some(vec!["MetaLeft".to_string()]));
    assert_eq!(cfg.hotkey.keyboard.repair, None);
    let page = shortcut_view(&cfg, Platform::Macos).body;
    assert_eq!(page["platform"], "macos");
    assert_eq!(page["keyboard"]["trigger"], json("[\"MetaLeft\"]"));
    assert_eq!(page["keyboard"]["cancel"], json("[\"Escape\"]"));
    assert_eq!(page["mouse"], json("{\"trigger\":\"back\",\"repair\":null}"));
    assert_eq!(page["defaults"]["mouse"]["trigger"], "forward");
    assert_eq!(page["has_custom"], true);
    apply_shortcut_payload(&mut cfg, &json("{\"mouse\":{}}"));
    assert!(cfg.hotkey.mouse.is_none());
    assert!(cfg.hotkey.keyboard.trigger.is_some());
    reset_shortcuts(&mut cfg);
    let page = shortcut_view(&cfg, Platform::Windows).body;
    assert_eq!(page["has_custom"], false);
    assert_eq!(page["keyboard"], page["defaults"]["keyboard"]);
}

#[test]
fn recordings_are_asked_for_and_told() {
    let r = capture_request(&json("{}"));
    assert!(!r.single && !r.distinguish_sides);
    let r = capture_request(&json("{\"mode\":\"single\",\"distinguish_sides\":true}"));
    assert!(r.single && r.distinguish_sides);
    let combo = combo_captured(Captured::Combo(CapturedCombo {
        modifiers: vec!["Cmd".into()],
        key: "C".into(),
    }));
    assert_eq!(
        combo.body,
        json("{\"success\":true,\"modifiers\":[\"Cmd\"],\"key\":\"C\",\"single_key\":null,\"error\":\"\"}")
    );
    assert_eq!(combo_captured(Captured::Single("F5".into())).body["single_key"], "F5");
    assert_eq!(combo_captured(Captured::Failed("已取消".into())).body["error"], "已取消");
}

#[test]
fn services_are_tried() {
    let mut cfg = Config::default();
    match asr_to_try(&cfg) {
        Err(r) => assert_eq!(r.body["message"], "配置无效：缺少 API Key 或协议未知"),
        Ok(_) => panic!("no key"),
    }
    try_asr_payload(&mut cfg, &json("{\"asr\":{\"api_key\":\"k\"}}"));
    assert!(asr_to_try(&cfg).is_ok());
    match llm_to_try(&cfg) {
        Err(r) => assert_eq!(r.body["message"], "配置无效：缺少 LLM API Key 或协议未知"),
        Ok(_) => panic!("no key"),
    }
    try_llm_payload(&mut cfg, &json("{\"llm\":{\"api_key\":\"k\"}}"));
    assert!(llm_to_try(&cfg).is_ok());
}

#[test]
fn trials_are_told() {
    let message = |r: Reply| {
        (
            r.body["success"].as_bool().unwrap(),
            r.body["message"].as_str().unwrap().to_string(),
        )
    };
    let asr = |t: AsrTrial| message(asr_tried(t));
    assert_eq!(asr(AsrTrial::Heard("a".into())), (true, "连接成功，ASR 返回：a".into()));
    assert_eq!(asr(AsrTrial::CallFailed("a".into())), (false, "ASR 调用失败：a".into()));
    assert_eq!(asr(AsrTrial::TimedOut), (false, "ASR 测试超时（10 秒）".into()));
    assert_eq!(asr(AsrTrial::NoSession("a".into())), (false, "会话建立失败：a".into()));
    assert_eq!(asr(AsrTrial::SendFailed("a".into())), (false, "发送音频失败：a".into()));
    assert_eq!(asr(AsrTrial::FinishFailed("a".into())), (false, "识别调用失败：a".into()));
    assert_eq!(asr(AsrTrial::Died("a".into())), (false, "测试线程异常：a".into()));
    let llm = |t: LlmTrial| message(llm_tried(t));
    assert_eq!(
        llm(LlmTrial::Answered(format!(" {} ", "好".repeat(61)))),
        (true, format!("连接成功，LLM 返回：{}", "好".repeat(60)))
    );
    assert_eq!(llm(LlmTrial::Failed("a".into())), (false, "LLM 调用失败：a".into()));
    assert_eq!(llm(LlmTrial::TimedOut), (false, "LLM 测试超时（15 秒）".into()));
}

#[test]
fn prompts_are_improved() {
    let mut cfg = Config::default();
    match improve(&cfg, &json("{\"key\":\"base\"}")) {
        Err(r) => assert_eq!(r.body, json("{\"key\":\"base\",\"error\":\"提示词为空，无法优化\"}")),
        Ok(_) => panic!("empty"),
    }
    let v = json("{\"key\":\"base\",\"text\":\"旧\",\"intent\":\"短\"}");
    match improve(&cfg, &v) {
        Err(r) => assert_eq!(
            r.body["error"],
            "请先在配置文件中配置 [llm] 段以使用 AI 优化功能"
        ),
        Ok(_) => panic!("no model"),
    }
    cfg.llm.api_key = Some("k".into());
    let plan = improve(&cfg, &v).ok().unwrap();
    assert_eq!(plan.key, "base");
    assert!(plan.message.contains("【优化意图】\n短\n\n【当前提示词】\n旧\n\n改写要求：\n1. "));
    assert_eq!(
        improve_finished("base", Ok("新".into())).body,
        json("{\"key\":\"base\",\"optimized\":\"新\"}")
    );
    assert_eq!(improve_finished("base", Ok(" ".into())).body["error"], "LLM 返回了空文本");
    assert_eq!(improve_finished("base", Err("x".into())).body["error"], "LLM 调用失败：x");
}

#[test]
fn the_bundle_is_opened_anew() {
    let exe = "/Applications/Drop.app/Contents/MacOS/drop";
    assert_eq!(app_bundle(exe, Platform::Macos).as_deref(), Some("/Applications/Drop.app"));
    let r = restart_plan(exe, Platform::Macos);
    assert_eq!(r.program, "open");
    assert_eq!(r.args, vec!["-n", "-a", "/Applications/Drop.app"]);
    let plain = restart_plan("/usr/bin/drop", Platform::Macos);
    assert_eq!(plain.program, "/usr/bin/drop");
    assert!(plain.args.is_empty());
    assert_eq!(app_bundle("/a/.app/x", Platform::Macos), None);
    assert_eq!(app_bundle("/a/b.application/x", Platform::Macos), None);
    let exe = "C:\\b.app\\x.exe";
    assert_eq!(app_bundle(exe, Platform::Windows).as_deref(), Some("C:\\b.app"));
    assert_eq!(app_bundle(exe, Platform::Macos), None);
    assert_eq!(app_bundle("C:.app\\x.exe", Platform::Windows), None);
    assert_eq!(app_bundle("\\\\?\\C:\\b.app/x.exe", Platform::Windows), None);
}
