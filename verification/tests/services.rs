use drop_typing::asr::bailian::BailianAsr;
use drop_typing::asr::realtime::{
    finish_task_message, run_task_message, LinkEvent, SessionNews, Transcript,
};
use drop_typing::asr::{backend_from_config, derive_ws_url, AsrBackend};
use drop_typing::config::Config;
use drop_typing::llm::spacing::{pangu_spacing, post_process};
use drop_typing::llm::{cleaner_from_config, Cleaner};
use drop_typing::prompts::{
    builtin_style_keys, default_base_prompt, default_prompt_config, default_style_prompt,
    effective_clean_prompt, is_builtin_style, style_label, PromptConfig, StylePrompts,
};

fn parse(s: &str) -> serde_json::Value {
    serde_json::from_str(s).unwrap()
}

#[test]
fn urls_are_derived() {
    assert_eq!(
        derive_ws_url(None),
        "wss://dashscope.aliyuncs.com/api-ws/v1/inference"
    );
    assert_eq!(derive_ws_url(Some("wss://x/y")), "wss://x/y");
}

#[test]
fn the_protocol_chooses_the_service() {
    let mut cfg = Config::default();
    assert!(backend_from_config(&cfg).is_none());
    cfg.asr.api_key = Some("k".into());
    assert!(matches!(backend_from_config(&cfg), Some(AsrBackend::Realtime(_))));
    cfg.asr.protocol = Some("dashscope-http".into());
    assert!(matches!(backend_from_config(&cfg), Some(AsrBackend::Batch(_))));
    cfg.asr.protocol = Some("other".into());
    assert!(backend_from_config(&cfg).is_none());
}

#[test]
fn a_recording_is_sent_in_base64() {
    let asr = BailianAsr::new("k".into(), "m".into());
    let body = asr.build_body(b"Man");
    let audio = body["input"]["messages"]
        .as_array()
        .unwrap()
        .iter()
        .find_map(|m| m["content"][0]["audio"].as_str())
        .unwrap();
    assert_eq!(audio, "data:audio/wav;base64,TWFu");
    assert_eq!(body["model"], "m");
    assert_eq!(parse(&asr.request_text(b"Ma")), asr.build_body(b"Ma"));
    assert!(asr.request_text(b"Ma").contains("base64,TWE=\""));
}

#[test]
fn transcripts_are_read_from_answers() {
    let ok = "{\"output\":{\"choices\":[{\"message\":{\"content\":[{\"text\":\"你\"},{\"text\":\"好\"}]}}]}}";
    assert_eq!(BailianAsr::read_reply(true, "200 OK", ok.as_bytes()).as_deref(), Ok("你好"));
    assert!(BailianAsr::read_reply(false, "401 Unauthorized", b"{}").is_err());
    let broken = BailianAsr::read_reply(true, "200 OK", b"{").unwrap_err();
    assert_eq!(
        broken,
        "DashScope 响应不是合法 JSON: error decoding response body: EOF while parsing an object at line 1 column 1"
    );
    assert!(BailianAsr::read_reply(true, "200 OK", b"{\"a\": \"\xff\"}").is_err());
    assert!(BailianAsr::read_reply(true, "200 OK", b"{}").is_err());
}

#[test]
fn tasks_are_begun_and_finished_by_id() {
    let run = parse(&run_task_message("t1", "m1"));
    assert_eq!(run["header"]["action"], "run-task");
    assert_eq!(run["header"]["task_id"], "t1");
    assert_eq!(run["payload"]["model"], "m1");
    let finish = parse(&finish_task_message("t1"));
    assert_eq!(finish["header"]["action"], "finish-task");
}

fn sentence(text: &str, end: bool) -> String {
    format!(
        "{{\"header\":{{\"event\":\"result-generated\"}},\"payload\":{{\"output\":{{\"sentence\":{{\"text\":\"{text}\",\"sentence_end\":{end}}}}}}}}}"
    )
}

#[test]
fn sentences_follow_each_other() {
    let mut t = Transcript::new();
    assert!(matches!(
        t.hear_text("{\"header\":{\"event\":\"task-started\"}}"),
        SessionNews::Ready
    ));
    match t.hear_text(&sentence("你", false)) {
        SessionNews::Partial(s) => assert_eq!(s, "你"),
        other => panic!("{other:?}"),
    }
    let _ = t.hear_text(&sentence("你好。", true));
    match t.hear_text(&sentence("再", false)) {
        SessionNews::Partial(s) => assert_eq!(s, "你好。再"),
        other => panic!("{other:?}"),
    }
    match t.hear_text("{\"header\":{\"event\":\"task-finished\"}}") {
        SessionNews::Final(s) => assert_eq!(s, "你好。再"),
        other => panic!("{other:?}"),
    }
}

#[test]
fn failures_are_passed_on() {
    let mut t = Transcript::new();
    let _ = t.hear_text("{\"header\":{\"event\":\"task-started\"}}");
    let news = t.hear_text(
        "{\"header\":{\"event\":\"task-failed\",\"error_code\":\"E\",\"error_message\":\"bad\"}}",
    );
    assert!(matches!(news, SessionNews::Broken(m) if m.contains("bad")));
    let lost = Transcript::new().link_lost(LinkEvent::Closed);
    assert!(matches!(lost, SessionNews::NotReady(m) if m == "ASR WebSocket 连接被关闭"));
}

#[test]
fn blanks_stand_between_han_and_latin() {
    assert_eq!(pangu_spacing("用Rust写"), "用 Rust 写");
    assert_eq!(pangu_spacing(&pangu_spacing("第3章")), pangu_spacing("第3章"));
    assert_eq!(post_process("用Rust"), "用 Rust");
}

#[test]
fn the_language_model_is_asked_in_its_protocol() {
    let mut cfg = Config::default();
    assert!(cleaner_from_config(&cfg).is_none());
    cfg.llm.api_key = Some("k".into());
    let chat = cleaner_from_config(&cfg).unwrap();
    assert!(matches!(chat, Cleaner::OpenAi(_)));
    let body = parse(&chat.clean_request("文", "提示"));
    assert_eq!(body["messages"][0]["role"], "system");
    assert_eq!(body["messages"][0]["content"], "提示");
    assert_eq!(body["messages"][1]["content"], "文");
    let reply = "{\"choices\":[{\"message\":{\"content\":\" 用Rust \"}}]}";
    assert_eq!(chat.read_reply(true, "200 OK", reply.as_bytes()).as_deref(), Ok("用 Rust"));
    assert!(chat.read_reply(true, "200 OK", b"{}").is_err());
    assert!(chat.read_reply(false, "500", b"{}").is_err());
    let broken = chat.read_reply(true, "200 OK", b"no").unwrap_err();
    assert!(broken.starts_with("LLM 响应不是合法 JSON: error decoding response body: "));

    cfg.llm.protocol = Some("anthropic-messages".into());
    assert!(cleaner_from_config(&cfg).is_none());
    cfg.llm.model = Some("m".into());
    cfg.llm.base_url = Some("https://x/".into());
    let messages = cleaner_from_config(&cfg).unwrap();
    let body = parse(&messages.repair_request("原文", "改"));
    assert_eq!(body["model"], "m");
    let reply = "{\"content\":[{\"type\":\"text\",\"text\":\"好\"}]}";
    assert_eq!(messages.read_reply(true, "200 OK", reply.as_bytes()).as_deref(), Ok("好"));
}

#[test]
fn styles_add_to_the_base_prompt() {
    let none = PromptConfig {
        base: None,
        styles: None,
    };
    assert_eq!(effective_clean_prompt(&none, None), default_base_prompt());
    assert_eq!(
        effective_clean_prompt(&none, Some("pua")),
        format!("{}\n\n{}", default_base_prompt(), default_style_prompt("pua").unwrap())
    );
    assert_eq!(effective_clean_prompt(&none, Some("none")), default_base_prompt());
    let mut styles = StylePrompts::new();
    styles.insert("mine", "短");
    let own = PromptConfig {
        base: Some("底".into()),
        styles: Some(styles),
    };
    assert_eq!(effective_clean_prompt(&own, Some("mine")), "底\n\n短");
}

#[test]
fn builtin_styles_are_known() {
    assert_eq!(builtin_style_keys(), vec!["high_eq", "low_eq", "anti_pua", "pua"]);
    assert!(is_builtin_style("pua"));
    assert!(!is_builtin_style("mine"));
    assert_eq!(style_label("high_eq"), "高情商");
    assert_eq!(style_label("mine"), "mine");
    let all = default_prompt_config();
    assert_eq!(all.base.as_deref(), Some(default_base_prompt()));
    assert!(all.styles.unwrap().contains_key("low_eq"));
}

#[test]
fn styles_are_kept_by_key() {
    let mut s = StylePrompts::new();
    s.insert("a", "1");
    s.insert("a", "2");
    assert_eq!(s.get("a").as_deref(), Some("2"));
    assert!(s.remove("a"));
    assert!(!s.remove("a"));
    assert_eq!(s.get("a"), None);
}
