use drop_typing::command::Modifier;
use drop_typing::config::{CommandActionEntry, CommandConfig};
use drop_typing::lightning::{
    all_aliases, effective_aliases, keyword_line, normalize_phrase, settings_view, AliasSource,
    LightningMatcher, LightningSpotter,
};
use drop_typing::wakeword::text2token::{load_cjk_map, load_en_phone, load_tokens};
use drop_typing::wakeword::Text2Token;

#[test]
fn normalize_phrase_handles_trim_fullwidth_lowercase() {
    assert_eq!(normalize_phrase(" Copy "), "copy");
    assert_eq!(normalize_phrase("ＣＯＰＹ"), "copy");
    assert_eq!(normalize_phrase("复制 "), "复制");
}

fn entry(phrase: &str, key: &str) -> CommandActionEntry {
    CommandActionEntry {
        phrase: phrase.to_string(),
        modifiers: vec![],
        key: key.to_string(),
        script: None,
        shell: None,
    }
}

#[test]
fn all_aliases_user_overrides_builtin() {
    let mut cfg = CommandConfig::default();
    cfg.action.push(entry("复制", "V"));
    let aliases = all_aliases(&cfg);
    let copy = aliases.iter().find(|a| a.phrase == "复制").unwrap();
    assert_eq!(copy.command.display(), "V");
    assert_eq!(copy.source, AliasSource::User);
    assert!(aliases.iter().any(|a| a.source == AliasSource::Builtin));
}

#[test]
fn effective_aliases_filters_disabled() {
    let mut cfg = CommandConfig::default();
    cfg.lightning_disabled = vec!["复制".to_string()];
    let aliases = effective_aliases(&cfg);
    assert!(!aliases.iter().any(|a| a.phrase == "复制"));
    assert!(aliases.iter().any(|a| a.phrase == "粘贴"));
}

#[test]
fn keyword_line_inserts_threshold_before_label() {
    let line = keyword_line("x ī zh ì @复制", "0.70").unwrap();
    assert_eq!(line, "x ī zh ì #0.70 @复制");
}

#[test]
fn keyword_line_rejects_missing_label() {
    assert!(keyword_line("x ī zh ì", "0.70").is_err());
    assert_eq!(
        keyword_line("x @", "0.70").unwrap(),
        "x #0.70 @"
    );
    assert_eq!(
        keyword_line("x@y", "0.70").unwrap_err(),
        "text2token 输出缺少 @label：x@y"
    );
}

#[test]
fn a_phrase_occurs_once_and_the_last_entry_counts() {
    let mut cfg = CommandConfig::default();
    cfg.action.push(entry(" COPY ", "X"));
    cfg.action.push(entry("ｃｏｐｙ", "Y"));
    cfg.action.push(entry("   ", "Z"));
    let aliases = all_aliases(&cfg);
    let copies: Vec<_> = aliases
        .iter()
        .filter(|a| normalize_phrase(&a.phrase) == "copy")
        .collect();
    assert_eq!(copies.len(), 1);
    assert_eq!(copies[0].command.display(), "Y");
    assert!(!aliases.iter().any(|a| a.phrase.trim().is_empty()));
}

#[test]
fn switching_off_minds_neither_case_nor_width() {
    let mut cfg = CommandConfig::default();
    cfg.lightning_disabled = vec![" ＣＯＰＹ".to_string()];
    assert!(!effective_aliases(&cfg).iter().any(|a| a.phrase == "copy"));
}

/// Tables that know two ideographs and the letters of one word.
fn tables() -> Text2Token {
    let tokens = "c 1\nè 2\nsh 3\nì 4\nEY1 5\n";
    let cjk = "{\"测\": [\"c\", \"è\"], \"试\": [\"sh\", \"ì\"]}";
    Text2Token {
        token_table: load_tokens(tokens).unwrap(),
        cjk_map: load_cjk_map(cjk).unwrap(),
        en_phone: load_en_phone("AY EY1\n").unwrap(),
    }
}

/// Only the phrase of the test is left on.
fn only(phrase: &str) -> CommandConfig {
    let mut cfg = CommandConfig::default();
    cfg.lightning_disabled = all_aliases(&cfg).into_iter().map(|a| a.phrase).collect();
    let mut e = entry(phrase, "C");
    e.modifiers = vec![Modifier::Command];
    cfg.action.push(e);
    cfg
}

#[test]
fn the_spotter_is_loaded_with_lines_and_commands() {
    let spotter = LightningSpotter::load(&tables(), &only("测试"), "0.70").unwrap();
    assert_eq!(spotter.keywords, "c è sh ì #0.70 @测试");
    assert_eq!(spotter.command_for("测试").unwrap().display(), "CMD+C");
    assert_eq!(spotter.command_for("测试吧").unwrap().display(), "CMD+C");
    assert_eq!(spotter.command_for("测").unwrap().display(), "CMD+C");
    assert!(spotter.command_for("别的").is_none());
}

#[test]
fn one_phrase_that_cannot_be_spoken_stops_the_spotter() {
    assert!(LightningSpotter::load(&tables(), &only("谁"), "0.70").is_err());
}

#[test]
fn one_command_is_spotted_in_a_recording() {
    let spotter = LightningSpotter::load(&tables(), &only("测试"), "0.70").unwrap();
    let mut m = LightningMatcher::new();
    assert_eq!(m.feed(&[0xff, 0x7f, 0x00, 0x80, 9]), Some(vec![32767, -32768]));
    assert!(m.heard(&spotter, None).is_none());
    assert_eq!(m.heard(&spotter, Some("测试")).unwrap().display(), "CMD+C");
    assert_eq!(m.feed(&[1, 0]), None);
    assert!(m.heard(&spotter, Some("测试")).is_none());
}

#[test]
fn the_settings_show_every_phrase() {
    let cfg = only("测试");
    let t = tables();
    let page = settings_view(&cfg, Some(&t), "0.70");
    assert_eq!(page["available"], serde_json::Value::Bool(true));
    let items = page["items"].as_array().unwrap();
    assert_eq!(items.len(), all_aliases(&cfg).len());
    let own = items.iter().find(|i| i["phrase"] == "测试").unwrap();
    assert_eq!(own["display"], "CMD+C");
    assert_eq!(own["builtin"], false);
    assert_eq!(own["enabled"], true);
    assert_eq!(own["token_line"], "c è sh ì #0.70 @测试");
    let copy = items.iter().find(|i| i["phrase"] == "复制").unwrap();
    assert_eq!(copy["enabled"], false);
    assert!(copy["token_line"].is_null());
    let without = settings_view(&cfg, None, "0.70");
    assert_eq!(without["available"], false);
    assert!(without["items"][0]["token_line"].is_null());
}
