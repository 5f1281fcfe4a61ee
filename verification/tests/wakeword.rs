use drop_typing::config::{KeywordEntry, WakewordConfig};
use drop_typing::wakeword::engine::{check_model, create_engine, Decoding, ModelFile};
use drop_typing::wakeword::text2token::{
    load_cjk_map, load_en_phone, load_tokens, split_mixed_text,
};
use drop_typing::wakeword::words::{
    heard_label, looks_like_path, match_folded, model_dir_candidates, ModelPlace,
};
use drop_typing::wakeword::{
    builtin_defaults, default_keyword_map, match_label, resolve_keywords, Text2Token, WakeWord,
};

#[test]
fn builtin_defaults_are_xiaoyi_words() {
    let words = builtin_defaults();
    let texts: Vec<&str> = words.iter().map(|w| w.text.as_str()).collect();
    assert_eq!(
        texts,
        vec!["小易记", "小易修", "小易控", "小易确认", "小易清空"]
    );
    let actions: Vec<&str> = words.iter().map(|w| w.action.as_str()).collect();
    assert_eq!(actions, vec!["input", "repair", "command", "commit", "clear"]);
}

#[test]
fn test_default_keyword_map() {
    let map = default_keyword_map();
    assert_eq!(map.len(), 5);
    assert_eq!(map[0].0, "小易记");
    assert_eq!(map[1].0, "小易修");
    assert_eq!(map[2].0, "小易控");
    assert_eq!(map[3].0, "小易确认");
    assert_eq!(map[4].0, "小易清空");
}

/// The part of the model's tables that the tests speak of.
fn model() -> Text2Token {
    let sounds = [
        "D", "IY1", "T", "d", "ǎ", "x", "iū", "k", "òng", "iǎo", "y", "ì", "j", "zh", "ù", "sh",
        "ǒu", "n", "ǐ", "h", "ǎo", "EY1", "EH1", "S", "AA1", "R", "c", "è", "q", "uè", "r", "èn",
        "īng", "ōng", "HH", "AH0", "L", "OW1",
    ];
    let mut tokens = String::new();
    for (i, s) in sounds.iter().enumerate() {
        tokens.push_str(&format!("{s} {i}\n"));
    }
    let cjk = "{\"打\":[\"d\",\"ǎ\"],\"修\":[\"x\",\"iū\"],\"控\":[\"k\",\"òng\"],\
               \"小\":[\"x\",\"iǎo\"],\"易\":[\"y\",\"ì\"],\"记\":[\"j\",\"ì\"],\
               \"助\":[\"zh\",\"ù\"],\"手\":[\"sh\",\"ǒu\"],\"你\":[\"n\",\"ǐ\"],\
               \"好\":[\"h\",\"ǎo\"],\"测\":[\"c\",\"è\"],\"试\":[\"sh\",\"ì\"],\
               \"确\":[\"q\",\"uè\"],\"认\":[\"r\",\"èn\"],\"清\":[\"q\",\"īng\"],\
               \"空\":[\"k\",\"ōng\"]}";
    Text2Token {
        token_table: load_tokens(&tokens).unwrap(),
        cjk_map: load_cjk_map(cjk).unwrap(),
        en_phone: load_en_phone("HELLO HH AH0 L OW1\n").unwrap(),
    }
}

#[test]
fn test_split_mixed_text() {
    assert_eq!(split_mixed_text("DT打"), vec!["DT", "打"]);
    assert_eq!(split_mixed_text("DT修"), vec!["DT", "修"]);
    assert_eq!(split_mixed_text("DT控"), vec!["DT", "控"]);
    assert_eq!(split_mixed_text("小爱同学"), vec!["小", "爱", "同", "学"]);
    assert_eq!(split_mixed_text("你好 DT"), vec!["你", "好", "DT"]);
    assert_eq!(split_mixed_text("HELLO 世界"), vec!["HELLO", "世", "界"]);
    assert_eq!(split_mixed_text("OK"), vec!["OK"]);
    assert_eq!(split_mixed_text(""), Vec::<String>::new());
}

#[test]
fn test_convert_builtin_keywords() {
    let t2t = model();
    assert_eq!(t2t.convert("DT打", "DT打").unwrap(), "D IY1 T IY1 d ǎ @DT打");
    assert_eq!(t2t.convert("DT修", "DT修").unwrap(), "D IY1 T IY1 x iū @DT修");
    assert_eq!(t2t.convert("DT控", "DT控").unwrap(), "D IY1 T IY1 k òng @DT控");
}

#[test]
fn test_convert_pure_chinese() {
    let t2t = model();
    assert_eq!(t2t.convert("小易记", "小易记").unwrap(), "x iǎo y ì j ì @小易记");
    let result = t2t.convert("小助手", "小助手").unwrap();
    assert!(result.starts_with("x iǎo zh ù sh ǒu"));
    assert!(result.ends_with("@小助手"));
    let result2 = t2t.convert("你好", "你好").unwrap();
    assert!(result2.starts_with("n ǐ h ǎo"));
    assert!(result2.ends_with("@你好"));
}

#[test]
fn test_convert_mixed() {
    let t2t = model();
    let result = t2t.convert("你好 DT", "你好_DT").unwrap();
    assert!(result.contains("n ǐ"));
    assert!(result.contains("h ǎo"));
    assert!(result.contains("D IY1 T IY1"));
    assert!(result.ends_with("@你好_DT"));
}

#[test]
fn test_letter_by_letter_fallback() {
    let t2t = model();
    let result = t2t.convert("DT打", "DT打").unwrap();
    assert!(result.contains("D IY1 T IY1"), "{result}");
    let result2 = t2t.convert("ASR测试", "ASR测试").unwrap();
    assert!(result2.contains("EY1 EH1 S AA1 R"), "{result2}");
    assert!(result2.contains("c è sh ì"), "{result2}");
}

#[test]
fn test_non_alpha_english_rejected() {
    let err = model().convert("HELLO3打", "test").unwrap_err();
    assert!(err.contains("3"), "{err}");
}

#[test]
fn test_write_keywords_txt() {
    let items: Vec<(String, String)> = vec![
        ("小易记".into(), "小易记".into()),
        ("小易修".into(), "小易修".into()),
        ("小易小易".into(), "小易小易".into()),
        ("小易确认".into(), "小易确认".into()),
        ("小易清空".into(), "小易清空".into()),
    ];
    let content = model().keywords_txt(&items).unwrap();
    let lines: Vec<&str> = content.trim().lines().collect();
    assert_eq!(lines.len(), 5);
    assert_eq!(lines[0], "x iǎo y ì j ì @小易记");
    assert_eq!(lines[1], "x iǎo y ì x iū @小易修");
    assert_eq!(lines[2], "x iǎo y ì x iǎo y ì @小易小易");
    assert_eq!(lines[3], "x iǎo y ì q uè r èn @小易确认");
    assert_eq!(lines[4], "x iǎo y ì q īng k ōng @小易清空");
}

#[test]
fn test_convert_xiaoyi_builtin_keywords() {
    let t2t = model();
    let expected = [
        ("小易记", "x iǎo y ì j ì @小易记"),
        ("小易修", "x iǎo y ì x iū @小易修"),
        ("小易小易", "x iǎo y ì x iǎo y ì @小易小易"),
        ("小易确认", "x iǎo y ì q uè r èn @小易确认"),
        ("小易清空", "x iǎo y ì q īng k ōng @小易清空"),
    ];
    for (keyword, expected_line) in expected {
        assert_eq!(t2t.convert(keyword, keyword).unwrap(), expected_line);
    }
}

#[test]
fn words_of_the_dictionary_are_not_spelled() {
    assert_eq!(
        model().convert("hello", "h").unwrap(),
        "HH AH0 L OW1 @h"
    );
}

#[test]
fn sounds_that_the_model_lacks_are_refused() {
    let t2t = Text2Token {
        token_table: load_tokens("d 1\n").unwrap(),
        cjk_map: load_cjk_map("{\"打\":[\"d\",\"ǎ\"]}").unwrap(),
        en_phone: load_en_phone("AY EY1\n").unwrap(),
    };
    assert!(t2t.convert("打", "打").is_err());
    assert!(t2t.convert("谁", "谁").is_err());
}

#[test]
fn broken_tables_are_refused() {
    assert!(load_cjk_map("[").is_err());
    assert!(load_tokens("d x\n").is_err());
    assert!(load_en_phone("").is_err());
}

fn word(text: &str, action: &str) -> WakeWord {
    WakeWord {
        text: text.into(),
        action: action.into(),
    }
}

fn keyed(words: &[(&str, &str)]) -> Vec<(String, WakeWord)> {
    words.iter().map(|(t, a)| (t.to_string(), word(t, a))).collect()
}

#[test]
fn words_are_matched_exactly_before_nearly() {
    let table = keyed(&[("杨力", "input"), ("杨力确认", "commit")]);
    assert_eq!(match_label(&table, "杨力").unwrap().action, "input");
    assert_eq!(match_label(&table, "杨力确认").unwrap().action, "commit");
    let dt = keyed(&[("DT打", "input")]);
    assert_eq!(match_label(&dt, "dt打了").unwrap().action, "input");
    assert_eq!(match_label(&dt, "dt").unwrap().action, "input");
    assert!(match_label(&dt, "别的").is_none());
}

#[test]
fn labels_are_folded() {
    assert_eq!(heard_label(" DT打 ").as_deref(), Some("dt打"));
    assert_eq!(heard_label(""), None);
}

#[test]
fn own_words_take_the_place_of_the_builtin_ones() {
    let mut cfg = WakewordConfig::default();
    assert_eq!(resolve_keywords(&cfg).0.len(), 5);
    cfg.keywords = vec![KeywordEntry {
        keyword: "你好".into(),
        action: "repair".into(),
    }];
    let (table, dynamic) = resolve_keywords(&cfg);
    assert!(dynamic);
    assert_eq!(table, keyed(&[("你好", "repair")]));
    let plan = create_engine(&cfg, &model()).unwrap();
    assert_eq!(plan.keywords, "n ǐ h ǎo @你好");
    assert_eq!(plan.table, table);
}

#[test]
fn the_builtin_words_can_be_spoken() {
    let plan = create_engine(&WakewordConfig::default(), &model()).unwrap();
    assert_eq!(plan.keywords.lines().count(), 5);
    assert_eq!(plan.keywords.lines().next(), Some("x iǎo y ì j ì @小易记"));
}

#[test]
fn durations_are_estimated_and_bounded() {
    assert_eq!(word("小易记", "input").duration_ms(), 750);
    assert_eq!(word("小", "input").duration_ms(), 300);
    assert_eq!(word("小易小易小易", "input").duration_ms(), 1200);
    assert_eq!(word("DT打", "input").duration_ms(), 550);
}

#[test]
fn paths_are_told_from_names() {
    assert!(looks_like_path("/x"));
    assert!(looks_like_path("../x"));
    assert!(looks_like_path("~/x"));
    assert!(!looks_like_path("m1"));
}

fn joined(p: &ModelPlace) -> std::path::PathBuf {
    match p {
        ModelPlace::Own(path) => std::path::PathBuf::from(path),
        ModelPlace::Below { base, parts } => {
            let mut path = std::path::PathBuf::from(base);
            for part in parts {
                path = path.join(part);
            }
            path
        }
    }
}

#[test]
fn find_in_dirs_locates_model_dir() {
    let bases = vec!["/root".to_string(), String::new()];
    let places = model_dir_candidates("m1", &bases);
    assert_eq!(places.len(), 2);
    assert_eq!(joined(&places[0]), std::path::Path::new("/root/models/builtin/m1"));
    assert_eq!(joined(&places[1]), std::path::Path::new("models/builtin/m1"));
    let absolute = model_dir_candidates("/abs", &bases);
    assert_eq!(absolute, vec![ModelPlace::Own("/abs".to_string())]);
}

#[test]
fn missing_files_are_named() {
    let file = |name: &str, exists: bool| ModelFile {
        name: name.into(),
        path: format!("/m/{name}"),
        exists,
    };
    assert!(check_model(&vec![file("encoder.onnx", true)]).is_ok());
    assert_eq!(
        check_model(&vec![
            file("encoder.onnx", true),
            file("decoder.onnx", false),
            file("tokens.txt", false)
        ]),
        Err("模型文件缺失：/m/decoder.onnx（decoder.onnx）".to_string())
    );
}

#[test]
fn decoding_comes_to_an_end() {
    let mut d = Decoding::new();
    for _ in 0..500 {
        assert!(d.decoded());
    }
    assert!(!d.decoded());
}

#[test]
fn folded_words_are_matched_by_rank() {
    let table: Vec<(String, WakeWord)> = ["甲", "甲乙", "乙"]
        .iter()
        .map(|t| {
            let word = WakeWord {
                text: t.to_string(),
                action: "input".to_string(),
            };
            (t.to_string(), word)
        })
        .collect();
    let folds = vec!["a".to_string(), "ab".to_string(), "b".to_string()];
    let heard = |h: &str| match_folded(&table, &folds, h).map(|w| w.text);
    assert_eq!(heard("ab").as_deref(), Some("甲乙"));
    assert_eq!(heard("xa").as_deref(), Some("甲"));
    assert_eq!(heard("c"), None);
}

#[test]
fn phonemes_are_looked_up_by_the_given_upper_case() {
    let t2t = model();
    let spelled = t2t.phones_for("dt", "NO SUCH WORD").unwrap();
    assert_eq!(spelled, vec!["D", "IY1", "T", "IY1"]);
    assert!(t2t.phones_for("d1", "NO SUCH WORD").is_err());
}
