//! Models, times, commands, and the file as a whole.
use crate::command::combo;
use crate::config::file::{needs_restart, Config};
use crate::config::sections;
use crate::config::sections::{AsrConfig, LlmConfig};
use crate::json;
use crate::json::Json;
use crate::search;
use crate::settings::payload;
use crate::settings::payload::{apply_asr_payload, apply_llm_payload};
use crate::settings::reply;
use crate::settings::reply::{refusal_body, reload_reply, Page, Reply};
use crate::text;
use vstd::prelude::*;

verus! {

// ---------------------------------------------------------------------------
// Showing
// ---------------------------------------------------------------------------

pub open spec fn asr_page(a: AsrConfig) -> Json {
    Json::Object(
        Map::<Seq<char>, Json>::empty().insert("provider"@, Json::Text(a.provider@)).insert(
            "protocol"@,
            json::opt_text(combo::opt_text(a.protocol)),
        ).insert("model"@, json::opt_text(combo::opt_text(a.model))).insert(
            "base_url"@,
            json::opt_text(combo::opt_text(a.base_url)),
        ).insert("api_key"@, json::opt_text(combo::opt_text(a.api_key))),
    )
}

pub open spec fn llm_page(l: LlmConfig) -> Json {
    Json::Object(
        Map::<Seq<char>, Json>::empty().insert(
            "provider"@,
            json::opt_text(combo::opt_text(l.provider)),
        ).insert("protocol"@, json::opt_text(combo::opt_text(l.protocol))).insert(
            "model"@,
            json::opt_text(combo::opt_text(l.model)),
        ).insert("base_url"@, json::opt_text(combo::opt_text(l.base_url))).insert(
            "api_key"@,
            json::opt_text(combo::opt_text(l.api_key)),
        ).insert("strength"@, json::opt_text(combo::opt_text(l.strength))),
    )
}

/// The countdown in force.
pub open spec fn countdown(cfg: Config) -> u64 {
    match cfg.command.countdown_ms {
        Some(ms) => ms,
        None => cfg.command_countdown_ms,
    }
}

pub open spec fn general_page(cfg: Config) -> Json {
    Json::Object(
        Map::<Seq<char>, Json>::empty().insert("asr"@, asr_page(cfg.asr)).insert(
            "llm"@,
            llm_page(cfg.llm),
        ).insert(
            "thresholds"@,
            Json::Object(
                Map::<Seq<char>, Json>::empty().insert(
                    "long_press_threshold_ms"@,
                    json::number(cfg.long_press_threshold_ms),
                ).insert(
                    "double_press_window_ms"@,
                    json::number(cfg.double_press_window_ms),
                ).insert("command_countdown_ms"@, json::number(cfg.command_countdown_ms)),
            ),
        ).insert("effective_command_countdown_ms"@, json::number(countdown(cfg))),
    )
}

/// Shows models and times.
pub fn general_view(cfg: &Config) -> (r: Reply)
    ensures
        r@ == (reply::Said {
            event: "drop-typing://general-config"@,
            body: general_page(*cfg),
        }),
{
    let mut asr = json::Members::new();
    asr.put_text("provider", &cfg.asr.provider);
    asr.put_opt_text("protocol", &cfg.asr.protocol);
    asr.put_opt_text("model", &cfg.asr.model);
    asr.put_opt_text("base_url", &cfg.asr.base_url);
    asr.put_opt_text("api_key", &cfg.asr.api_key);
    let mut llm = json::Members::new();
    llm.put_opt_text("provider", &cfg.llm.provider);
    llm.put_opt_text("protocol", &cfg.llm.protocol);
    llm.put_opt_text("model", &cfg.llm.model);
    llm.put_opt_text("base_url", &cfg.llm.base_url);
    llm.put_opt_text("api_key", &cfg.llm.api_key);
    llm.put_opt_text("strength", &cfg.llm.strength);
    let mut times = json::Members::new();
    times.put_number("long_press_threshold_ms", cfg.long_press_threshold_ms);
    times.put_number("double_press_window_ms", cfg.double_press_window_ms);
    times.put_number("command_countdown_ms", cfg.command_countdown_ms);
    let mut m = json::Members::new();
    m.put("asr", asr.done());
    m.put("llm", llm.done());
    m.put("thresholds", times.done());
    m.put_number("effective_command_countdown_ms", cfg.effective_command_countdown_ms());
    reply::reply("drop-typing://general-config", m.done())
}

/// Shows the section on commands, which is given as JSON.
pub fn command_view(section: serde_json::Value, cfg: &Config) -> (r: Reply)
    ensures
        r@ == (reply::Said {
            event: "drop-typing://command-config"@,
            body: Json::Object(
                Map::<Seq<char>, Json>::empty().insert("config"@, json::tree(section)).insert(
                    "effective_command_countdown_ms"@,
                    json::number(countdown(*cfg)),
                ),
            ),
        }),
{
    let mut m = json::Members::new();
    m.put("config", section);
    m.put_number("effective_command_countdown_ms", cfg.effective_command_countdown_ms());
    reply::reply("drop-typing://command-config", m.done())
}

// ---------------------------------------------------------------------------
// Saving
// ---------------------------------------------------------------------------

/// A time between a twentieth of a second and ten seconds; else what is wrong.
pub open spec fn sent_time(t: Json, key: Seq<char>) -> Result<u64, Seq<char>> {
    let n = match t.member(key) {
        Some(m) => m.as_whole(),
        None => None,
    };
    match n {
        Some(n) => if 50 <= n <= 10_000 {
            Ok(n)
        } else {
            Err(key + " 超出范围（50~10000ms）："@ + search::decimal(n as nat))
        },
        None => Err(key + " 缺失或格式错误"@),
    }
}

fn get_time(v: &serde_json::Value, key: &str) -> (r: Result<u64, String>)
    ensures
        match sent_time(json::tree(*v), key@) {
            Ok(n) => r == Ok::<u64, String>(n),
            Err(e) => r is Err && r->Err_0@ == e,
        },
{
    let n = match json::get(v, key) {
        Some(m) => json::whole(m),
        None => None,
    };
    match n {
        Some(n) => {
            if n >= 50 && n <= 10_000 {
                Ok(n)
            } else {
                let mut e = search::concat(key, " 超出范围（50~10000ms）：");
                e.append(&search::decimal_text(n));
                Err(e)
            }
        },
        None => Err(search::concat(key, " 缺失或格式错误")),
    }
}

/// The three times, where they are sent; else what is wrong with the first that
/// is not right.
pub open spec fn sent_times(t: Json) -> Result<Option<(u64, u64, u64)>, Seq<char>> {
    match t.member("thresholds"@) {
        None => Ok(None),
        Some(th) => match sent_time(th, "long_press_threshold_ms"@) {
            Err(e) => Err(e),
            Ok(a) => match sent_time(th, "double_press_window_ms"@) {
                Err(e) => Err(e),
                Ok(b) => match sent_time(th, "command_countdown_ms"@) {
                    Err(e) => Err(e),
                    Ok(c) => Ok(Some((a, b, c))),
                },
            },
        },
    }
}

fn get_times(v: &serde_json::Value) -> (r: Result<Option<(u64, u64, u64)>, String>)
    ensures
        match sent_times(json::tree(*v)) {
            Ok(t) => r == Ok::<Option<(u64, u64, u64)>, String>(t),
            Err(e) => r is Err && r->Err_0@ == e,
        },
{
    match json::get(v, "thresholds") {
        None => Ok(None),
        Some(th) => {
            let a: u64 = match get_time(th, "long_press_threshold_ms") {
                Ok(n) => n,
                Err(e) => return Err(e),
            };
            let b: u64 = match get_time(th, "double_press_window_ms") {
                Ok(n) => n,
                Err(e) => return Err(e),
            };
            let c: u64 = match get_time(th, "command_countdown_ms") {
                Ok(n) => n,
                Err(e) => return Err(e),
            };
            Ok(Some((a, b, c)))
        },
    }
}

/// The new configuration is the old one with what was sent.
pub open spec fn general_as_sent(old_cfg: Config, new_cfg: Config, t: Json) -> bool {
    &&& match t.member("asr"@) {
        Some(a) => payload::asr_as_given(new_cfg.asr, a),
        None => new_cfg.asr == old_cfg.asr,
    }
    &&& match t.member("llm"@) {
        Some(l) => payload::llm_as_given(new_cfg.llm, l, old_cfg.llm.current_style),
        None => new_cfg.llm == old_cfg.llm,
    }
    &&& match sent_times(t) {
        Ok(Some((a, b, c))) => new_cfg.long_press_threshold_ms == a
            && new_cfg.double_press_window_ms == b && new_cfg.command_countdown_ms == c,
        _ => new_cfg.long_press_threshold_ms == old_cfg.long_press_threshold_ms
            && new_cfg.double_press_window_ms == old_cfg.double_press_window_ms
            && new_cfg.command_countdown_ms == old_cfg.command_countdown_ms,
    }
    &&& new_cfg.command == old_cfg.command
    &&& new_cfg.hotkey == old_cfg.hotkey
    &&& new_cfg.audio == old_cfg.audio
    &&& new_cfg.wakeword == old_cfg.wakeword
    &&& new_cfg.dashscope_api_key == old_cfg.dashscope_api_key
    &&& new_cfg.asr_model == old_cfg.asr_model
}

/// Takes over models and times, unless a time is not right: then nothing is to
/// be saved.
pub fn apply_general_payload(cfg: Config, v: &serde_json::Value) -> (r: Result<Config, String>)
    ensures
        match sent_times(json::tree(*v)) {
            Ok(_) => r is Ok && general_as_sent(cfg, r->Ok_0, json::tree(*v)),
            Err(e) => r is Err && r->Err_0@ == e,
        },
{
    let mut new_cfg = cfg;
    if let Some(asr) = json::get(v, "asr") {
        apply_asr_payload(&mut new_cfg, asr);
    }
    if let Some(llm) = json::get(v, "llm") {
        apply_llm_payload(&mut new_cfg, llm);
    }
    match get_times(v) {
        Ok(Some((a, b, c))) => {
            new_cfg.long_press_threshold_ms = a;
            new_cfg.double_press_window_ms = b;
            new_cfg.command_countdown_ms = c;
        },
        Ok(None) => {},
        Err(e) => return Err(e),
    }
    Ok(new_cfg)
}

/// Answers where the prompts that were sent could not be read.
pub fn prompts_refused(error: &str) -> (r: Vec<Reply>)
    ensures
        reply::said(r@) == reply::save_answer(
            Page::Prompts,
            Err("提示词 JSON 解析失败："@ + error@),
        ),
{
    reply::saved(Page::Prompts, Err(search::concat("提示词 JSON 解析失败：", error)))
}

/// Answers where the section on commands that was sent could not be read.
pub fn command_refused(error: &str) -> (r: Vec<Reply>)
    ensures
        reply::said(r@) == reply::save_answer(
            Page::Command,
            Err("指令配置解析失败："@ + error@),
        ),
{
    reply::saved(Page::Command, Err(search::concat("指令配置解析失败：", error)))
}

// ---------------------------------------------------------------------------
// The file as text
// ---------------------------------------------------------------------------

/// Shows the file as it is; where there is none, its text is empty.
pub fn file_view(text: &str, path: &str, exists: bool) -> (r: Reply)
    ensures
        r@ == (reply::Said {
            event: "drop-typing://config-file"@,
            body: Json::Object(
                Map::<Seq<char>, Json>::empty().insert("text"@, Json::Text(text@)).insert(
                    "path"@,
                    Json::Text(path@),
                ).insert("exists"@, Json::Bool(exists)),
            ),
        }),
{
    let mut m = json::Members::new();
    m.put_text("text", text);
    m.put_text("path", path);
    m.put_flag("exists", exists);
    reply::reply("drop-typing://config-file", m.done())
}

/// A text that is no configuration, or that could not be written.
pub fn file_refused(error: &str) -> (r: Reply)
    ensures
        r@ == (reply::Said {
            event: "drop-typing://config-file-saved"@,
            body: reply::refusal(error@),
        }),
{
    reply::reply("drop-typing://config-file-saved", refusal_body(error))
}

/// What is answered once the file is written: what can be is taken over at
/// once, and the rest asks for a restart.
pub open spec fn file_answer(restart: bool) -> Seq<reply::Said> {
    let done = seq![
        reply::reload(),
        reply::Said {
            event: "drop-typing://config-file-saved"@,
            body: Json::Object(
                Map::<Seq<char>, Json>::empty().insert("success"@, Json::Bool(true)).insert(
                    "restart_required"@,
                    Json::Bool(restart),
                ),
            ),
        },
    ];
    if restart {
        done.push(
            reply::Said {
                event: "drop-typing://restart-required"@,
                body: Json::Object(
                    Map::<Seq<char>, Json>::empty().insert(
                        "message"@,
                        Json::Text("配置中热键设置已变化，需要重启应用后才能生效。"@),
                    ),
                ),
            },
        )
    } else {
        done
    }
}

pub fn file_saved(old_cfg: &Config, new_cfg: &Config) -> (r: Vec<Reply>)
    ensures
        reply::said(r@) == file_answer(
            old_cfg.hotkey@ != new_cfg.hotkey@ || !sections::equal_wakewords(
                old_cfg.wakeword@,
                new_cfg.wakeword@,
            ),
        ),
{
    let restart = needs_restart(old_cfg, new_cfg);
    let mut m = json::Members::new();
    m.put_flag("success", true);
    m.put_flag("restart_required", restart);
    let mut out = vec![
        reload_reply(),
        reply::reply("drop-typing://config-file-saved", m.done()),
    ];
    assert(reply::said(out@) =~= file_answer(restart).take(2));
    let ghost done = reply::said(out@);
    if restart {
        let mut n = json::Members::new();
        n.put_text("message", "配置中热键设置已变化，需要重启应用后才能生效。");
        let last = reply::reply("drop-typing://restart-required", n.done());
        let ghost seen = last@;
        out.push(last);
        assert(reply::said(out@) =~= done.push(seen));
    } else {
        assert(file_answer(restart).take(2) =~= file_answer(restart));
    }
    out
}

// ---------------------------------------------------------------------------
// Laws
// ---------------------------------------------------------------------------

/// Times that are taken over lie between a twentieth of a second and ten
/// seconds.
pub proof fn law_times_stay_in_range(old_cfg: Config, new_cfg: Config, t: Json)
    requires
        sent_times(t) matches Ok(Some(_)),
        general_as_sent(old_cfg, new_cfg, t),
    ensures
        50 <= new_cfg.long_press_threshold_ms <= 10_000,
        50 <= new_cfg.double_press_window_ms <= 10_000,
        50 <= new_cfg.command_countdown_ms <= 10_000,
{
}

/// Saving what the page was shown changes nothing of the models, as long as
/// what is there has no white space around it and is not empty.
pub proof fn law_shown_models_are_read_back(a: AsrConfig)
    requires
        !text::blank(a.provider@),
        text::trimmed(a.provider@) == a.provider@,
        clean(combo::opt_text(a.protocol)),
        clean(combo::opt_text(a.model)),
        clean(combo::opt_text(a.base_url)),
        clean(combo::opt_text(a.api_key)),
    ensures
        payload::asr_as_given(a, asr_page(a)),
{
    reveal_strlit("provider");
    reveal_strlit("protocol");
    reveal_strlit("model");
    reveal_strlit("base_url");
    reveal_strlit("api_key");
    assert("provider"@[3] == 'v' && "protocol"@[3] == 't' && "base_url"@[3] == 'e');
    assert("model"@.len() == 5 && "api_key"@.len() == 7);
    let t = asr_page(a);
    assert(t.member("provider"@) == Some(Json::Text(a.provider@)));
    assert(t.member("protocol"@) == Some(json::opt_text(combo::opt_text(a.protocol))));
    assert(t.member("model"@) == Some(json::opt_text(combo::opt_text(a.model))));
    assert(t.member("base_url"@) == Some(json::opt_text(combo::opt_text(a.base_url))));
    assert(t.member("api_key"@) == Some(json::opt_text(combo::opt_text(a.api_key))));
}

/// A text that stays as it is when it is sent.
pub open spec fn clean(o: Option<Seq<char>>) -> bool {
    match o {
        Some(s) => !text::blank(s) && text::trimmed(s) == s,
        None => true,
    }
}

/// The page shows the sections, the times, and the countdown in force.
pub proof fn law_the_page_shows_the_configuration(cfg: Config)
    ensures
        general_page(cfg).member("asr"@) == Some(asr_page(cfg.asr)),
        general_page(cfg).member("llm"@) == Some(llm_page(cfg.llm)),
        general_page(cfg).member("effective_command_countdown_ms"@) == Some(
            json::number(
                match cfg.command.countdown_ms {
                    Some(ms) => ms,
                    None => cfg.command_countdown_ms,
                },
            ),
        ),
        general_page(cfg).member("thresholds"@) matches Some(t) && t.member(
            "long_press_threshold_ms"@,
        ) == Some(json::number(cfg.long_press_threshold_ms)) && t.member("double_press_window_ms"@)
            == Some(json::number(cfg.double_press_window_ms)) && t.member("command_countdown_ms"@)
            == Some(json::number(cfg.command_countdown_ms)),
{
    reveal_strlit("asr");
    reveal_strlit("llm");
    reveal_strlit("thresholds");
    reveal_strlit("effective_command_countdown_ms");
    reveal_strlit("long_press_threshold_ms");
    reveal_strlit("double_press_window_ms");
    reveal_strlit("command_countdown_ms");
    assert("asr"@.len() == 3);
    assert("llm"@.len() == 3);
    assert("thresholds"@.len() == 10);
    assert("effective_command_countdown_ms"@.len() == 30);
    assert("long_press_threshold_ms"@.len() == 23);
    assert("double_press_window_ms"@.len() == 22);
    assert("command_countdown_ms"@.len() == 20);
    assert("asr"@[0] == 'a');
    assert("llm"@[0] == 'l');
}

/// Saving what the page was shown of the language model changes nothing, as long
/// as what is there has no white space around it and is not empty.
pub proof fn law_shown_language_models_are_read_back(l: LlmConfig)
    requires
        clean(combo::opt_text(l.provider)),
        clean(combo::opt_text(l.protocol)),
        clean(combo::opt_text(l.model)),
        clean(combo::opt_text(l.base_url)),
        clean(combo::opt_text(l.api_key)),
        clean(combo::opt_text(l.strength)),
    ensures
        payload::llm_as_given(l, llm_page(l), l.current_style),
{
    reveal_strlit("provider");
    reveal_strlit("protocol");
    reveal_strlit("model");
    reveal_strlit("base_url");
    reveal_strlit("api_key");
    reveal_strlit("strength");
    assert("provider"@.len() == 8);
    assert("protocol"@.len() == 8);
    assert("model"@.len() == 5);
    assert("base_url"@.len() == 8);
    assert("api_key"@.len() == 7);
    assert("strength"@.len() == 8);
    assert("provider"@[3] == 'v');
    assert("protocol"@[3] == 't');
    assert("provider"@[0] == 'p');
    assert("base_url"@[0] == 'b');
    assert("strength"@[0] == 's');
    assert("protocol"@[0] == 'p');
}

/// Times in range are taken as they were sent, each for what it is; one that is
/// missing or out of range is named, and then none is taken.
pub proof fn law_times_are_taken_as_sent(t: Json, th: Json, a: u64, b: u64, c: u64, x: Seq<char>)
    requires
        t.member("thresholds"@) == Some(th),
    ensures
        th.member("long_press_threshold_ms"@) == Some(json::number(a)) && th.member(
            "double_press_window_ms"@,
        ) == Some(json::number(b)) && th.member("command_countdown_ms"@) == Some(json::number(c))
            && 50 <= a <= 10_000 && 50 <= b <= 10_000 && 50 <= c <= 10_000 ==> sent_times(t)
            == Ok::<Option<(u64, u64, u64)>, Seq<char>>(Some((a, b, c))),
        th.member(x) is None ==> (sent_time(th, x) matches Err(e) && search::has_prefix(e, x)),
        th.member(x) == Some(json::number(a)) && !(50 <= a <= 10_000) ==> (sent_time(th, x)
            matches Err(e) && search::has_prefix(e, x) && search::has_text(
            e,
            search::decimal(a as nat),
        )),
        sent_time(th, "long_press_threshold_ms"@) is Err || sent_time(
            th,
            "double_press_window_ms"@,
        ) is Err || sent_time(th, "command_countdown_ms"@) is Err ==> sent_times(t) is Err,
{
    let e1 = x + " 缺失或格式错误"@;
    assert(e1.subrange(0, x.len() as int) =~= x);
    let mid = " 超出范围（50~10000ms）："@;
    let d = search::decimal(a as nat);
    let e2 = x + mid + d;
    assert(e2.subrange(0, x.len() as int) =~= x);
    assert(e2.subrange(e2.len() - d.len(), e2.len() as int) =~= d);
    assert(search::occurs_at(e2, d, e2.len() - d.len()));
}

/// Without times in what was sent, the times stay.
pub proof fn law_unsent_parts_stay(old_cfg: Config, new_cfg: Config, t: Json)
    requires
        general_as_sent(old_cfg, new_cfg, t),
    ensures
        t.member("asr"@) is None ==> new_cfg.asr == old_cfg.asr,
        t.member("llm"@) is None ==> new_cfg.llm == old_cfg.llm,
        t.member("thresholds"@) is None ==> new_cfg.long_press_threshold_ms
            == old_cfg.long_press_threshold_ms && new_cfg.double_press_window_ms
            == old_cfg.double_press_window_ms && new_cfg.command_countdown_ms
            == old_cfg.command_countdown_ms,
        new_cfg.command == old_cfg.command && new_cfg.hotkey == old_cfg.hotkey && new_cfg.audio
            == old_cfg.audio && new_cfg.wakeword == old_cfg.wakeword,
        combo::opt_text(new_cfg.llm.current_style) == combo::opt_text(old_cfg.llm.current_style),
{
}

/// A file that was saved is taken over, and a restart is asked for exactly when
/// one is needed.
pub proof fn law_saved_files_are_taken_over(restart: bool)
    ensures
        file_answer(restart).contains(reply::reload()),
        file_answer(restart)[1].body.member("success"@) == Some(Json::Bool(true)),
        file_answer(restart)[1].body.member("restart_required"@) == Some(Json::Bool(restart)),
        file_answer(restart).len() == if restart {
            3nat
        } else {
            2
        },
        restart ==> file_answer(restart)[2].event == "drop-typing://restart-required"@,
{
    assert(file_answer(restart)[0] == reply::reload());
    reveal_strlit("success");
    reveal_strlit("restart_required");
    assert("success"@.len() == 7);
    assert("restart_required"@.len() == 16);
}

} // verus!
