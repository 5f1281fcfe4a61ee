//! Trying out the services, and having a prompt improved by one.
use crate::asr::realtime;
use crate::asr::realtime::{backend_from_config, AsrBackend};
use crate::config::file::Config;
use crate::json;
use crate::json::Json;
use crate::llm::cleaner;
use crate::llm::cleaner::{cleaner_from_config, Cleaner};
use crate::search;
use crate::settings::payload;
use crate::settings::payload::{apply_asr_payload, apply_llm_payload};
use crate::settings::reply;
use crate::settings::reply::Reply;
use crate::text;
use vstd::prelude::*;

verus! {

/// How a trial went.
pub open spec fn trial(success: bool, message: Seq<char>) -> Json {
    Json::Object(
        Map::<Seq<char>, Json>::empty().insert("success"@, Json::Bool(success)).insert(
            "message"@,
            Json::Text(message),
        ),
    )
}

fn trial_body(success: bool, message: &str) -> (r: serde_json::Value)
    ensures
        json::tree(r) == trial(success, message@),
{
    let mut m = json::Members::new();
    m.put_flag("success", success);
    m.put_text("message", message);
    m.done()
}

// ---------------------------------------------------------------------------
// Speech recognition
// ---------------------------------------------------------------------------

/// Takes over what the page would try, where it is sent.
pub fn try_asr_payload(cfg: &mut Config, v: &serde_json::Value)
    ensures
        match json::tree(*v).member("asr"@) {
            Some(a) => payload::asr_as_given(final(cfg).asr, a),
            None => final(cfg).asr == old(cfg).asr,
        },
        *final(cfg) == (Config { asr: final(cfg).asr, ..*old(cfg) }),
{
    if let Some(asr) = json::get(v, "asr") {
        apply_asr_payload(cfg, asr);
    }
}

/// The service to try, or what is said where there is none.
pub fn asr_to_try(cfg: &Config) -> (r: Result<AsrBackend, Reply>)
    ensures
        match realtime::service_for(*cfg) {
            Some(s) => r is Ok && r->Ok_0@ == s,
            None => r is Err && r->Err_0@ == (reply::Said {
                event: "drop-typing://test-asr-result"@,
                body: trial(false, "配置无效：缺少 API Key 或协议未知"@),
            }),
        },
{
    match backend_from_config(cfg) {
        Some(b) => Ok(b),
        None => Err(
            reply::reply(
                "drop-typing://test-asr-result",
                trial_body(false, "配置无效：缺少 API Key 或协议未知"),
            ),
        ),
    }
}

/// How trying speech recognition went.
#[derive(Debug)]
pub enum AsrTrial {
    Heard(String),
    /// The service that takes files answered with an error.
    CallFailed(String),
    TimedOut,
    /// No session could be begun.
    NoSession(String),
    SendFailed(String),
    FinishFailed(String),
    /// What tried it has died.
    Died(String),
}

pub open spec fn asr_trial(t: AsrTrial) -> Json {
    match t {
        AsrTrial::Heard(s) => trial(true, "连接成功，ASR 返回："@ + s@),
        AsrTrial::CallFailed(e) => trial(false, "ASR 调用失败："@ + e@),
        AsrTrial::TimedOut => trial(false, "ASR 测试超时（10 秒）"@),
        AsrTrial::NoSession(e) => trial(false, "会话建立失败："@ + e@),
        AsrTrial::SendFailed(e) => trial(false, "发送音频失败："@ + e@),
        AsrTrial::FinishFailed(e) => trial(false, "识别调用失败："@ + e@),
        AsrTrial::Died(e) => trial(false, "测试线程异常："@ + e@),
    }
}

pub fn asr_tried(t: AsrTrial) -> (r: Reply)
    ensures
        r@ == (reply::Said { event: "drop-typing://test-asr-result"@, body: asr_trial(t) }),
{
    let body = match t {
        AsrTrial::Heard(s) => trial_body(true, &search::concat("连接成功，ASR 返回：", &s)),
        AsrTrial::CallFailed(e) => trial_body(false, &search::concat("ASR 调用失败：", &e)),
        AsrTrial::TimedOut => trial_body(false, "ASR 测试超时（10 秒）"),
        AsrTrial::NoSession(e) => trial_body(false, &search::concat("会话建立失败：", &e)),
        AsrTrial::SendFailed(e) => trial_body(false, &search::concat("发送音频失败：", &e)),
        AsrTrial::FinishFailed(e) => trial_body(false, &search::concat("识别调用失败：", &e)),
        AsrTrial::Died(e) => trial_body(false, &search::concat("测试线程异常：", &e)),
    };
    reply::reply("drop-typing://test-asr-result", body)
}

// ---------------------------------------------------------------------------
// Polishing
// ---------------------------------------------------------------------------

/// What is sent to try the service.
pub const TRIAL_TEXT: &'static str = "你好";

/// Takes over what the page would try, where it is sent.
pub fn try_llm_payload(cfg: &mut Config, v: &serde_json::Value)
    ensures
        match json::tree(*v).member("llm"@) {
            Some(l) => payload::llm_as_given(final(cfg).llm, l, old(cfg).llm.current_style),
            None => final(cfg).llm == old(cfg).llm,
        },
        *final(cfg) == (Config { llm: final(cfg).llm, ..*old(cfg) }),
{
    if let Some(llm) = json::get(v, "llm") {
        apply_llm_payload(cfg, llm);
    }
}

/// The service to try, or what is said where there is none.
pub fn llm_to_try(cfg: &Config) -> (r: Result<Cleaner, Reply>)
    ensures
        match cleaner::model_for(*cfg) {
            Some(m) => r is Ok && r->Ok_0@ == m,
            None => r is Err && r->Err_0@ == (reply::Said {
                event: "drop-typing://test-llm-result"@,
                body: trial(false, "配置无效：缺少 LLM API Key 或协议未知"@),
            }),
        },
{
    match cleaner_from_config(cfg) {
        Some(c) => Ok(c),
        None => Err(
            reply::reply(
                "drop-typing://test-llm-result",
                trial_body(false, "配置无效：缺少 LLM API Key 或协议未知"),
            ),
        ),
    }
}

/// How trying to polish went.
#[derive(Debug)]
pub enum LlmTrial {
    Answered(String),
    Failed(String),
    TimedOut,
}

/// At most the first `n` characters.
pub open spec fn beginning(s: Seq<char>, n: int) -> Seq<char> {
    if s.len() <= n {
        s
    } else {
        s.take(n)
    }
}

pub open spec fn llm_trial(t: LlmTrial) -> Json {
    match t {
        LlmTrial::Answered(s) => trial(
            true,
            "连接成功，LLM 返回："@ + beginning(text::trimmed(s@), 60),
        ),
        LlmTrial::Failed(e) => trial(false, "LLM 调用失败："@ + e@),
        LlmTrial::TimedOut => trial(false, "LLM 测试超时（15 秒）"@),
    }
}

pub fn llm_tried(t: LlmTrial) -> (r: Reply)
    ensures
        r@ == (reply::Said { event: "drop-typing://test-llm-result"@, body: llm_trial(t) }),
{
    let body = match t {
        LlmTrial::Answered(s) => {
            let answer = text::trim(&s);
            let cs = text::chars_of(&answer);
            let shown = if cs.len() <= 60 {
                answer
            } else {
                assert(cs@.subrange(0, 60) == cs@.take(60));
                text::string_of_range(&cs, 0, 60)
            };
            trial_body(true, &search::concat("连接成功，LLM 返回：", &shown))
        },
        LlmTrial::Failed(e) => trial_body(false, &search::concat("LLM 调用失败：", &e)),
        LlmTrial::TimedOut => trial_body(false, "LLM 测试超时（15 秒）"),
    };
    reply::reply("drop-typing://test-llm-result", body)
}

// ---------------------------------------------------------------------------
// Improving a prompt
// ---------------------------------------------------------------------------

/// What the language model is told about improving prompts.
pub const IMPROVE_PROMPT: &'static str = "你是一个提示词优化专家，擅长将模糊的自然语言需求转化为精准的结构化指令。只输出优化后的提示词全文，不要输出任何额外内容。";

pub const IMPROVE_HEAD: &'static str = "你是一个提示词优化专家。用户有一段用于语音转写后处理的系统提示词。这段提示词会发送给大模型，指示它如何清洗和改写口语化的语音转写文本。\n\n以下是用户提出的优化意图，请根据此意图改写提示词：\n\n【优化意图】\n";

pub const IMPROVE_MIDDLE: &'static str = "\n\n【当前提示词】\n";

pub const IMPROVE_TAIL: &'static str = "\n\n改写要求：\n1. 保持提示词的结构化格式，使用 1. 2. 3. 这样的编号；\n2. 确保指令清晰、无歧义，每条规则独立成行；\n3. 保留末尾「只输出清洗后的正文，不要输出任何解释、引号或前后缀」这条关键约束；\n4. 只输出优化后的提示词全文，不要输出任何解释或前后缀。";

/// What the language model is asked: to change a prompt as intended.
pub open spec fn improvement(current: Seq<char>, intent: Seq<char>) -> Seq<char> {
    IMPROVE_HEAD@ + intent + IMPROVE_MIDDLE@ + current + IMPROVE_TAIL@
}

pub fn improve_message(current: &str, intent: &str) -> (r: String)
    ensures
        r@ == improvement(current@, intent@),
{
    let mut m = search::concat(IMPROVE_HEAD, intent);
    m.append(IMPROVE_MIDDLE);
    m.append(current);
    m.append(IMPROVE_TAIL);
    m
}

pub open spec fn improved(key: Seq<char>, result: Result<Seq<char>, Seq<char>>) -> reply::Said {
    let name = Map::<Seq<char>, Json>::empty().insert("key"@, Json::Text(key));
    reply::Said {
        event: "drop-typing://ai-optimize-result"@,
        body: Json::Object(
            match result {
                Ok(s) => name.insert("optimized"@, Json::Text(s)),
                Err(e) => name.insert("error"@, Json::Text(e)),
            },
        ),
    }
}

fn improved_reply(key: &str, result: Result<&str, &str>) -> (r: Reply)
    ensures
        r@ == improved(
            key@,
            match result {
                Ok(s) => Ok(s@),
                Err(e) => Err(e@),
            },
        ),
{
    let mut m = json::Members::new();
    m.put_text("key", key);
    match result {
        Ok(s) => m.put_text("optimized", s),
        Err(e) => m.put_text("error", e),
    }
    reply::reply("drop-typing://ai-optimize-result", m.done())
}

/// The request for improving a prompt.
#[derive(Debug)]
pub struct Improvement {
    pub key: String,
    pub cleaner: Cleaner,
    /// What the language model is asked, next to [`IMPROVE_PROMPT`].
    pub message: String,
}

/// Why a prompt cannot be improved.
pub open spec fn cannot_improve(cfg: Config, t: Json) -> Option<Seq<char>> {
    if payload::text_or(t, "text"@, ""@).len() == 0 {
        Some("提示词为空，无法优化"@)
    } else if cleaner::model_for(cfg) is None {
        Some("请先在配置文件中配置 [llm] 段以使用 AI 优化功能"@)
    } else {
        None
    }
}

/// What is to be sent to improve the prompt that the page sends, or what is
/// said where that cannot be.
pub fn improve(cfg: &Config, v: &serde_json::Value) -> (r: Result<Improvement, Reply>)
    ensures
        match cannot_improve(*cfg, json::tree(*v)) {
            Some(e) => r is Err && r->Err_0@ == improved(
                payload::text_or(json::tree(*v), "key"@, ""@),
                Err(e),
            ),
            None => r is Ok && r->Ok_0.key@ == payload::text_or(json::tree(*v), "key"@, ""@)
                && Some(r->Ok_0.cleaner@) == cleaner::model_for(*cfg) && r->Ok_0.message@
                == improvement(
                payload::text_or(json::tree(*v), "text"@, ""@),
                payload::text_or(json::tree(*v), "intent"@, ""@),
            ),
        },
{
    let key = payload::get_text_or(v, "key", "");
    let current = payload::get_text_or(v, "text", "");
    let intent = payload::get_text_or(v, "intent", "");
    if current.as_str().is_empty() {
        return Err(improved_reply(&key, Err("提示词为空，无法优化")));
    }
    match cleaner_from_config(cfg) {
        Some(cleaner) => Ok(
            Improvement { key, cleaner, message: improve_message(&current, &intent) },
        ),
        None => Err(
            improved_reply(&key, Err("请先在配置文件中配置 [llm] 段以使用 AI 优化功能")),
        ),
    }
}

/// What is made of what the language model answered.
pub open spec fn improvement_result(answer: Result<Seq<char>, Seq<char>>) -> Result<
    Seq<char>,
    Seq<char>,
> {
    match answer {
        Err(e) => Err("LLM 调用失败："@ + e),
        Ok(s) => if text::blank(s) {
            Err("LLM 返回了空文本"@)
        } else {
            Ok(s)
        },
    }
}

/// Tells the page about the prompt that the language model answered with.
pub fn improve_finished(key: &str, answer: Result<String, String>) -> (r: Reply)
    ensures
        r@ == improved(
            key@,
            improvement_result(
                match answer {
                    Ok(s) => Ok(s@),
                    Err(e) => Err(e@),
                },
            ),
        ),
{
    match answer {
        Err(e) => improved_reply(key, Err(&search::concat("LLM 调用失败：", &e))),
        Ok(s) => {
            if text::is_blank(&s) {
                improved_reply(key, Err("LLM 返回了空文本"))
            } else {
                improved_reply(key, Ok(&s))
            }
        },
    }
}

// ---------------------------------------------------------------------------
// Laws
// ---------------------------------------------------------------------------

/// A trial has succeeded exactly when speech was recognised, or text polished,
/// and shows what came of it; else it shows what went wrong.
pub proof fn law_trials_show_what_came_of_them(a: AsrTrial, l: LlmTrial)
    ensures
        asr_trial(a).member("success"@) == Some(Json::Bool(a is Heard)),
        a matches AsrTrial::Heard(s) ==> (json::text_member(asr_trial(a), "message"@) matches Some(m)
            && search::occurs_at(m, s@, m.len() - s@.len())),
        a matches AsrTrial::CallFailed(s) ==> (json::text_member(asr_trial(a), "message"@)
            matches Some(m) && search::occurs_at(m, s@, m.len() - s@.len())),
        a matches AsrTrial::NoSession(s) ==> (json::text_member(asr_trial(a), "message"@)
            matches Some(m) && search::occurs_at(m, s@, m.len() - s@.len())),
        a matches AsrTrial::SendFailed(s) ==> (json::text_member(asr_trial(a), "message"@)
            matches Some(m) && search::occurs_at(m, s@, m.len() - s@.len())),
        a matches AsrTrial::FinishFailed(s) ==> (json::text_member(asr_trial(a), "message"@)
            matches Some(m) && search::occurs_at(m, s@, m.len() - s@.len())),
        a matches AsrTrial::Died(s) ==> (json::text_member(asr_trial(a), "message"@) matches Some(m)
            && search::occurs_at(m, s@, m.len() - s@.len())),
        llm_trial(l).member("success"@) == Some(Json::Bool(l is Answered)),
        l matches LlmTrial::Failed(s) ==> (json::text_member(llm_trial(l), "message"@) matches Some(
            m,
        ) && search::occurs_at(m, s@, m.len() - s@.len())),
        l matches LlmTrial::Answered(s) ==> (json::text_member(llm_trial(l), "message"@)
            matches Some(m) && search::has_text(m, beginning(text::trimmed(s@), 60))),
{
    reveal_strlit("success");
    reveal_strlit("message");
    assert("success"@.len() == 7);
    assert("message"@.len() == 7);
    assert("success"@[0] == 's');
    assert("message"@[0] == 'm');
    match a {
        AsrTrial::Heard(s) => lemma_tail("连接成功，ASR 返回："@, s@),
        AsrTrial::CallFailed(s) => lemma_tail("ASR 调用失败："@, s@),
        AsrTrial::TimedOut => {},
        AsrTrial::NoSession(s) => lemma_tail("会话建立失败："@, s@),
        AsrTrial::SendFailed(s) => lemma_tail("发送音频失败："@, s@),
        AsrTrial::FinishFailed(s) => lemma_tail("识别调用失败："@, s@),
        AsrTrial::Died(s) => lemma_tail("测试线程异常："@, s@),
    }
    match l {
        LlmTrial::Answered(s) => lemma_tail(
            "连接成功，LLM 返回："@,
            beginning(text::trimmed(s@), 60),
        ),
        LlmTrial::Failed(s) => lemma_tail("LLM 调用失败："@, s@),
        LlmTrial::TimedOut => {},
    }
}

proof fn lemma_tail(head: Seq<char>, tail: Seq<char>)
    ensures
        search::occurs_at(head + tail, tail, (head + tail).len() - tail.len()),
{
    let m = head + tail;
    assert(m.subrange(m.len() - tail.len(), m.len() as int) =~= tail);
}

/// What is shown of an answer is its beginning, whole where it is short.
pub proof fn law_long_answers_are_cut(s: Seq<char>, n: int)
    requires
        n >= 0,
    ensures
        beginning(s, n).len() <= n,
        search::has_prefix(s, beginning(s, n)),
        s.len() <= n ==> beginning(s, n) == s,
        s.len() > n ==> beginning(s, n).len() == n,
{
    let b = beginning(s, n);
    assert(s.subrange(0, b.len() as int) =~= b);
}

/// A prompt is improved by what the user intends and what the prompt is now,
/// each once and in this order.
pub proof fn law_improvements_carry_intent_and_prompt(current: Seq<char>, intent: Seq<char>)
    ensures
        ({
            let m = improvement(current, intent);
            exists|i: int, j: int|
                #![trigger search::occurs_at(m, intent, i), search::occurs_at(m, current, j)]
                search::occurs_at(m, intent, i) && search::occurs_at(m, current, j) && i
                    + intent.len() <= j && i == IMPROVE_HEAD@.len() && j + current.len()
                    + IMPROVE_TAIL@.len() == m.len()
        }),
{
    let m = improvement(current, intent);
    let i = IMPROVE_HEAD@.len() as int;
    let j = (IMPROVE_HEAD@.len() + intent.len() + IMPROVE_MIDDLE@.len()) as int;
    assert(m.subrange(i, i + intent.len()) =~= intent);
    assert(m.subrange(j, j + current.len()) =~= current);
    assert(search::occurs_at(m, intent, i));
    assert(search::occurs_at(m, current, j));
}

/// A prompt can be improved exactly when there is one and a language model is
/// configured; the page is told the improved prompt as it is, or why there is
/// none, under the key that it asked with.
pub proof fn law_improved_prompts_are_told(
    cfg: Config,
    t: Json,
    key: Seq<char>,
    s: Seq<char>,
    e: Seq<char>,
)
    ensures
        cannot_improve(cfg, t) is None <==> payload::text_or(t, "text"@, ""@).len() > 0
            && cleaner::model_for(cfg) is Some,
        !text::blank(s) ==> improvement_result(Ok(s)) == Ok::<Seq<char>, Seq<char>>(s),
        text::blank(s) ==> improvement_result(Ok(s)) is Err,
        improvement_result(Err(e)) matches Err(x) && search::occurs_at(x, e, x.len() - e.len()),
        json::text_member(improved(key, Ok(s)).body, "key"@) == Some(key),
        json::text_member(improved(key, Ok(s)).body, "optimized"@) == Some(s),
        json::text_member(improved(key, Ok(s)).body, "error"@) is None,
        json::text_member(improved(key, Err(e)).body, "key"@) == Some(key),
        json::text_member(improved(key, Err(e)).body, "error"@) == Some(e),
        json::text_member(improved(key, Err(e)).body, "optimized"@) is None,
{
    reveal_strlit("key");
    reveal_strlit("optimized");
    reveal_strlit("error");
    assert("key"@.len() == 3);
    assert("optimized"@.len() == 9);
    assert("error"@.len() == 5);
    lemma_tail("LLM 调用失败："@, e);
}

} // verus!
