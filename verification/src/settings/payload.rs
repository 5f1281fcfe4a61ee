//! What the page sends.
use crate::command::combo;
use crate::config::file::Config;
use crate::config::sections::{AsrConfig, LlmConfig};
use crate::json;
use crate::json::Json;
use crate::text;
use vstd::prelude::*;

verus! {

/// A message that is no JSON counts as an empty one.
pub open spec fn payload_tree(raw: Seq<char>) -> Json {
    match json::parsed(raw) {
        Ok(t) => t,
        Err(_) => Json::Null,
    }
}

/// Reads a message of the page.
pub fn read_payload(raw: &str) -> (r: serde_json::Value)
    ensures
        json::tree(r) == payload_tree(raw@),
{
    match json::parse(raw) {
        Ok(v) => v,
        Err(_) => json::null(),
    }
}

/// The text of a member, without white space around it, where there is any left.
pub open spec fn given_text(t: Json, key: Seq<char>) -> Option<Seq<char>> {
    match json::text_member(t, key) {
        Some(s) if !text::blank(s) => Some(text::trimmed(s)),
        _ => None,
    }
}

pub fn opt_str(v: &serde_json::Value, key: &str) -> (r: Option<String>)
    ensures
        combo::opt_text(r) == given_text(json::tree(*v), key@),
{
    match json::get_text(v, key) {
        Some(s) => if text::is_blank(&s) {
            None
        } else {
            Some(text::trim(&s))
        },
        None => None,
    }
}

/// The text of a member as it is, or else some other text.
pub open spec fn text_or(t: Json, key: Seq<char>, other: Seq<char>) -> Seq<char> {
    match json::text_member(t, key) {
        Some(s) => s,
        None => other,
    }
}

pub fn get_text_or(v: &serde_json::Value, key: &str, other: &str) -> (r: String)
    ensures
        r@ == text_or(json::tree(*v), key@, other@),
{
    match json::get_text(v, key) {
        Some(s) => s,
        None => other.to_string(),
    }
}

/// The flag of a member, or else some other one.
pub open spec fn flag_or(t: Json, key: Seq<char>, other: bool) -> bool {
    match t.member(key) {
        Some(m) => match m.as_flag() {
            Some(b) => b,
            None => other,
        },
        None => other,
    }
}

pub fn get_flag_or(v: &serde_json::Value, key: &str, other: bool) -> (r: bool)
    ensures
        r == flag_or(json::tree(*v), key@, other),
{
    match json::get(v, key) {
        Some(m) => match json::flag(m) {
            Some(b) => b,
            None => other,
        },
        None => other,
    }
}

/// The whole number of a member, or else some other one.
pub open spec fn whole_or(t: Json, key: Seq<char>, other: u64) -> u64 {
    match t.member(key) {
        Some(m) => match m.as_whole() {
            Some(n) => n,
            None => other,
        },
        None => other,
    }
}

pub fn get_whole_or(v: &serde_json::Value, key: &str, other: u64) -> (r: u64)
    ensures
        r == whole_or(json::tree(*v), key@, other),
{
    match json::get(v, key) {
        Some(m) => match json::whole(m) {
            Some(n) => n,
            None => other,
        },
        None => other,
    }
}

/// The section says what the message gives; what it does not give is unset.
pub open spec fn asr_as_given(a: AsrConfig, t: Json) -> bool {
    &&& a.provider@ == match given_text(t, "provider"@) {
        Some(p) => p,
        None => "bailian"@,
    }
    &&& combo::opt_text(a.protocol) == given_text(t, "protocol"@)
    &&& combo::opt_text(a.model) == given_text(t, "model"@)
    &&& combo::opt_text(a.base_url) == given_text(t, "base_url"@)
    &&& combo::opt_text(a.api_key) == given_text(t, "api_key"@)
}

/// Takes over the section for speech recognition.
pub fn apply_asr_payload(cfg: &mut Config, v: &serde_json::Value)
    ensures
        asr_as_given(final(cfg).asr, json::tree(*v)),
        *final(cfg) == (Config { asr: final(cfg).asr, ..*old(cfg) }),
{
    cfg.asr = AsrConfig {
        provider: match opt_str(v, "provider") {
            Some(p) => p,
            None => "bailian".to_string(),
        },
        protocol: opt_str(v, "protocol"),
        model: opt_str(v, "model"),
        base_url: opt_str(v, "base_url"),
        api_key: opt_str(v, "api_key"),
    };
}

/// The section says what the message gives, but the style stays.
pub open spec fn llm_as_given(l: LlmConfig, t: Json, style: Option<String>) -> bool {
    &&& combo::opt_text(l.provider) == given_text(t, "provider"@)
    &&& combo::opt_text(l.protocol) == given_text(t, "protocol"@)
    &&& combo::opt_text(l.model) == given_text(t, "model"@)
    &&& combo::opt_text(l.base_url) == given_text(t, "base_url"@)
    &&& combo::opt_text(l.api_key) == given_text(t, "api_key"@)
    &&& combo::opt_text(l.strength) == given_text(t, "strength"@)
    &&& l.current_style == style
}

/// Takes over the section for polishing.
pub fn apply_llm_payload(cfg: &mut Config, v: &serde_json::Value)
    ensures
        llm_as_given(final(cfg).llm, json::tree(*v), old(cfg).llm.current_style),
        *final(cfg) == (Config { llm: final(cfg).llm, ..*old(cfg) }),
{
    cfg.llm.provider = opt_str(v, "provider");
    cfg.llm.protocol = opt_str(v, "protocol");
    cfg.llm.model = opt_str(v, "model");
    cfg.llm.base_url = opt_str(v, "base_url");
    cfg.llm.api_key = opt_str(v, "api_key");
    cfg.llm.strength = opt_str(v, "strength");
}

// ---------------------------------------------------------------------------
// Laws
// ---------------------------------------------------------------------------

/// What a message gives is taken as it is, text without white space around it;
/// what it does not give is left to what stands in for it.
pub proof fn law_given_values_are_taken(
    t: Json,
    key: Seq<char>,
    s: Seq<char>,
    b: bool,
    n: u64,
    digits: Seq<char>,
    other: Seq<char>,
)
    ensures
        t.member(key) == Some(Json::Text(s)) ==> text_or(t, key, other) == s,
        t.member(key) == Some(Json::Text(s)) && !text::blank(s) ==> given_text(t, key) == Some(
            text::trimmed(s),
        ),
        t.member(key) == Some(Json::Text(s)) && text::blank(s) ==> given_text(t, key) is None,
        t.member(key) == Some(Json::Bool(b)) ==> flag_or(t, key, !b) == b,
        t.member(key) == Some(Json::Number { digits, whole: Some(n) }) ==> whole_or(t, key, 0) == n,
        t.member(key) is None ==> text_or(t, key, other) == other && given_text(t, key) is None
            && flag_or(t, key, b) == b && whole_or(t, key, n) == n,
        t.member(key) == Some(Json::Null) ==> text_or(t, key, other) == other && given_text(t, key)
            is None && flag_or(t, key, b) == b && whole_or(t, key, n) == n,
{
}

/// A section that is sent says in each of its parts what was sent for it, and a
/// part that was not sent is unset; the style is no part of it.
pub proof fn law_sections_say_what_was_sent(a: AsrConfig, l: LlmConfig, t: Json, style: Option<String>)
    ensures
        asr_as_given(a, t) && given_text(t, "provider"@) is Some ==> Some(a.provider@)
            == given_text(t, "provider"@),
        asr_as_given(a, t) ==> combo::opt_text(a.protocol) == given_text(t, "protocol"@)
            && combo::opt_text(a.model) == given_text(t, "model"@) && combo::opt_text(a.base_url)
            == given_text(t, "base_url"@) && combo::opt_text(a.api_key) == given_text(
            t,
            "api_key"@,
        ),
        llm_as_given(l, t, style) ==> combo::opt_text(l.provider) == given_text(t, "provider"@)
            && combo::opt_text(l.protocol) == given_text(t, "protocol"@) && combo::opt_text(l.model)
            == given_text(t, "model"@) && combo::opt_text(l.base_url) == given_text(t, "base_url"@)
            && combo::opt_text(l.api_key) == given_text(t, "api_key"@) && combo::opt_text(
            l.strength,
        ) == given_text(t, "strength"@) && l.current_style == style,
{
}

} // verus!
