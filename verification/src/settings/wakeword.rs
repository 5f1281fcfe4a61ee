//! Wake words.
use crate::config::file::Config;
use crate::config::sections;
use crate::config::sections::{KeywordEntry, WakewordConfig};
use crate::json;
use crate::json::Json;
use crate::search;
use crate::settings::payload;
use crate::settings::payload::{get_flag_or, get_text_or, get_whole_or, opt_str};
use crate::settings::reply;
use crate::settings::reply::Reply;
use crate::text;
use crate::wakeword::text2token;
use crate::wakeword::text2token::Text2Token;
use crate::wakeword::words;
use crate::wakeword::words::builtin_defaults;
use vstd::prelude::*;

verus! {

/// One wake word of the list.
pub open spec fn listed_word(keyword: Seq<char>, action: Seq<char>) -> Json {
    Json::Object(
        Map::<Seq<char>, Json>::empty().insert("keyword"@, Json::Text(keyword)).insert(
            "action"@,
            Json::Text(action),
        ),
    )
}

fn word_value(keyword: &str, action: &str) -> (r: serde_json::Value)
    ensures
        json::tree(r) == listed_word(keyword@, action@),
{
    let mut m = json::Members::new();
    m.put_text("keyword", keyword);
    m.put_text("action", action);
    m.done()
}

/// What the page is shown of the wake words. `threshold` and `score` are the
/// two numbers of the section as JSON.
pub open spec fn word_page(w: sections::WakewordView, threshold: Json, score: Json) -> Json {
    Json::Object(
        Map::<Seq<char>, Json>::empty().insert(
            "keywords"@,
            Json::List(w.keywords.map_values(|k: (Seq<char>, Seq<char>)| listed_word(k.0, k.1))),
        ).insert(
            "defaults"@,
            Json::List(
                words::builtin_words().map_values(|d: words::Word| listed_word(d.text, d.action)),
            ),
        ).insert("enabled"@, Json::Bool(w.enabled)).insert(
            "has_custom"@,
            Json::Bool(w.keywords.len() > 0),
        ).insert(
            "advanced"@,
            Json::Object(
                Map::<Seq<char>, Json>::empty().insert("model_dir"@, Json::Text(w.model_dir)).insert(
                    "keywords_threshold"@,
                    threshold,
                ).insert("keywords_score"@, score).insert(
                    "silence_timeout_ms"@,
                    json::number(w.silence_timeout_ms),
                ).insert("pre_roll_ms"@, json::number(w.pre_roll_ms)).insert(
                    "ring_buffer_duration_ms"@,
                    json::number(w.ring_buffer_duration_ms),
                ),
            ),
        ),
    )
}

pub fn wakeword_view(
    cfg: &WakewordConfig,
    threshold: serde_json::Value,
    score: serde_json::Value,
) -> (r: Reply)
    ensures
        r@ == (reply::Said {
            event: "drop-typing://wakeword-config"@,
            body: word_page(cfg@, json::tree(threshold), json::tree(score)),
        }),
{
    let ghost want = cfg@.keywords.map_values(
        |k: (Seq<char>, Seq<char>)| listed_word(k.0, k.1),
    );
    let mut keywords: Vec<serde_json::Value> = Vec::new();
    for i in 0..cfg.keywords.len()
        invariant
            want == cfg@.keywords.map_values(
                |k: (Seq<char>, Seq<char>)| listed_word(k.0, k.1),
            ),
            keywords@.len() == i,
            forall|j: int| 0 <= j < i ==> json::tree(#[trigger] keywords@[j]) == want[j],
    {
        keywords.push(word_value(&cfg.keywords[i].keyword, &cfg.keywords[i].action));
    }
    assert(json::trees(keywords@) =~= want);
    let builtin = builtin_defaults();
    let ghost usual = words::builtin_words().map_values(
        |d: words::Word| listed_word(d.text, d.action),
    );
    let mut defaults: Vec<serde_json::Value> = Vec::new();
    for i in 0..builtin.len()
        invariant
            words::words(builtin@) == words::builtin_words(),
            usual == words::builtin_words().map_values(
                |d: words::Word| listed_word(d.text, d.action),
            ),
            defaults@.len() == i,
            forall|j: int| 0 <= j < i ==> json::tree(#[trigger] defaults@[j]) == usual[j],
    {
        assert(words::words(builtin@)[i as int] == builtin@[i as int]@);
        defaults.push(word_value(&builtin[i].text, &builtin[i].action));
    }
    assert(json::trees(defaults@) =~= usual);
    let mut advanced = json::Members::new();
    advanced.put_text("model_dir", &cfg.model_dir);
    advanced.put("keywords_threshold", threshold);
    advanced.put("keywords_score", score);
    advanced.put_number("silence_timeout_ms", cfg.silence_timeout_ms);
    advanced.put_number("pre_roll_ms", cfg.pre_roll_ms);
    advanced.put_number("ring_buffer_duration_ms", cfg.ring_buffer_duration_ms);
    let mut m = json::Members::new();
    m.put("keywords", json::of_list(keywords));
    m.put("defaults", json::of_list(defaults));
    m.put_flag("enabled", cfg.enabled);
    m.put_flag("has_custom", cfg.keywords.len() > 0);
    m.put("advanced", advanced.done());
    reply::reply("drop-typing://wakeword-config", m.done())
}

/// The items of a member that is a list.
pub open spec fn items_of(t: Json, key: Seq<char>) -> Seq<Json> {
    match t.member(key) {
        Some(m) => match m.as_list() {
            Some(l) => l,
            None => Seq::empty(),
        },
        None => Seq::empty(),
    }
}

/// A wake word as the page sends it; one that opens nothing opens the input.
pub open spec fn sent_word(t: Json) -> (Seq<char>, Seq<char>) {
    (payload::text_or(t, "keyword"@, ""@), payload::text_or(t, "action"@, "input"@))
}

fn sent_words(v: &serde_json::Value) -> (r: Vec<KeywordEntry>)
    ensures
        sections::keyword_pairs(r@) == items_of(json::tree(*v), "keywords"@).map_values(
            |t: Json| sent_word(t),
        ),
{
    let ghost want = items_of(json::tree(*v), "keywords"@).map_values(|t: Json| sent_word(t));
    let mut out: Vec<KeywordEntry> = Vec::new();
    if let Some(list) = json::get(v, "keywords") {
        if let Some(n) = json::length(list) {
            for i in 0..n
                invariant
                    json::tree(*v).member("keywords"@) == Some(json::tree(*list)),
                    json::tree(*list).as_list() is Some,
                    n == json::tree(*list).as_list()->0.len(),
                    want == items_of(json::tree(*v), "keywords"@).map_values(
                        |t: Json| sent_word(t),
                    ),
                    out@.len() == i,
                    forall|j: int|
                        0 <= j < i ==> #[trigger] sections::keyword_pairs(out@)[j] == want[j],
            {
                let ghost item = json::tree(*list).as_list()->0[i as int];
                assert(json::tree(*list).item(i as int) == Some(item));
                if let Some(x) = json::at(list, i) {
                    let k = KeywordEntry {
                        keyword: get_text_or(x, "keyword", ""),
                        action: get_text_or(x, "action", "input"),
                    };
                    let ghost before = sections::keyword_pairs(out@);
                    out.push(k);
                    assert(sections::keyword_pairs(out@) =~= before.push((k.keyword@, k.action@)));
                    assert(want[i as int] == sent_word(item));
                } else {
                    assert(false);
                }
            }
        }
    }
    assert(sections::keyword_pairs(out@) =~= want);
    out
}

/// The section as the page sends it: the words always, the rest where it is
/// given. `threshold` and `score` are the bits of the two numbers under
/// "advanced", where they are given.
pub open spec fn sent_section(
    w: sections::WakewordView,
    t: Json,
    threshold: Option<u32>,
    score: Option<u32>,
) -> sections::WakewordView {
    let adv = match t.member("advanced"@) {
        Some(a) => a,
        None => Json::Null,
    };
    sections::WakewordView {
        enabled: payload::flag_or(t, "enabled"@, w.enabled),
        model_dir: match payload::given_text(adv, "model_dir"@) {
            Some(d) => d,
            None => w.model_dir,
        },
        keywords: items_of(t, "keywords"@).map_values(|x: Json| sent_word(x)),
        keywords_threshold: match threshold {
            Some(b) => b,
            None => w.keywords_threshold,
        },
        keywords_score: match score {
            Some(b) => b,
            None => w.keywords_score,
        },
        silence_timeout_ms: payload::whole_or(adv, "silence_timeout_ms"@, w.silence_timeout_ms),
        pre_roll_ms: payload::whole_or(adv, "pre_roll_ms"@, w.pre_roll_ms),
        ring_buffer_duration_ms: payload::whole_or(
            adv,
            "ring_buffer_duration_ms"@,
            w.ring_buffer_duration_ms,
        ),
    }
}

/// Takes over the section.
pub fn apply_wakeword_payload(
    cfg: &mut Config,
    v: &serde_json::Value,
    threshold: Option<u32>,
    score: Option<u32>,
)
    ensures
        final(cfg).wakeword@ == sent_section(old(cfg).wakeword@, json::tree(*v), threshold, score),
        *final(cfg) == (Config { wakeword: final(cfg).wakeword, ..*old(cfg) }),
{
    let none = json::null();
    let adv = match json::get(v, "advanced") {
        Some(a) => a,
        None => &none,
    };
    cfg.wakeword.keywords = sent_words(v);
    cfg.wakeword.enabled = get_flag_or(v, "enabled", cfg.wakeword.enabled);
    if let Some(d) = opt_str(adv, "model_dir") {
        cfg.wakeword.model_dir = d;
    }
    if let Some(b) = threshold {
        cfg.wakeword.keywords_threshold = b;
    }
    if let Some(b) = score {
        cfg.wakeword.keywords_score = b;
    }
    cfg.wakeword.silence_timeout_ms =
        get_whole_or(adv, "silence_timeout_ms", cfg.wakeword.silence_timeout_ms);
    cfg.wakeword.pre_roll_ms = get_whole_or(adv, "pre_roll_ms", cfg.wakeword.pre_roll_ms);
    cfg.wakeword.ring_buffer_duration_ms =
        get_whole_or(adv, "ring_buffer_duration_ms", cfg.wakeword.ring_buffer_duration_ms);
    assert(cfg.wakeword@ =~= sent_section(
        old(cfg).wakeword@,
        json::tree(*v),
        threshold,
        score,
    ));
}

/// Forgets the user's words; the rest of the section stays.
pub fn reset_wakeword(cfg: &mut Config)
    ensures
        final(cfg).wakeword@ == (sections::WakewordView {
            keywords: Seq::empty(),
            ..old(cfg).wakeword@
        }),
        *final(cfg) == (Config { wakeword: final(cfg).wakeword, ..*old(cfg) }),
{
    cfg.wakeword.keywords = Vec::new();
    assert(cfg.wakeword@ =~= (sections::WakewordView {
        keywords: Seq::empty(),
        ..old(cfg).wakeword@
    }));
}

// ---------------------------------------------------------------------------
// Tokens
// ---------------------------------------------------------------------------

/// What words are converted by.
pub enum TokenSource<'a> {
    /// No folder holds the model.
    Missing,
    /// The tables of the model could not be read, and why.
    Broken(String),
    Tables(&'a Text2Token),
}

/// Each word stands for itself in the list.
pub open spec fn word_pairs(t: Json) -> Seq<(Seq<char>, Seq<char>)> {
    items_of(t, "keywords"@).map_values(
        |x: Json|
            (payload::text_or(x, "keyword"@, ""@), payload::text_or(x, "keyword"@, ""@)),
    )
}

pub open spec fn error_body(message: Seq<char>) -> Json {
    Json::Object(Map::<Seq<char>, Json>::empty().insert("error"@, Json::Text(message)))
}

/// The keywords of the words, as the engine takes them, or else why there are none.
pub open spec fn token_page(t: Json, source: TokenSource) -> Json {
    if word_pairs(t).len() == 0 {
        error_body("没有关键词"@)
    } else {
        match source {
            TokenSource::Missing => error_body("模型目录未找到"@),
            TokenSource::Broken(e) => error_body("text2token 加载失败："@ + e@),
            TokenSource::Tables(t2t) => match text2token::all_lines(t2t@, word_pairs(t)) {
                Ok(lines) => Json::Object(
                    Map::<Seq<char>, Json>::empty().insert("lines"@, json::text_list(lines)),
                ),
                Err(e) => error_body("转换失败："@ + e),
            },
        }
    }
}

fn error_value(message: &str) -> (r: serde_json::Value)
    ensures
        json::tree(r) == error_body(message@),
{
    let mut m = json::Members::new();
    m.put_text("error", message);
    m.done()
}

/// Shows what the engine makes of words.
pub fn preview_tokens(v: &serde_json::Value, source: TokenSource) -> (r: Reply)
    ensures
        r@ == (reply::Said {
            event: "drop-typing://wakeword-tokens"@,
            body: token_page(json::tree(*v), source),
        }),
{
    let event = "drop-typing://wakeword-tokens";
    let list = sent_words(v);
    let ghost want = word_pairs(json::tree(*v));
    let mut pairs: Vec<(String, String)> = Vec::new();
    for i in 0..list.len()
        invariant
            sections::keyword_pairs(list@) == items_of(json::tree(*v), "keywords"@).map_values(
                |t: Json| sent_word(t),
            ),
            want == word_pairs(json::tree(*v)),
            pairs@.len() == i,
            forall|j: int| 0 <= j < i ==> #[trigger] text2token::pairs(pairs@)[j] == want[j],
    {
        let ghost items = items_of(json::tree(*v), "keywords"@);
        assert(sections::keyword_pairs(list@).len() == list@.len());
        assert(sections::keyword_pairs(list@)[i as int] == sent_word(items[i as int]));
        assert(sections::keyword_pairs(list@)[i as int].0 == list@[i as int].keyword@);
        assert(want[i as int] == (list@[i as int].keyword@, list@[i as int].keyword@));
        let ghost before = text2token::pairs(pairs@);
        let k = &list[i].keyword;
        pairs.push((k.clone(), k.clone()));
        assert(text2token::pairs(pairs@) =~= before.push((k@, k@)));
    }
    assert(sections::keyword_pairs(list@).len() == list@.len());
    assert(text2token::pairs(pairs@) =~= want);
    if pairs.len() == 0 {
        return reply::reply(event, error_value("没有关键词"));
    }
    let body = match source {
        TokenSource::Missing => error_value("模型目录未找到"),
        TokenSource::Broken(e) => error_value(&search::concat("text2token 加载失败：", &e)),
        TokenSource::Tables(t2t) => match t2t.convert_batch(&pairs) {
            Ok(lines) => {
                let mut m = json::Members::new();
                m.put("lines", json::of_texts(&lines));
                m.done()
            },
            Err(e) => error_value(&search::concat("转换失败：", &e)),
        },
    };
    reply::reply(event, body)
}

// ---------------------------------------------------------------------------
// Laws
// ---------------------------------------------------------------------------

/// Saving what the page was shown of the wake words changes nothing, as long as
/// the folder of the model has no white space around it and is not empty.
pub proof fn law_shown_words_are_read_back(
    w: sections::WakewordView,
    threshold: Json,
    score: Json,
)
    requires
        !text::blank(w.model_dir),
        text::trimmed(w.model_dir) == w.model_dir,
    ensures
        sent_section(w, word_page(w, threshold, score), None, None) == w,
        sent_section(w, word_page(w, threshold, score), Some(w.keywords_threshold), Some(
            w.keywords_score,
        )) == w,
{
    let t = word_page(w, threshold, score);
    reveal_strlit("keywords");
    reveal_strlit("defaults");
    reveal_strlit("enabled");
    reveal_strlit("has_custom");
    reveal_strlit("advanced");
    reveal_strlit("keyword");
    reveal_strlit("action");
    assert("keywords"@.len() == 8);
    assert("defaults"@.len() == 8);
    assert("enabled"@.len() == 7);
    assert("has_custom"@.len() == 10);
    assert("advanced"@.len() == 8);
    assert("keyword"@.len() == 7);
    assert("action"@.len() == 6);
    assert("keywords"@[0] == 'k');
    assert("defaults"@[0] == 'd');
    assert("advanced"@[0] == 'a');
    assert("enabled"@[0] == 'e');
    assert("keyword"@[0] == 'k');
    reveal_strlit("model_dir");
    reveal_strlit("keywords_threshold");
    reveal_strlit("keywords_score");
    reveal_strlit("silence_timeout_ms");
    reveal_strlit("pre_roll_ms");
    reveal_strlit("ring_buffer_duration_ms");
    assert("model_dir"@.len() == 9);
    assert("keywords_threshold"@.len() == 18);
    assert("keywords_score"@.len() == 14);
    assert("silence_timeout_ms"@.len() == 18);
    assert("pre_roll_ms"@.len() == 11);
    assert("ring_buffer_duration_ms"@.len() == 23);
    assert("keywords_threshold"@[0] == 'k');
    assert("silence_timeout_ms"@[0] == 's');
    let items = w.keywords.map_values(|k: (Seq<char>, Seq<char>)| listed_word(k.0, k.1));
    assert(items_of(t, "keywords"@) == items);
    let got = items.map_values(|x: Json| sent_word(x));
    assert forall|i: int| 0 <= i < w.keywords.len() implies got[i] == w.keywords[i] by {
        let k = w.keywords[i];
        assert(items[i] == listed_word(k.0, k.1));
        assert(sent_word(listed_word(k.0, k.1)) == (k.0, k.1));
    }
    assert(got =~= w.keywords);
    let s = sent_section(w, t, None, None);
    assert(s =~= w);
    let r = sent_section(w, t, Some(w.keywords_threshold), Some(w.keywords_score));
    assert(r =~= w);
}

/// What was sent is what the section says then: the words one by one, and every
/// value that was given.
pub proof fn law_sent_words_are_taken(
    w: sections::WakewordView,
    t: Json,
    threshold: Option<u32>,
    score: Option<u32>,
    i: int,
    list: Seq<Json>,
)
    requires
        t.member("keywords"@) == Some(Json::List(list)),
    ensures
        ({
            let s = sent_section(w, t, threshold, score);
            &&& s.keywords.len() == list.len()
            &&& 0 <= i < list.len() ==> s.keywords[i] == (
                payload::text_or(list[i], "keyword"@, ""@),
                payload::text_or(list[i], "action"@, "input"@),
            )
            &&& t.member("enabled"@) == Some(Json::Bool(!w.enabled)) ==> s.enabled == !w.enabled
            &&& threshold matches Some(x) ==> s.keywords_threshold == x
            &&& score matches Some(x) ==> s.keywords_score == x
            &&& threshold is None ==> s.keywords_threshold == w.keywords_threshold
            &&& score is None ==> s.keywords_score == w.keywords_score
        }),
{
}

/// Words are shown as the engine takes them; without words, without a model, or
/// with a word that cannot be spoken, it is said what is wrong.
pub proof fn law_previews_show_lines_or_errors(t: Json, source: TokenSource)
    ensures
        word_pairs(t).len() == 0 ==> token_page(t, source).member("lines"@) is None && token_page(
            t,
            source,
        ).member("error"@) is Some,
        word_pairs(t).len() > 0 ==> match source {
            TokenSource::Tables(t2t) => match text2token::all_lines(t2t@, word_pairs(t)) {
                Ok(lines) => token_page(t, source).member("lines"@) == Some(json::text_list(lines))
                    && token_page(t, source).member("error"@) is None,
                Err(e) => json::text_member(token_page(t, source), "error"@) matches Some(x)
                    && search::occurs_at(x, e, x.len() - e.len()),
            },
            TokenSource::Broken(e) => json::text_member(token_page(t, source), "error"@) matches Some(
                x,
            ) && search::occurs_at(x, e@, x.len() - e@.len()),
            TokenSource::Missing => token_page(t, source).member("error"@) is Some,
        },
{
    reveal_strlit("lines");
    reveal_strlit("error");
    assert("lines"@.len() == 5);
    assert("error"@.len() == 5);
    assert("lines"@[0] == 'l');
    assert("error"@[0] == 'e');
    match source {
        TokenSource::Tables(t2t) => match text2token::all_lines(t2t@, word_pairs(t)) {
            Ok(lines) => {},
            Err(e) => {
                let x = "转换失败："@ + e;
                assert(x.subrange(x.len() - e.len(), x.len() as int) =~= e);
            },
        },
        TokenSource::Broken(e) => {
            let x = "text2token 加载失败："@ + e@;
            assert(x.subrange(x.len() - e@.len(), x.len() as int) =~= e@);
        },
        TokenSource::Missing => {},
    }
}

} // verus!
