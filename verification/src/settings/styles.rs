//! Prompts and styles.
use crate::command::combo;
use crate::config::file::Config;
use crate::config::sections::LlmConfig;
use crate::json;
use crate::json::Json;
use crate::prompts;
use crate::prompts::{
    builtin_style_keys, default_base_prompt, default_style_prompt, is_builtin_style, style_label,
    PromptConfig, StylePrompts,
};
use crate::search;
use crate::settings::reply;
use crate::settings::reply::{refusal_body, Reply};
use crate::text;
use vstd::prelude::*;

verus! {

// ---------------------------------------------------------------------------
// The list of styles
// ---------------------------------------------------------------------------

/// One style of the list.
pub open spec fn listed_style(key: Seq<char>, builtin: bool) -> Json {
    Json::Object(
        Map::<Seq<char>, Json>::empty().insert("key"@, Json::Text(key)).insert(
            "label"@,
            Json::Text(prompts::label(key)),
        ).insert("builtin"@, Json::Bool(builtin)),
    )
}

/// The styles among some keys that are the user's own.
pub open spec fn own_styles(keys: Seq<Seq<char>>) -> Seq<Json>
    decreases keys.len(),
{
    if keys.len() == 0 {
        Seq::empty()
    } else {
        let before = own_styles(keys.drop_last());
        if prompts::builtin_style(keys.last()) {
            before
        } else {
            before.push(listed_style(keys.last(), false))
        }
    }
}

/// The built-in styles come first and are always there.
pub open spec fn style_list(pc: PromptConfig, current: Option<Seq<char>>) -> Json {
    let own = match pc.styles {
        Some(s) => own_styles(prompts::keys_of(s.entries@)),
        None => Seq::empty(),
    };
    Json::Object(
        Map::<Seq<char>, Json>::empty().insert(
            "styles"@,
            Json::List(
                prompts::style_keys().map_values(|k: Seq<char>| listed_style(k, true)) + own,
            ),
        ).insert("current"@, json::opt_text(current)),
    )
}

fn style_value(key: &str, builtin: bool) -> (r: serde_json::Value)
    ensures
        json::tree(r) == listed_style(key@, builtin),
{
    let mut m = json::Members::new();
    m.put_text("key", key);
    m.put_text("label", style_label(key));
    m.put_flag("builtin", builtin);
    m.done()
}

/// Tells the bar and the page which styles there are.
pub fn emit_styles(pc: &PromptConfig, cfg: &Config) -> (r: Reply)
    ensures
        r@ == (reply::Said {
            event: "drop-typing://styles"@,
            body: style_list(*pc, combo::opt_text(cfg.llm.current_style)),
        }),
{
    let keys = builtin_style_keys();
    let ghost first = prompts::style_keys().map_values(|k: Seq<char>| listed_style(k, true));
    let mut list: Vec<serde_json::Value> = Vec::new();
    for i in 0..keys.len()
        invariant
            search::texts(keys@) == prompts::style_keys(),
            first == prompts::style_keys().map_values(|k: Seq<char>| listed_style(k, true)),
            list@.len() == i,
            forall|j: int| 0 <= j < i ==> json::tree(#[trigger] list@[j]) == first[j],
    {
        assert(search::texts(keys@)[i as int] == keys@[i as int]@);
        list.push(style_value(&keys[i], true));
    }
    assert(json::trees(list@) =~= first);
    match &pc.styles {
        Some(s) => {
            let ghost ks = prompts::keys_of(s.entries@);
            assert(first + own_styles(ks.take(0)) =~= first);
            for i in 0..s.entries.len()
                invariant
                    ks == prompts::keys_of(s.entries@),
                    json::trees(list@) == first + own_styles(ks.take(i as int)),
            {
                assert(ks.take(i + 1).drop_last() == ks.take(i as int));
                assert(ks[i as int] == s.entries@[i as int].0@);
                let key = &s.entries[i].0;
                if !is_builtin_style(key) {
                    let ghost before = json::trees(list@);
                    let v = style_value(key, false);
                    list.push(v);
                    assert(json::trees(list@) =~= before.push(json::tree(v)));
                    assert(first + own_styles(ks.take(i + 1)) =~= before.push(json::tree(v)));
                }
            }
            assert(ks.take(ks.len() as int) == ks);
        },
        None => {
            assert(first + Seq::<Json>::empty() =~= first);
        },
    }
    let mut m = json::Members::new();
    m.put("styles", json::of_list(list));
    m.put_opt_text("current", &cfg.llm.current_style);
    reply::reply("drop-typing://styles", m.done())
}

// ---------------------------------------------------------------------------
// Changing styles
// ---------------------------------------------------------------------------

/// The configuration without its style, if that is the one.
pub open spec fn without_style(cfg: Config, key: Seq<char>) -> Config {
    if combo::opt_text(cfg.llm.current_style) == Some(key) {
        Config { llm: LlmConfig { current_style: None, ..cfg.llm }, ..cfg }
    } else {
        cfg
    }
}

/// Chooses no style, if the one that is chosen is gone. Whether that changed
/// anything comes back.
fn clear_style(cfg: &mut Config, key: &str) -> (r: bool)
    ensures
        *final(cfg) == without_style(*old(cfg), key@),
        r == (combo::opt_text(old(cfg).llm.current_style) == Some(key@)),
{
    let chosen = match &cfg.llm.current_style {
        Some(s) => text::same(s, key),
        None => false,
    };
    if chosen {
        cfg.llm.current_style = None;
    }
    chosen
}

/// Chooses the style that the bar sends, or none. The configuration is to be
/// saved and the styles to be told.
pub fn select_style(cfg: &mut Config, v: &serde_json::Value)
    ensures
        combo::opt_text(final(cfg).llm.current_style) == json::text_member(
            json::tree(*v),
            "style"@,
        ),
        *final(cfg) == (Config {
            llm: LlmConfig { current_style: final(cfg).llm.current_style, ..old(cfg).llm },
            ..*old(cfg)
        }),
{
    cfg.llm.current_style = json::get_text(v, "style");
}

/// The prompt that there is without the user's own.
pub open spec fn default_text(key: Seq<char>) -> Seq<char> {
    if key == "base"@ {
        prompts::base_prompt()
    } else {
        match prompts::style_prompt(key) {
            Some(p) => p,
            None => Seq::empty(),
        }
    }
}

/// The base prompt, and the styles' own prompts.
pub open spec fn own_prompts(pc: PromptConfig) -> (Option<Seq<char>>, Option<Map<Seq<char>, Seq<char>>>) {
    (
        combo::opt_text(pc.base),
        match pc.styles {
            Some(s) => Some(s@),
            None => None,
        },
    )
}

/// Forgets the user's prompt under a key, and the choice of a style of that
/// key. Whether the configuration has changed and is to be saved comes back.
pub fn reset_prompt(key: &str, pc: &mut PromptConfig, cfg: &mut Config) -> (r: (bool, Reply))
    requires
        old(pc).wf(),
    ensures
        final(pc).wf(),
        own_prompts(*final(pc)) == (if key@ == "base"@ {
            (None, own_prompts(*old(pc)).1)
        } else {
            (
                own_prompts(*old(pc)).0,
                match own_prompts(*old(pc)).1 {
                    Some(m) => Some(m.remove(key@)),
                    None => None,
                },
            )
        }),
        *final(cfg) == without_style(*old(cfg), key@),
        r.0 == (combo::opt_text(old(cfg).llm.current_style) == Some(key@)),
        r.1@ == (reply::Said {
            event: "drop-typing://prompt-reset"@,
            body: Json::Object(
                Map::<Seq<char>, Json>::empty().insert("key"@, Json::Text(key@)).insert(
                    "default_text"@,
                    Json::Text(default_text(key@)),
                ),
            ),
        }),
{
    let standard = if text::same(key, "base") {
        default_base_prompt()
    } else {
        match default_style_prompt(key) {
            Some(p) => p,
            None => "",
        }
    };
    proof {
        reveal_strlit("");
        assert(""@ =~= Seq::<char>::empty());
    }
    if text::same(key, "base") {
        pc.base = None;
    } else {
        let mut styles: Option<StylePrompts> = None;
        std::mem::swap(&mut styles, &mut pc.styles);
        if let Some(s) = styles {
            let mut rest = s;
            let _ = rest.remove(key);
            pc.styles = Some(rest);
        }
    }
    let cleared = clear_style(cfg, key);
    let mut m = json::Members::new();
    m.put_text("key", key);
    m.put_text("default_text", standard);
    (cleared, reply::reply("drop-typing://prompt-reset", m.done()))
}

/// Why a style of that name cannot be added.
pub open spec fn style_refused(pc: PromptConfig, key: Seq<char>) -> Option<Seq<char>> {
    if text::blank(key) {
        Some("样式名称不能为空"@)
    } else if prompts::builtin_style(key) {
        Some("不能使用与内置样式相同的名称"@)
    } else if pc.styles is Some && pc.styles->0@.contains_key(key) {
        Some("样式名称已存在"@)
    } else {
        None
    }
}

/// Adds a style, without a prompt as yet. Where that is done, the prompts are
/// to be saved and the styles to be told before the answer is.
pub fn add_style(key: &str, pc: &mut PromptConfig) -> (r: (bool, Reply))
    requires
        old(pc).wf(),
    ensures
        final(pc).wf(),
        r.0 == (style_refused(*old(pc), key@) is None),
        r.1@.event == "drop-typing://style-added"@,
        match style_refused(*old(pc), key@) {
            Some(e) => *final(pc) == *old(pc) && r.1@.body == reply::refusal(e),
            None => final(pc).base == old(pc).base && final(pc).styles is Some
                && final(pc).styles->0@ == (match old(pc).styles {
                Some(s) => s@,
                None => Map::empty(),
            }).insert(key@, Seq::empty()) && r.1@.body == Json::Object(
                Map::<Seq<char>, Json>::empty().insert("success"@, Json::Bool(true)).insert(
                    "key"@,
                    Json::Text(key@),
                ),
            ),
        },
{
    let event = "drop-typing://style-added";
    if text::is_blank(key) {
        return (false, reply::reply(event, refusal_body("样式名称不能为空")));
    }
    if is_builtin_style(key) {
        return (false, reply::reply(event, refusal_body("不能使用与内置样式相同的名称")));
    }
    let known = match &pc.styles {
        Some(s) => s.contains_key(key),
        None => false,
    };
    if known {
        return (false, reply::reply(event, refusal_body("样式名称已存在")));
    }
    let mut styles: Option<StylePrompts> = None;
    std::mem::swap(&mut styles, &mut pc.styles);
    let mut all = match styles {
        Some(s) => s,
        None => StylePrompts::new(),
    };
    all.insert(key, "");
    proof {
        reveal_strlit("");
        assert(""@ =~= Seq::<char>::empty());
    }
    pc.styles = Some(all);
    let mut m = json::Members::new();
    m.put_flag("success", true);
    m.put_text("key", key);
    (true, reply::reply(event, m.done()))
}

/// What became of a style that was to be deleted.
pub struct Deletion {
    /// The prompts are to be saved and the styles to be told.
    pub deleted: bool,
    /// The configuration has changed and is to be saved.
    pub config_changed: bool,
    pub reply: Reply,
}

/// Deletes a style, unless it is a built-in one.
pub fn delete_style(key: &str, pc: &mut PromptConfig, cfg: &mut Config) -> (r: Deletion)
    requires
        old(pc).wf(),
    ensures
        final(pc).wf(),
        r.deleted == !prompts::builtin_style(key@),
        r.reply@.event == "drop-typing://style-deleted"@,
        prompts::builtin_style(key@) ==> {
            &&& *final(pc) == *old(pc)
            &&& *final(cfg) == *old(cfg)
            &&& !r.config_changed
            &&& r.reply@.body == Json::Object(
                Map::<Seq<char>, Json>::empty().insert("success"@, Json::Bool(false)).insert(
                    "error"@,
                    Json::Text("不能删除内置样式"@),
                ).insert("key"@, Json::Text(key@)),
            )
        },
        !prompts::builtin_style(key@) ==> {
            let existed = old(pc).styles is Some && old(pc).styles->0@.contains_key(key@);
            &&& own_prompts(*final(pc)) == (
                own_prompts(*old(pc)).0,
                match own_prompts(*old(pc)).1 {
                    Some(m) => Some(m.remove(key@)),
                    None => None,
                },
            )
            &&& *final(cfg) == without_style(*old(cfg), key@)
            &&& r.config_changed == (combo::opt_text(old(cfg).llm.current_style) == Some(key@))
            &&& r.reply@.body == Json::Object(
                Map::<Seq<char>, Json>::empty().insert("success"@, Json::Bool(true)).insert(
                    "key"@,
                    Json::Text(key@),
                ).insert("existed"@, Json::Bool(existed)),
            )
        },
{
    let event = "drop-typing://style-deleted";
    let mut m = json::Members::new();
    if is_builtin_style(key) {
        m.put_flag("success", false);
        m.put_text("error", "不能删除内置样式");
        m.put_text("key", key);
        return Deletion {
            deleted: false,
            config_changed: false,
            reply: reply::reply(event, m.done()),
        };
    }
    let mut styles: Option<StylePrompts> = None;
    std::mem::swap(&mut styles, &mut pc.styles);
    let existed = match styles {
        Some(s) => {
            let mut rest = s;
            let there = rest.remove(key);
            pc.styles = Some(rest);
            there
        },
        None => false,
    };
    let config_changed = clear_style(cfg, key);
    m.put_flag("success", true);
    m.put_text("key", key);
    m.put_flag("existed", existed);
    Deletion { deleted: true, config_changed, reply: reply::reply(event, m.done()) }
}

// ---------------------------------------------------------------------------
// Laws
// ---------------------------------------------------------------------------

/// A style that was added cannot be added again.
pub proof fn law_styles_are_added_once(before: PromptConfig, after: PromptConfig, key: Seq<char>)
    requires
        style_refused(before, key) is None,
        after.styles is Some,
        after.styles->0@ == (match before.styles {
            Some(s) => s@,
            None => Map::empty(),
        }).insert(key, Seq::empty()),
    ensures
        style_refused(after, key) == Some("样式名称已存在"@),
{
}

/// A style that is gone is never left chosen.
pub proof fn law_lost_styles_are_not_chosen(cfg: Config, key: Seq<char>)
    ensures
        combo::opt_text(without_style(cfg, key).llm.current_style) != Some(key),
{
}

/// A style of the user's own can be added under any name that is not blank and
/// not taken, and under no other.
pub proof fn law_free_names_can_be_added(pc: PromptConfig, key: Seq<char>)
    ensures
        style_refused(pc, key) is None <==> !text::blank(key) && prompts::style_prompt(key) is None
            && !(pc.styles is Some && pc.styles->0@.contains_key(key)),
{
    prompts::law_builtin_styles_have_prompts(key);
}

/// Only the style that is gone is no longer chosen; nothing else of the
/// configuration changes.
pub proof fn law_other_styles_stay_chosen(cfg: Config, key: Seq<char>)
    ensures
        combo::opt_text(cfg.llm.current_style) != Some(key) ==> without_style(cfg, key) == cfg,
        combo::opt_text(cfg.llm.current_style) == Some(key) ==> without_style(
            cfg,
            key,
        ).llm.current_style is None,
        without_style(cfg, key).llm.model == cfg.llm.model,
        without_style(cfg, key).llm.api_key == cfg.llm.api_key,
        without_style(cfg, key).asr == cfg.asr,
        without_style(cfg, key).command == cfg.command,
        without_style(cfg, key).hotkey == cfg.hotkey,
        without_style(cfg, key).wakeword == cfg.wakeword,
{
}

/// The list holds every built-in style and every style of the user's own, once
/// each, under its name; the one that is chosen is marked.
pub proof fn law_the_list_holds_every_style(
    pc: PromptConfig,
    current: Option<Seq<char>>,
    i: int,
)
    ensures
        json::text_member(style_list(pc, current), "current"@) == current,
        style_list(pc, current).member("styles"@) matches Some(Json::List(items)) && {
            let n = prompts::style_keys().len() as int;
            &&& items.len() >= n
            &&& 0 <= i < n ==> json::text_member(items[i], "key"@) == Some(prompts::style_keys()[i])
                && items[i].member("builtin"@) == Some(Json::Bool(true))
            &&& pc.styles matches Some(s) ==> items.skip(n) == own_styles(
                prompts::keys_of(s.entries@),
            )
            &&& pc.styles is None ==> items.len() == n
        },
{
    reveal_strlit("styles");
    reveal_strlit("current");
    reveal_strlit("key");
    reveal_strlit("label");
    reveal_strlit("builtin");
    assert("styles"@.len() == 6);
    assert("current"@.len() == 7);
    assert("key"@.len() == 3);
    assert("label"@.len() == 5);
    assert("builtin"@.len() == 7);
    assert("current"@[0] == 'c');
    assert("builtin"@[0] == 'b');
    let first = prompts::style_keys().map_values(|k: Seq<char>| listed_style(k, true));
    let n = prompts::style_keys().len() as int;
    if let Some(s) = pc.styles {
        let own = own_styles(prompts::keys_of(s.entries@));
        assert((first + own).skip(n) =~= own);
    }
    if 0 <= i < n {
        assert(first[i] == listed_style(prompts::style_keys()[i], true));
    }
}

/// A style of the user's own is listed, in its turn; a built-in one that the
/// user has a prompt for is not listed twice.
pub proof fn law_own_styles_are_listed(keys: Seq<Seq<char>>, key: Seq<char>)
    ensures
        prompts::builtin_style(key) ==> own_styles(keys.push(key)) == own_styles(keys),
        !prompts::builtin_style(key) ==> own_styles(keys.push(key)).len() == own_styles(keys).len()
            + 1 && own_styles(keys.push(key)).drop_last() == own_styles(keys) && json::text_member(
            own_styles(keys.push(key)).last(),
            "key"@,
        ) == Some(key) && own_styles(keys.push(key)).last().member("builtin"@) == Some(
            Json::Bool(false),
        ),
{
    assert(keys.push(key).drop_last() =~= keys);
    reveal_strlit("key");
    reveal_strlit("label");
    reveal_strlit("builtin");
    assert("key"@.len() == 3);
    assert("label"@.len() == 5);
    assert("builtin"@.len() == 7);
    if !prompts::builtin_style(key) {
        assert(own_styles(keys.push(key)).drop_last() =~= own_styles(keys));
    }
}

/// Without the user's own, there is the built-in prompt of the key, if any.
pub proof fn law_forgotten_prompts_are_the_built_in_ones(key: Seq<char>)
    ensures
        default_text("base"@) == prompts::base_prompt(),
        key != "base"@ && prompts::style_prompt(key) is Some ==> Some(default_text(key))
            == prompts::style_prompt(key),
        key != "base"@ && prompts::style_prompt(key) is None ==> default_text(key).len() == 0,
{
}

} // verus!
