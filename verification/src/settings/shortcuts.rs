//! Shortcuts, and recording one.
use crate::config::file::Config;
use crate::config::hotkeys;
use crate::config::hotkeys::{HotkeyConfig, HotkeyRawConfig, MouseButton, MouseHotkeyConfig};
use crate::hotkey::bindings;
use crate::hotkey::bindings::{platform_name, Bindings, KeySpec, Platform};
use crate::hotkey::capture::CapturedCombo;
use crate::json;
use crate::json::Json;
use crate::search;
use crate::settings::payload;
use crate::settings::payload::{get_flag_or, get_text_or};
use crate::settings::reply;
use crate::settings::reply::Reply;
use crate::text;
use vstd::prelude::*;

verus! {

// ---------------------------------------------------------------------------
// Showing
// ---------------------------------------------------------------------------

/// The names of keys, as configuration files write them.
pub open spec fn key_names(v: Seq<KeySpec>) -> Json {
    json::text_list(v.map_values(|k: KeySpec| k.name()))
}

fn names_value(v: &Vec<KeySpec>) -> (r: serde_json::Value)
    ensures
        json::tree(r) == key_names(v@),
{
    let mut names: Vec<String> = Vec::new();
    let ghost all = v@.map_values(|k: KeySpec| k.name());
    for i in 0..v.len()
        invariant
            all == v@.map_values(|k: KeySpec| k.name()),
            search::texts(names@) == all.take(i as int),
    {
        let n = v[i].to_config_name();
        proof {
            search::lemma_texts_push(names@, n);
        }
        names.push(n);
        assert(all.take(i + 1) == all.take(i as int).push(all[i as int]));
    }
    assert(all.take(all.len() as int) == all);
    json::of_texts(&names)
}

pub open spec fn button_name(b: Option<bindings::MouseButton>) -> Json {
    match b {
        Some(bindings::MouseButton::Forward) => Json::Text("forward"@),
        Some(bindings::MouseButton::Back) => Json::Text("back"@),
        None => Json::Null,
    }
}

fn button_value(b: Option<bindings::MouseButton>) -> (r: serde_json::Value)
    ensures
        json::tree(r) == button_name(b),
{
    match b {
        Some(bindings::MouseButton::Forward) => json::of_text("forward"),
        Some(bindings::MouseButton::Back) => json::of_text("back"),
        None => json::null(),
    }
}

pub open spec fn keyboard_page(b: bindings::BindingsView) -> Json {
    Json::Object(
        Map::<Seq<char>, Json>::empty().insert("trigger"@, key_names(b.trigger)).insert(
            "repair"@,
            key_names(b.repair),
        ).insert("command"@, key_names(b.command)).insert("cancel"@, key_names(b.cancel)),
    )
}

pub open spec fn mouse_page(b: bindings::BindingsView) -> Json {
    Json::Object(
        Map::<Seq<char>, Json>::empty().insert("trigger"@, button_name(b.mouse.trigger)).insert(
            "repair"@,
            button_name(b.mouse.repair),
        ),
    )
}

fn keyboard_value(b: &Bindings) -> (r: serde_json::Value)
    ensures
        json::tree(r) == keyboard_page(b@),
{
    let mut m = json::Members::new();
    m.put("trigger", names_value(&b.trigger));
    m.put("repair", names_value(&b.repair));
    m.put("command", names_value(&b.command));
    m.put("cancel", names_value(&b.cancel));
    m.done()
}

fn mouse_value(b: &Bindings) -> (r: serde_json::Value)
    ensures
        json::tree(r) == mouse_page(b@),
{
    let mut m = json::Members::new();
    m.put("trigger", button_value(b.mouse.trigger));
    m.put("repair", button_value(b.mouse.repair));
    m.done()
}

/// The shortcuts in force, those of the platform, and whether the user has any.
pub open spec fn shortcut_page(cfg: Config, platform: Platform) -> Json {
    let current = cfg.bound_keys(platform);
    let usual = bindings::default_bindings(platform);
    Json::Object(
        Map::<Seq<char>, Json>::empty().insert(
            "platform"@,
            Json::Text(
                match platform {
                    Platform::Macos => "macos"@,
                    Platform::Windows => "windows"@,
                },
            ),
        ).insert("keyboard"@, keyboard_page(current)).insert("mouse"@, mouse_page(current)).insert(
            "defaults"@,
            Json::Object(
                Map::<Seq<char>, Json>::empty().insert("keyboard"@, keyboard_page(usual)).insert(
                    "mouse"@,
                    mouse_page(usual),
                ),
            ),
        ).insert("has_custom"@, Json::Bool(HotkeyConfig::says_something(cfg.hotkey@))),
    )
}

pub fn shortcut_view(cfg: &Config, platform: Platform) -> (r: Reply)
    ensures
        r@ == (reply::Said {
            event: "drop-typing://shortcut-config"@,
            body: shortcut_page(*cfg, platform),
        }),
{
    let current = cfg.hotkey_bindings(platform);
    let usual = Bindings::platform_default(platform);
    let has_custom = cfg.hotkey.keyboard.trigger.is_some() || cfg.hotkey.keyboard.repair.is_some()
        || cfg.hotkey.keyboard.command.is_some() || cfg.hotkey.keyboard.cancel.is_some()
        || cfg.hotkey.mouse.is_some();
    let mut d = json::Members::new();
    d.put("keyboard", keyboard_value(&usual));
    d.put("mouse", mouse_value(&usual));
    let mut m = json::Members::new();
    m.put_text("platform", platform_name(platform));
    m.put("keyboard", keyboard_value(&current));
    m.put("mouse", mouse_value(&current));
    m.put("defaults", d.done());
    m.put_flag("has_custom", has_custom);
    reply::reply("drop-typing://shortcut-config", m.done())
}

// ---------------------------------------------------------------------------
// Saving
// ---------------------------------------------------------------------------

/// The texts of a list that are not empty; what is no text is passed over.
pub open spec fn filled_texts(list: Seq<Json>) -> Seq<Seq<char>>
    decreases list.len(),
{
    if list.len() == 0 {
        Seq::empty()
    } else {
        let before = filled_texts(list.drop_last());
        match list.last().as_text() {
            Some(s) if s.len() > 0 => before.push(s),
            _ => before,
        }
    }
}

/// The keys of a channel, where it is given as a list.
pub open spec fn sent_channel(t: Json, name: Seq<char>) -> Option<Seq<Seq<char>>> {
    match t.member(name) {
        Some(m) => match m.as_list() {
            Some(l) => Some(filled_texts(l)),
            None => None,
        },
        None => None,
    }
}

fn parse_channel(v: &serde_json::Value, name: &str) -> (r: Option<Vec<String>>)
    ensures
        hotkeys::names(r) == sent_channel(json::tree(*v), name@),
{
    match json::get(v, name) {
        Some(list) => match json::length(list) {
            Some(n) => {
                let ghost all = json::tree(*list).as_list()->0;
                let mut out: Vec<String> = Vec::new();
                assert(search::texts(out@) =~= Seq::<Seq<char>>::empty());
                for i in 0..n
                    invariant
                        json::tree(*list).as_list() == Some(all),
                        n == all.len(),
                        search::texts(out@) == filled_texts(all.take(i as int)),
                {
                    assert(all.take(i + 1).drop_last() == all.take(i as int));
                    assert(json::tree(*list).item(i as int) == Some(all[i as int]));
                    if let Some(x) = json::at(list, i) {
                        if let Some(s) = json::text(x) {
                            if !s.as_str().is_empty() {
                                proof {
                                    search::lemma_texts_push(out@, s);
                                }
                                out.push(s);
                            }
                        }
                    }
                }
                assert(all.take(all.len() as int) == all);
                Some(out)
            },
            None => None,
        },
        None => None,
    }
}

pub open spec fn sent_button(t: Json, name: Seq<char>) -> Option<MouseButton> {
    if json::text_member(t, name) == Some("forward"@) {
        Some(MouseButton::Forward)
    } else if json::text_member(t, name) == Some("back"@) {
        Some(MouseButton::Back)
    } else {
        None
    }
}

fn parse_mouse_button(v: &serde_json::Value, name: &str) -> (r: Option<MouseButton>)
    ensures
        r == sent_button(json::tree(*v), name@),
{
    match json::get_text(v, name) {
        Some(s) => if text::same(&s, "forward") {
            Some(MouseButton::Forward)
        } else if text::same(&s, "back") {
            Some(MouseButton::Back)
        } else {
            None
        },
        None => None,
    }
}

/// The section as the page sends it. What it does not send stays; without any
/// button the mouse has no section.
pub open spec fn sent_shortcuts(h: hotkeys::HotkeyView, t: Json) -> hotkeys::HotkeyView {
    hotkeys::HotkeyView {
        keyboard: match t.member("keyboard"@) {
            Some(k) => hotkeys::HotkeyRawView {
                trigger: sent_channel(k, "trigger"@),
                repair: sent_channel(k, "repair"@),
                command: sent_channel(k, "command"@),
                cancel: sent_channel(k, "cancel"@),
            },
            None => h.keyboard,
        },
        mouse: match t.member("mouse"@) {
            Some(m) => {
                let trigger = sent_button(m, "trigger"@);
                let repair = sent_button(m, "repair"@);
                if trigger is Some || repair is Some {
                    Some(MouseHotkeyConfig { trigger, repair })
                } else {
                    None
                }
            },
            None => h.mouse,
        },
    }
}

/// Takes over the section.
pub fn apply_shortcut_payload(cfg: &mut Config, v: &serde_json::Value)
    ensures
        final(cfg).hotkey@ == sent_shortcuts(old(cfg).hotkey@, json::tree(*v)),
        *final(cfg) == (Config { hotkey: final(cfg).hotkey, ..*old(cfg) }),
{
    if let Some(k) = json::get(v, "keyboard") {
        cfg.hotkey.keyboard = HotkeyRawConfig {
            trigger: parse_channel(k, "trigger"),
            repair: parse_channel(k, "repair"),
            command: parse_channel(k, "command"),
            cancel: parse_channel(k, "cancel"),
        };
    }
    if let Some(m) = json::get(v, "mouse") {
        let trigger = parse_mouse_button(m, "trigger");
        let repair = parse_mouse_button(m, "repair");
        if trigger.is_some() || repair.is_some() {
            cfg.hotkey.mouse = Some(MouseHotkeyConfig { trigger, repair });
        } else {
            cfg.hotkey.mouse = None;
        }
    }
    assert(cfg.hotkey@ =~= sent_shortcuts(old(cfg).hotkey@, json::tree(*v)));
}

/// Forgets the user's shortcuts.
pub fn reset_shortcuts(cfg: &mut Config)
    ensures
        !HotkeyConfig::says_something(final(cfg).hotkey@),
        *final(cfg) == (Config { hotkey: final(cfg).hotkey, ..*old(cfg) }),
{
    cfg.hotkey = HotkeyConfig::default();
}

// ---------------------------------------------------------------------------
// Recording
// ---------------------------------------------------------------------------

/// What is to be recorded: one key, or a combination; and whether the left
/// keys are told from the right ones.
#[derive(Debug, Clone, Copy, PartialEq, Eq, Structural)]
pub struct CaptureRequest {
    pub single: bool,
    pub distinguish_sides: bool,
}

pub fn capture_request(v: &serde_json::Value) -> (r: CaptureRequest)
    ensures
        r.single == (payload::text_or(json::tree(*v), "mode"@, "combo"@) == "single"@),
        r.distinguish_sides == payload::flag_or(json::tree(*v), "distinguish_sides"@, false),
{
    CaptureRequest {
        single: text::same(&get_text_or(v, "mode", "combo"), "single"),
        distinguish_sides: get_flag_or(v, "distinguish_sides", false),
    }
}

/// How a recording went.
#[derive(Debug)]
pub enum Captured {
    Combo(CapturedCombo),
    Single(String),
    Failed(String),
}

pub open spec fn captured_page(c: Captured) -> Json {
    let none = Seq::<Seq<char>>::empty();
    let (success, modifiers, key, single, error) = match c {
        Captured::Combo(c) => (true, search::texts(c.modifiers@), c.key@, Json::Null, ""@),
        Captured::Single(k) => (true, none, ""@, Json::Text(k@), ""@),
        Captured::Failed(e) => (false, none, ""@, Json::Null, e@),
    };
    Json::Object(
        Map::<Seq<char>, Json>::empty().insert("success"@, Json::Bool(success)).insert(
            "modifiers"@,
            json::text_list(modifiers),
        ).insert("key"@, Json::Text(key)).insert("single_key"@, single).insert(
            "error"@,
            Json::Text(error),
        ),
    )
}

/// Tells the page what was recorded.
pub fn combo_captured(c: Captured) -> (r: Reply)
    ensures
        r@ == (reply::Said { event: "drop-typing://combo-captured"@, body: captured_page(c) }),
{
    let none: Vec<String> = Vec::new();
    assert(search::texts(none@) =~= Seq::<Seq<char>>::empty());
    let mut m = json::Members::new();
    match c {
        Captured::Combo(combo) => {
            m.put_flag("success", true);
            m.put("modifiers", json::of_texts(&combo.modifiers));
            m.put_text("key", &combo.key);
            m.put("single_key", json::null());
            m.put_text("error", "");
        },
        Captured::Single(k) => {
            m.put_flag("success", true);
            m.put("modifiers", json::of_texts(&none));
            m.put_text("key", "");
            m.put_text("single_key", &k);
            m.put_text("error", "");
        },
        Captured::Failed(e) => {
            m.put_flag("success", false);
            m.put("modifiers", json::of_texts(&none));
            m.put_text("key", "");
            m.put("single_key", json::null());
            m.put_text("error", &e);
        },
    }
    reply::reply("drop-typing://combo-captured", m.done())
}

// ---------------------------------------------------------------------------
// Laws
// ---------------------------------------------------------------------------

/// Without shortcuts of the user's own, those of the platform are in force.
pub proof fn law_reset_brings_the_usual_shortcuts(cfg: Config, platform: Platform)
    requires
        !HotkeyConfig::says_something(cfg.hotkey@),
    ensures
        cfg.bound_keys(platform) == bindings::default_bindings(platform),
{
}

proof fn lemma_filled(names: Seq<Seq<char>>)
    requires
        forall|i: int| 0 <= i < names.len() ==> (#[trigger] names[i]).len() > 0,
    ensures
        filled_texts(names.map_values(|s: Seq<char>| Json::Text(s))) == names,
    decreases names.len(),
{
    let list = names.map_values(|s: Seq<char>| Json::Text(s));
    if names.len() == 0 {
        assert(filled_texts(list) =~= names);
    } else {
        let head = names.drop_last();
        assert forall|i: int| 0 <= i < head.len() implies (#[trigger] head[i]).len() > 0 by {
            assert(head[i] == names[i]);
        }
        lemma_filled(head);
        assert(list.drop_last() =~= head.map_values(|s: Seq<char>| Json::Text(s)));
        assert(names[names.len() - 1].len() > 0);
        assert(filled_texts(list) =~= names);
    }
}

/// A specification that can be written and read back.
pub open spec fn writable(specs: Seq<KeySpec>) -> bool {
    forall|i: int|
        0 <= i < specs.len() ==> (#[trigger] specs[i]).name().len() > 0 && bindings::spec_named(
            specs[i].name(),
        ) == Some(specs[i])
}

proof fn lemma_channel_read_back(specs: Seq<KeySpec>)
    requires
        writable(specs),
    ensures
        ({
            let names = specs.map_values(|k: KeySpec| k.name());
            &&& filled_texts(names.map_values(|s: Seq<char>| Json::Text(s))) == names
            &&& hotkeys::read_names(names) == Ok::<Seq<KeySpec>, Seq<char>>(specs)
        }),
{
    let names = specs.map_values(|k: KeySpec| k.name());
    assert forall|i: int| 0 <= i < names.len() implies (#[trigger] names[i]).len() > 0
        && bindings::spec_named(names[i]) is Some by {
        assert(names[i] == specs[i].name());
    }
    lemma_filled(names);
    hotkeys::law_names_are_read_one_by_one(names, 0);
    let got = hotkeys::read_names(names)->Ok_0;
    assert forall|i: int| 0 <= i < got.len() implies got[i] == specs[i] by {
        assert(Some(got[i]) == bindings::spec_named(names[i]));
        assert(names[i] == specs[i].name());
    }
    assert(got =~= specs);
}

/// Saving the shortcuts that the page was shown leaves them in force: each
/// channel keeps its keys and each side button its channel.
pub proof fn law_shown_shortcuts_are_read_back(
    b: bindings::BindingsView,
    h: hotkeys::HotkeyView,
    t: Json,
    platform: Platform,
)
    requires
        t.member("keyboard"@) == Some(keyboard_page(b)),
        t.member("mouse"@) == Some(mouse_page(b)),
        writable(b.trigger) && b.trigger.len() > 0,
        writable(b.repair) && b.repair.len() > 0,
        writable(b.command) && b.command.len() > 0,
        writable(b.cancel) && b.cancel.len() > 0,
    ensures
        hotkeys::section_bindings(sent_shortcuts(h, t), platform) == Ok::<
            bindings::BindingsView,
            Seq<char>,
        >(b),
{
    lemma_channel_read_back(b.trigger);
    lemma_channel_read_back(b.repair);
    lemma_channel_read_back(b.command);
    lemma_channel_read_back(b.cancel);
    reveal_strlit("trigger");
    reveal_strlit("repair");
    reveal_strlit("command");
    reveal_strlit("cancel");
    reveal_strlit("forward");
    reveal_strlit("back");
    assert("trigger"@.len() == 7);
    assert("repair"@.len() == 6);
    assert("command"@.len() == 7);
    assert("cancel"@.len() == 6);
    assert("forward"@.len() == 7);
    assert("back"@.len() == 4);
    assert("trigger"@[0] == 't');
    assert("command"@[0] == 'c');
    assert("forward"@[0] == 'f');
    assert("repair"@[0] == 'r');
    assert("cancel"@[0] == 'c');
    let k = keyboard_page(b);
    assert(k.member("trigger"@) == Some(key_names(b.trigger)));
    assert(k.member("repair"@) == Some(key_names(b.repair)));
    assert(k.member("command"@) == Some(key_names(b.command)));
    assert(k.member("cancel"@) == Some(key_names(b.cancel)));
    let m = mouse_page(b);
    assert(m.member("trigger"@) == Some(button_name(b.mouse.trigger)));
    assert(m.member("repair"@) == Some(button_name(b.mouse.repair)));
    let got = hotkeys::section_bindings(sent_shortcuts(h, t), platform)->Ok_0;
    assert(got =~= b);
}

/// What is not sent stays.
pub proof fn law_unsent_shortcuts_stay(h: hotkeys::HotkeyView, t: Json)
    ensures
        t.member("keyboard"@) is None ==> sent_shortcuts(h, t).keyboard == h.keyboard,
        t.member("mouse"@) is None ==> sent_shortcuts(h, t).mouse == h.mouse,
{
}

/// The page shows the shortcuts in force beside those of the platform, and says
/// whether the user has any.
pub proof fn law_the_page_shows_the_shortcuts(cfg: Config, platform: Platform)
    ensures
        shortcut_page(cfg, platform).member("keyboard"@) == Some(
            keyboard_page(cfg.bound_keys(platform)),
        ),
        shortcut_page(cfg, platform).member("mouse"@) == Some(mouse_page(cfg.bound_keys(platform))),
        shortcut_page(cfg, platform).member("has_custom"@) == Some(
            Json::Bool(HotkeyConfig::says_something(cfg.hotkey@)),
        ),
        shortcut_page(cfg, platform).member("defaults"@) matches Some(d) && d.member("keyboard"@)
            == Some(keyboard_page(bindings::default_bindings(platform))) && d.member("mouse"@)
            == Some(mouse_page(bindings::default_bindings(platform))),
{
    reveal_strlit("platform");
    reveal_strlit("keyboard");
    reveal_strlit("mouse");
    reveal_strlit("defaults");
    reveal_strlit("has_custom");
    assert("platform"@.len() == 8);
    assert("keyboard"@.len() == 8);
    assert("mouse"@.len() == 5);
    assert("defaults"@.len() == 8);
    assert("has_custom"@.len() == 10);
    assert("platform"@[0] == 'p');
    assert("keyboard"@[0] == 'k');
    assert("defaults"@[0] == 'd');
}

/// The page is told what was recorded, or why nothing was.
pub proof fn law_recordings_are_told(c: CapturedCombo, k: String, e: String)
    ensures
        captured_page(Captured::Combo(c)).member("success"@) == Some(Json::Bool(true)),
        captured_page(Captured::Combo(c)).member("key"@) == Some(Json::Text(c.key@)),
        captured_page(Captured::Combo(c)).member("modifiers"@) == Some(
            json::text_list(search::texts(c.modifiers@)),
        ),
        captured_page(Captured::Single(k)).member("success"@) == Some(Json::Bool(true)),
        captured_page(Captured::Single(k)).member("single_key"@) == Some(Json::Text(k@)),
        captured_page(Captured::Failed(e)).member("success"@) == Some(Json::Bool(false)),
        captured_page(Captured::Failed(e)).member("error"@) == Some(Json::Text(e@)),
{
    reveal_strlit("success");
    reveal_strlit("modifiers");
    reveal_strlit("key");
    reveal_strlit("single_key");
    reveal_strlit("error");
    assert("success"@.len() == 7);
    assert("modifiers"@.len() == 9);
    assert("key"@.len() == 3);
    assert("single_key"@.len() == 10);
    assert("error"@.len() == 5);
}

} // verus!
