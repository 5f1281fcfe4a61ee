//! Key specifications and the bindings of the channels.
use crate::hotkey::key;
use crate::hotkey::key::{parse_key_name, Key};
use crate::text;
use vstd::prelude::*;

verus! {

/// The operating systems with bindings of their own.
#[derive(Debug, Clone, Copy, PartialEq, Eq, Structural)]
pub enum Platform {
    Macos,
    Windows,
}

/// The name of the platform, as the settings page knows it.
pub fn platform_name(platform: Platform) -> (r: &'static str)
    ensures
        r@ == match platform {
            Platform::Macos => "macos"@,
            Platform::Windows => "windows"@,
        },
{
    match platform {
        Platform::Macos => "macos",
        Platform::Windows => "windows",
    }
}

/// A family of modifier keys, left and right together.
#[derive(Debug, Clone, Copy, PartialEq, Eq, Structural)]
pub enum ModFamily {
    Control,
    Meta,
    Alt,
    Shift,
}

impl ModFamily {
    pub open spec fn has(self, key: Key) -> bool {
        match self {
            ModFamily::Control => key == Key::ControlLeft || key == Key::ControlRight,
            ModFamily::Meta => key == Key::MetaLeft || key == Key::MetaRight,
            ModFamily::Alt => key == Key::Alt || key == Key::AltGr,
            ModFamily::Shift => key == Key::ShiftLeft || key == Key::ShiftRight,
        }
    }

    pub open spec fn name(self) -> Seq<char> {
        match self {
            ModFamily::Control => "Control"@,
            ModFamily::Meta => "Meta"@,
            ModFamily::Alt => "Alt"@,
            ModFamily::Shift => "Shift"@,
        }
    }

    /// Whether the key belongs to the family.
    pub fn matches(&self, key: &Key) -> (r: bool)
        ensures
            r == self.has(*key),
    {
        match self {
            ModFamily::Control => matches!(key, Key::ControlLeft | Key::ControlRight),
            ModFamily::Meta => matches!(key, Key::MetaLeft | Key::MetaRight),
            ModFamily::Alt => matches!(key, Key::Alt | Key::AltGr),
            ModFamily::Shift => matches!(key, Key::ShiftLeft | Key::ShiftRight),
        }
    }

    /// The names of the families, for messages.
    pub fn family_names() -> (r: Vec<&'static str>)
        ensures
            r@.len() == 4,
            r@[0]@ == "Control"@,
            r@[1]@ == "Meta"@,
            r@[2]@ == "Alt"@,
            r@[3]@ == "Shift"@,
    {
        vec!["Control", "Meta", "Alt", "Shift"]
    }

    /// The name that configuration files use.
    pub fn config_name(&self) -> (r: &'static str)
        ensures
            r@ == self.name(),
    {
        match self {
            ModFamily::Control => "Control",
            ModFamily::Meta => "Meta",
            ModFamily::Alt => "Alt",
            ModFamily::Shift => "Shift",
        }
    }
}

/// The family of a key; `None` for a key that is no modifier.
pub open spec fn family_of_key(key: Key) -> Option<ModFamily> {
    match key {
        Key::ControlLeft | Key::ControlRight => Some(ModFamily::Control),
        Key::Alt | Key::AltGr => Some(ModFamily::Alt),
        Key::ShiftLeft | Key::ShiftRight => Some(ModFamily::Shift),
        Key::MetaLeft | Key::MetaRight => Some(ModFamily::Meta),
        _ => None,
    }
}

pub fn family_of(key: &Key) -> (r: Option<ModFamily>)
    ensures
        r == family_of_key(*key),
{
    if ModFamily::Control.matches(key) {
        Some(ModFamily::Control)
    } else if ModFamily::Alt.matches(key) {
        Some(ModFamily::Alt)
    } else if ModFamily::Shift.matches(key) {
        Some(ModFamily::Shift)
    } else if ModFamily::Meta.matches(key) {
        Some(ModFamily::Meta)
    } else {
        None
    }
}

pub open spec fn modifier_key(key: Key) -> bool {
    family_of_key(key) is Some
}

pub fn is_modifier_key(key: &Key) -> (r: bool)
    ensures
        r == modifier_key(*key),
{
    family_of(key).is_some()
}

pub open spec fn meta_key(key: Key) -> bool {
    key == Key::MetaLeft || key == Key::MetaRight
}

/// What a binding asks for: any key of a family, or one key.
#[derive(Debug, Clone, Copy, PartialEq, Eq, Structural)]
pub enum KeySpec {
    Family(ModFamily),
    Exact(Key),
}

/// The family that a name in lower case stands for.
pub open spec fn family_named(n: Seq<char>) -> Option<ModFamily> {
    if n == "control"@ || n == "ctrl"@ {
        Some(ModFamily::Control)
    } else if n == "meta"@ || n == "win"@ || n == "command"@ || n == "cmd"@ || n == "super"@ {
        Some(ModFamily::Meta)
    } else if n == "alt"@ || n == "option"@ || n == "opt"@ {
        Some(ModFamily::Alt)
    } else if n == "shift"@ {
        Some(ModFamily::Shift)
    } else {
        None
    }
}

fn find_family(n: &str) -> (r: Option<ModFamily>)
    ensures
        r == family_named(n@),
{
    if text::same(n, "control") || text::same(n, "ctrl") {
        Some(ModFamily::Control)
    } else if text::same(n, "meta") || text::same(n, "win") || text::same(n, "command")
        || text::same(n, "cmd") || text::same(n, "super") {
        Some(ModFamily::Meta)
    } else if text::same(n, "alt") || text::same(n, "option") || text::same(n, "opt") {
        Some(ModFamily::Alt)
    } else if text::same(n, "shift") {
        Some(ModFamily::Shift)
    } else {
        None
    }
}

/// What a name asks for, whatever the case of its ASCII letters. The names of
/// families go before those of keys.
pub open spec fn spec_named(s: Seq<char>) -> Option<KeySpec> {
    let n = text::ascii_lower_text(s);
    match family_named(n) {
        Some(f) => Some(KeySpec::Family(f)),
        None => match key::key_named(n) {
            Some(k) => Some(KeySpec::Exact(k)),
            None => None,
        },
    }
}

impl KeySpec {
    pub open spec fn accepts(self, key: Key) -> bool {
        match self {
            KeySpec::Family(f) => f.has(key),
            KeySpec::Exact(k) => key == k,
        }
    }

    pub open spec fn name(self) -> Seq<char> {
        match self {
            KeySpec::Family(f) => f.name(),
            KeySpec::Exact(k) => k.name(),
        }
    }

    /// Reads a specification from a configuration file.
    pub fn parse(s: &str) -> (r: Result<KeySpec, String>)
        ensures
            match spec_named(s@) {
                Some(k) => r == Ok::<KeySpec, String>(k),
                None => r is Err && r->Err_0@ == key::unknown_key_message(s@),
            },
    {
        let lower = text::to_ascii_lowercase(s);
        match find_family(&lower) {
            Some(f) => Ok(KeySpec::Family(f)),
            None => match parse_key_name(s) {
                Ok(k) => Ok(KeySpec::Exact(k)),
                Err(e) => Err(e),
            },
        }
    }

    /// Whether the key is what the specification asks for.
    pub fn matches(&self, key: &Key) -> (r: bool)
        ensures
            r == self.accepts(*key),
    {
        match self {
            KeySpec::Family(f) => f.matches(key),
            KeySpec::Exact(k) => *key == *k,
        }
    }

    /// The specification as configuration files write it.
    pub fn to_config_name(&self) -> (r: String)
        ensures
            r@ == self.name(),
    {
        match self {
            KeySpec::Family(f) => f.config_name().to_string(),
            KeySpec::Exact(k) => k.display_name(),
        }
    }
}

/// Some specification accepts the key.
pub open spec fn accepted(specs: Seq<KeySpec>, key: Key) -> bool {
    exists|i: int| 0 <= i < specs.len() && (#[trigger] specs[i]).accepts(key)
}

/// Whether some specification accepts the key.
pub fn key_matches_any_spec(key: &Key, specs: &Vec<KeySpec>) -> (r: bool)
    ensures
        r == accepted(specs@, *key),
{
    for i in 0..specs.len()
        invariant
            forall|j: int| 0 <= j < i ==> !(#[trigger] specs@[j]).accepts(*key),
    {
        if specs[i].matches(key) {
            assert(specs@[i as int].accepts(*key));
            return true;
        }
    }
    false
}

/// A side button of the mouse.
#[derive(Debug, Clone, Copy, PartialEq, Eq, Structural)]
pub enum MouseButton {
    Forward,
    Back,
}

/// The channels that side buttons are bound to.
#[derive(Debug, Clone, Copy, PartialEq, Eq, Structural)]
pub struct MouseBindings {
    pub trigger: Option<MouseButton>,
    pub repair: Option<MouseButton>,
}

impl Default for MouseBindings {
    fn default() -> (r: Self)
        ensures
            r == (MouseBindings {
                trigger: Some(MouseButton::Forward),
                repair: Some(MouseButton::Back),
            }),
    {
        MouseBindings { trigger: Some(MouseButton::Forward), repair: Some(MouseButton::Back) }
    }
}

/// What each channel is bound to.
#[derive(Debug)]
pub struct Bindings {
    pub trigger: Vec<KeySpec>,
    pub repair: Vec<KeySpec>,
    pub command: Vec<KeySpec>,
    pub cancel: Vec<KeySpec>,
    pub mouse: MouseBindings,
}

/// What [`Bindings`] stand for.
#[verifier::ext_equal]
pub struct BindingsView {
    pub trigger: Seq<KeySpec>,
    pub repair: Seq<KeySpec>,
    pub command: Seq<KeySpec>,
    pub cancel: Seq<KeySpec>,
    pub mouse: MouseBindings,
}

impl View for Bindings {
    type V = BindingsView;

    open spec fn view(&self) -> BindingsView {
        BindingsView {
            trigger: self.trigger@,
            repair: self.repair@,
            command: self.command@,
            cancel: self.cancel@,
            mouse: self.mouse,
        }
    }
}

impl Clone for Bindings {
    fn clone(&self) -> (r: Self)
        ensures
            r@ == self@,
    {
        let r = Bindings {
            trigger: self.trigger.clone(),
            repair: self.repair.clone(),
            command: self.command.clone(),
            cancel: self.cancel.clone(),
            mouse: self.mouse,
        };
        assert(r@ =~= self@);
        r
    }
}

pub open spec fn side_buttons() -> MouseBindings {
    MouseBindings { trigger: Some(MouseButton::Forward), repair: Some(MouseButton::Back) }
}

/// Three right-hand modifiers, each on its own.
pub open spec fn macos_bindings() -> BindingsView {
    BindingsView {
        trigger: seq![KeySpec::Exact(Key::MetaRight)],
        repair: seq![KeySpec::Exact(Key::AltGr)],
        command: seq![KeySpec::Exact(Key::ShiftRight)],
        cancel: seq![KeySpec::Exact(Key::Escape)],
        mouse: side_buttons(),
    }
}

/// Pairs of modifiers.
pub open spec fn windows_bindings() -> BindingsView {
    BindingsView {
        trigger: seq![KeySpec::Family(ModFamily::Meta), KeySpec::Family(ModFamily::Alt)],
        repair: seq![KeySpec::Family(ModFamily::Control), KeySpec::Family(ModFamily::Alt)],
        command: seq![KeySpec::Family(ModFamily::Meta), KeySpec::Family(ModFamily::Shift)],
        cancel: seq![KeySpec::Exact(Key::Escape)],
        mouse: side_buttons(),
    }
}

pub open spec fn default_bindings(platform: Platform) -> BindingsView {
    match platform {
        Platform::Macos => macos_bindings(),
        Platform::Windows => windows_bindings(),
    }
}

impl Bindings {
    /// The bindings of a platform where the user has chosen none.
    pub fn platform_default(platform: Platform) -> (r: Self)
        ensures
            r@ == default_bindings(platform),
    {
        match platform {
            Platform::Macos => Self::macos_default(),
            Platform::Windows => Self::windows_default(),
        }
    }

    pub fn macos_default() -> (r: Self)
        ensures
            r@ == macos_bindings(),
    {
        let r = Bindings {
            trigger: vec![KeySpec::Exact(Key::MetaRight)],
            repair: vec![KeySpec::Exact(Key::AltGr)],
            command: vec![KeySpec::Exact(Key::ShiftRight)],
            cancel: vec![KeySpec::Exact(Key::Escape)],
            mouse: MouseBindings::default(),
        };
        assert(r@ =~= macos_bindings());
        r
    }

    pub fn windows_default() -> (r: Self)
        ensures
            r@ == windows_bindings(),
    {
        let r = Bindings {
            trigger: vec![KeySpec::Family(ModFamily::Meta), KeySpec::Family(ModFamily::Alt)],
            repair: vec![KeySpec::Family(ModFamily::Control), KeySpec::Family(ModFamily::Alt)],
            command: vec![KeySpec::Family(ModFamily::Meta), KeySpec::Family(ModFamily::Shift)],
            cancel: vec![KeySpec::Exact(Key::Escape)],
            mouse: MouseBindings::default(),
        };
        assert(r@ =~= windows_bindings());
        r
    }
}

/// A family accepts both of its keys and no other; a single key accepts itself.
pub proof fn law_specs_accept_what_they_name(f: ModFamily, k: Key, l: Key)
    ensures
        KeySpec::Family(f).accepts(k) <==> family_of_key(k) == Some(f),
        KeySpec::Exact(k).accepts(l) <==> k == l,
        modifier_key(k) <==> exists|g: ModFamily| #[trigger] KeySpec::Family(g).accepts(k),
        meta_key(k) <==> KeySpec::Family(ModFamily::Meta).accepts(k),
        family_of_key(Key::ControlLeft) == family_of_key(Key::ControlRight),
        family_of_key(Key::ShiftLeft) == family_of_key(Key::ShiftRight),
        family_of_key(Key::MetaLeft) == family_of_key(Key::MetaRight),
        family_of_key(Key::Alt) == family_of_key(Key::AltGr),
{
    if modifier_key(k) {
        assert(KeySpec::Family(family_of_key(k)->0).accepts(k));
    }
}

/// Names may be written in either case.
pub proof fn law_names_ignore_case(a: Seq<char>, b: Seq<char>)
    requires
        text::ascii_lower_text(a) == text::ascii_lower_text(b),
    ensures
        spec_named(a) == spec_named(b),
{
}

/// On either platform every channel has a key, and no two channels that record
/// are bound to the same ones.
pub proof fn law_platforms_bind_every_channel(platform: Platform)
    ensures
        default_bindings(platform).trigger.len() > 0,
        default_bindings(platform).repair.len() > 0,
        default_bindings(platform).command.len() > 0,
        default_bindings(platform).cancel == seq![KeySpec::Exact(Key::Escape)],
        default_bindings(platform).trigger != default_bindings(platform).repair,
        default_bindings(platform).trigger != default_bindings(platform).command,
        default_bindings(platform).repair != default_bindings(platform).command,
        default_bindings(platform).mouse.trigger == Some(MouseButton::Forward),
        default_bindings(platform).mouse.repair == Some(MouseButton::Back),
{
    let d = default_bindings(platform);
    assert(d.trigger[0] != d.repair[0]);
    match platform {
        Platform::Macos => {
            assert(d.trigger[0] != d.command[0]);
        },
        Platform::Windows => {
            assert(d.trigger[1] != d.command[1]);
        },
    }
    assert(d.repair[0] != d.command[0]);
}

} // verus!
