//! The `[hotkey]` section.
use crate::hotkey::bindings;
use crate::hotkey::bindings::{Bindings, KeySpec, MouseBindings, Platform};
use crate::hotkey::key;
use crate::search;
use crate::text;
use vstd::prelude::*;

verus! {

/// The keys of each channel, by name.
#[derive(Debug, PartialEq)]
pub struct HotkeyRawConfig {
    pub trigger: Option<Vec<String>>,
    pub repair: Option<Vec<String>>,
    pub command: Option<Vec<String>>,
    pub cancel: Option<Vec<String>>,
}

/// The view of an optional list of names.
pub open spec fn names(o: Option<Vec<String>>) -> Option<Seq<Seq<char>>> {
    match o {
        Some(v) => Some(search::texts(v@)),
        None => None,
    }
}

/// What a [`HotkeyRawConfig`] stands for.
#[verifier::ext_equal]
pub struct HotkeyRawView {
    pub trigger: Option<Seq<Seq<char>>>,
    pub repair: Option<Seq<Seq<char>>>,
    pub command: Option<Seq<Seq<char>>>,
    pub cancel: Option<Seq<Seq<char>>>,
}

impl View for HotkeyRawConfig {
    type V = HotkeyRawView;

    open spec fn view(&self) -> HotkeyRawView {
        HotkeyRawView {
            trigger: names(self.trigger),
            repair: names(self.repair),
            command: names(self.command),
            cancel: names(self.cancel),
        }
    }
}

impl Default for HotkeyRawConfig {
    fn default() -> (r: Self)
        ensures
            r@ == (HotkeyRawView { trigger: None, repair: None, command: None, cancel: None }),
    {
        HotkeyRawConfig { trigger: None, repair: None, command: None, cancel: None }
    }
}

/// What the names ask for; else the message about the first that asks for nothing.
pub open spec fn read_names(ns: Seq<Seq<char>>) -> Result<Seq<KeySpec>, Seq<char>>
    decreases ns.len(),
{
    if ns.len() == 0 {
        Ok(Seq::empty())
    } else {
        match read_names(ns.drop_last()) {
            Ok(before) => match bindings::spec_named(ns.last()) {
                Some(k) => Ok(before.push(k)),
                None => Err(key::unknown_key_message(ns.last())),
            },
            Err(e) => Err(e),
        }
    }
}

/// A channel without names has the keys of the platform.
pub open spec fn channel(
    raw: Option<Seq<Seq<char>>>,
    defaults: Seq<KeySpec>,
) -> Result<Seq<KeySpec>, Seq<char>> {
    match raw {
        Some(ns) if ns.len() > 0 => read_names(ns),
        _ => Ok(defaults),
    }
}

/// The bindings that the names give on a platform. Of several bad names, the
/// message is about the first, in the order of the channels.
pub open spec fn keyboard_bindings(
    raw: HotkeyRawView,
    platform: Platform,
) -> Result<bindings::BindingsView, Seq<char>> {
    let d = bindings::default_bindings(platform);
    match channel(raw.trigger, d.trigger) {
        Err(e) => Err(e),
        Ok(trigger) => match channel(raw.repair, d.repair) {
            Err(e) => Err(e),
            Ok(repair) => match channel(raw.command, d.command) {
                Err(e) => Err(e),
                Ok(command) => match channel(raw.cancel, d.cancel) {
                    Err(e) => Err(e),
                    Ok(cancel) => Ok(
                        bindings::BindingsView {
                            trigger,
                            repair,
                            command,
                            cancel,
                            mouse: bindings::side_buttons(),
                        },
                    ),
                },
            },
        },
    }
}

fn parse_or_default(raw: &Option<Vec<String>>, defaults: &Vec<KeySpec>) -> (r: Result<
    Vec<KeySpec>,
    String,
>)
    ensures
        match channel(names(*raw), defaults@) {
            Ok(specs) => r is Ok && r->Ok_0@ == specs,
            Err(e) => r is Err && r->Err_0@ == e,
        },
{
    match raw {
        Some(keys) => {
            let ghost ns = search::texts(keys@);
            if keys.len() == 0 {
                return Ok(defaults.clone());
            }
            let mut specs: Vec<KeySpec> = Vec::new();
            let mut i: usize = 0;
            while i < keys.len()
                invariant
                    i <= keys@.len(),
                    ns == search::texts(keys@),
                    names(*raw) == Some(ns),
                    ns.len() > 0,
                    read_names(ns.take(i as int)) == Ok::<Seq<KeySpec>, Seq<char>>(specs@),
                decreases keys@.len() - i,
            {
                assert(ns.take(i + 1).drop_last() == ns.take(i as int));
                assert(ns[i as int] == keys@[i as int]@);
                match KeySpec::parse(&keys[i]) {
                    Ok(k) => {
                        specs.push(k);
                    },
                    Err(e) => {
                        proof {
                            lemma_error_stays(ns, i + 1, e@);
                        }
                        return Err(e);
                    },
                }
                i += 1;
            }
            assert(ns.take(ns.len() as int) == ns);
            Ok(specs)
        },
        None => Ok(defaults.clone()),
    }
}

proof fn lemma_error_stays(ns: Seq<Seq<char>>, i: int, e: Seq<char>)
    requires
        0 <= i <= ns.len(),
        read_names(ns.take(i)) == Err::<Seq<KeySpec>, Seq<char>>(e),
    ensures
        read_names(ns) == Err::<Seq<KeySpec>, Seq<char>>(e),
    decreases ns.len() - i,
{
    if i == ns.len() {
        assert(ns.take(i) == ns);
    } else {
        assert(ns.take(i + 1).drop_last() == ns.take(i));
        lemma_error_stays(ns, i + 1, e);
    }
}

impl HotkeyRawConfig {
    /// The bindings of the keyboard, those of the platform where the user has
    /// named no key.
    pub fn into_keyboard_bindings(self, platform: Platform) -> (r: Result<Bindings, String>)
        ensures
            match keyboard_bindings(self@, platform) {
                Ok(b) => r is Ok && r->Ok_0@ == b,
                Err(e) => r is Err && r->Err_0@ == e,
            },
    {
        let defaults = Bindings::platform_default(platform);
        let trigger = match parse_or_default(&self.trigger, &defaults.trigger) {
            Ok(t) => t,
            Err(e) => return Err(e),
        };
        let repair = match parse_or_default(&self.repair, &defaults.repair) {
            Ok(t) => t,
            Err(e) => return Err(e),
        };
        let command = match parse_or_default(&self.command, &defaults.command) {
            Ok(t) => t,
            Err(e) => return Err(e),
        };
        let cancel = match parse_or_default(&self.cancel, &defaults.cancel) {
            Ok(t) => t,
            Err(e) => return Err(e),
        };
        Ok(Bindings { trigger, repair, command, cancel, mouse: MouseBindings::default() })
    }
}

/// A side button, as configuration files name it.
#[derive(Debug, Clone, Copy, PartialEq, Eq, Structural)]
pub enum MouseButton {
    Forward,
    Back,
}

pub open spec fn button(b: MouseButton) -> bindings::MouseButton {
    match b {
        MouseButton::Forward => bindings::MouseButton::Forward,
        MouseButton::Back => bindings::MouseButton::Back,
    }
}

pub open spec fn opt_button(b: Option<MouseButton>) -> Option<bindings::MouseButton> {
    match b {
        Some(x) => Some(button(x)),
        None => None,
    }
}

fn to_button(b: Option<MouseButton>) -> (r: Option<bindings::MouseButton>)
    ensures
        r == opt_button(b),
{
    match b {
        Some(MouseButton::Forward) => Some(bindings::MouseButton::Forward),
        Some(MouseButton::Back) => Some(bindings::MouseButton::Back),
        None => None,
    }
}

/// The `[hotkey.mouse]` section.
#[derive(Debug, Clone, Copy, PartialEq, Eq, Structural)]
pub struct MouseHotkeyConfig {
    pub trigger: Option<MouseButton>,
    pub repair: Option<MouseButton>,
}

impl MouseHotkeyConfig {
    pub open spec fn bindings(self) -> MouseBindings {
        MouseBindings { trigger: opt_button(self.trigger), repair: opt_button(self.repair) }
    }

    pub fn into_mouse_bindings(self) -> (r: Result<MouseBindings, String>)
        ensures
            r == Ok::<MouseBindings, String>(self.bindings()),
    {
        Ok(MouseBindings { trigger: to_button(self.trigger), repair: to_button(self.repair) })
    }
}

impl Default for MouseHotkeyConfig {
    fn default() -> (r: Self)
        ensures
            r == (MouseHotkeyConfig { trigger: None, repair: None }),
    {
        MouseHotkeyConfig { trigger: None, repair: None }
    }
}

/// The `[hotkey]` section.
#[derive(Debug, PartialEq)]
pub struct HotkeyConfig {
    pub keyboard: HotkeyRawConfig,
    pub mouse: Option<MouseHotkeyConfig>,
}

/// What a [`HotkeyConfig`] stands for.
#[verifier::ext_equal]
pub struct HotkeyView {
    pub keyboard: HotkeyRawView,
    pub mouse: Option<MouseHotkeyConfig>,
}

impl View for HotkeyConfig {
    type V = HotkeyView;

    open spec fn view(&self) -> HotkeyView {
        HotkeyView { keyboard: self.keyboard@, mouse: self.mouse }
    }
}

impl Default for HotkeyConfig {
    fn default() -> (r: Self)
        ensures
            r@ == (HotkeyView {
                keyboard: HotkeyRawView {
                    trigger: None,
                    repair: None,
                    command: None,
                    cancel: None,
                },
                mouse: None,
            }),
    {
        HotkeyConfig { keyboard: HotkeyRawConfig::default(), mouse: None }
    }
}

/// The bindings that the section gives. Without a mouse section of its own the
/// side buttons are not bound.
pub open spec fn section_bindings(h: HotkeyView, platform: Platform) -> Result<
    bindings::BindingsView,
    Seq<char>,
> {
    match keyboard_bindings(h.keyboard, platform) {
        Err(e) => Err(e),
        Ok(b) => Ok(
            bindings::BindingsView {
                mouse: match h.mouse {
                    Some(m) => m.bindings(),
                    None => MouseBindings { trigger: None, repair: None },
                },
                ..b
            },
        ),
    }
}

impl HotkeyConfig {
    pub fn into_bindings(self, platform: Platform) -> (r: Result<Bindings, String>)
        ensures
            match section_bindings(self@, platform) {
                Ok(b) => r is Ok && r->Ok_0@ == b,
                Err(e) => r is Err && r->Err_0@ == e,
            },
    {
        let keyboard = match self.keyboard.into_keyboard_bindings(platform) {
            Ok(k) => k,
            Err(e) => return Err(e),
        };
        let mouse = match self.mouse {
            Some(m) => match m.into_mouse_bindings() {
                Ok(b) => b,
                Err(e) => return Err(e),
            },
            None => MouseBindings { trigger: None, repair: None },
        };
        Ok(
            Bindings {
                trigger: keyboard.trigger,
                repair: keyboard.repair,
                command: keyboard.command,
                cancel: keyboard.cancel,
                mouse,
            },
        )
    }

    /// The section says something.
    pub open spec fn says_something(h: HotkeyView) -> bool {
        h.keyboard.trigger is Some || h.keyboard.repair is Some || h.keyboard.command is Some
            || h.keyboard.cancel is Some || h.mouse is Some
    }
}

// ---------------------------------------------------------------------------
// Copies and equality
// ---------------------------------------------------------------------------

pub fn clone_texts(v: &Vec<String>) -> (r: Vec<String>)
    ensures
        search::texts(r@) == search::texts(v@),
{
    let mut r: Vec<String> = Vec::new();
    let ghost all = search::texts(v@);
    for i in 0..v.len()
        invariant
            all == search::texts(v@),
            search::texts(r@) == all.take(i as int),
    {
        let s = v[i].clone();
        proof {
            search::lemma_texts_push(r@, s);
            assert(all[i as int] == v@[i as int]@);
            assert(all.take(i + 1) == all.take(i as int).push(all[i as int]));
        }
        r.push(s);
    }
    assert(all.take(all.len() as int) == all);
    r
}

fn clone_names(o: &Option<Vec<String>>) -> (r: Option<Vec<String>>)
    ensures
        names(r) == names(*o),
{
    match o {
        Some(v) => Some(clone_texts(v)),
        None => None,
    }
}

impl Clone for HotkeyConfig {
    fn clone(&self) -> (r: Self)
        ensures
            r@ == self@,
    {
        HotkeyConfig {
            keyboard: HotkeyRawConfig {
                trigger: clone_names(&self.keyboard.trigger),
                repair: clone_names(&self.keyboard.repair),
                command: clone_names(&self.keyboard.command),
                cancel: clone_names(&self.keyboard.cancel),
            },
            mouse: self.mouse,
        }
    }
}

/// Whether two lists of texts are equal.
pub fn same_texts(a: &Vec<String>, b: &Vec<String>) -> (r: bool)
    ensures
        r == (search::texts(a@) == search::texts(b@)),
{
    if a.len() != b.len() {
        assert(search::texts(a@).len() != search::texts(b@).len());
        return false;
    }
    for i in 0..a.len()
        invariant
            a@.len() == b@.len(),
            forall|j: int| 0 <= j < i ==> search::texts(a@)[j] == search::texts(b@)[j],
    {
        assert(search::texts(a@)[i as int] == a@[i as int]@);
        assert(search::texts(b@)[i as int] == b@[i as int]@);
        if !text::same(&a[i], &b[i]) {
            return false;
        }
    }
    assert(search::texts(a@) =~= search::texts(b@));
    true
}

fn same_names(a: &Option<Vec<String>>, b: &Option<Vec<String>>) -> (r: bool)
    ensures
        r == (names(*a) == names(*b)),
{
    match (a, b) {
        (Some(x), Some(y)) => same_texts(x, y),
        (None, None) => true,
        _ => false,
    }
}

impl HotkeyConfig {
    /// Whether the two sections say the same.
    pub fn same(&self, other: &HotkeyConfig) -> (r: bool)
        ensures
            r == (self@ == other@),
    {
        let mouse = match (self.mouse, other.mouse) {
            (Some(x), Some(y)) => x == y,
            (None, None) => true,
            _ => false,
        };
        mouse && same_names(&self.keyboard.trigger, &other.keyboard.trigger) && same_names(
            &self.keyboard.repair,
            &other.keyboard.repair,
        ) && same_names(&self.keyboard.command, &other.keyboard.command) && same_names(
            &self.keyboard.cancel,
            &other.keyboard.cancel,
        )
    }
}

// ---------------------------------------------------------------------------
// Laws
// ---------------------------------------------------------------------------

/// Names that all ask for something are read one by one, in order; of others,
/// the first that asks for nothing is named in the message.
pub proof fn law_names_are_read_one_by_one(ns: Seq<Seq<char>>, i: int)
    ensures
        (forall|j: int| 0 <= j < ns.len() ==> bindings::spec_named(#[trigger] ns[j]) is Some) ==> (
        read_names(ns) matches Ok(specs) && specs.len() == ns.len() && forall|j: int|
            0 <= j < ns.len() ==> Some(#[trigger] specs[j]) == bindings::spec_named(ns[j])),
        0 <= i < ns.len() && bindings::spec_named(ns[i]) is None && (forall|j: int|
            0 <= j < i ==> bindings::spec_named(#[trigger] ns[j]) is Some) ==> (read_names(ns)
            matches Err(e) && search::has_text(e, ns[i])),
    decreases ns.len(),
{
    if ns.len() > 0 {
        let before = ns.drop_last();
        law_names_are_read_one_by_one(before, i);
        if forall|j: int| 0 <= j < ns.len() ==> bindings::spec_named(#[trigger] ns[j]) is Some {
            assert forall|j: int| 0 <= j < before.len() implies bindings::spec_named(
                #[trigger] before[j],
            ) is Some by {
                assert(before[j] == ns[j]);
            }
            assert(bindings::spec_named(ns[ns.len() - 1]) is Some);
            let specs = read_names(ns)->Ok_0;
            let old_specs = read_names(before)->Ok_0;
            assert forall|j: int| 0 <= j < ns.len() implies Some(#[trigger] specs[j])
                == bindings::spec_named(ns[j]) by {
                if j < before.len() {
                    assert(specs[j] == old_specs[j]);
                    assert(before[j] == ns[j]);
                }
            }
        }
        if 0 <= i < ns.len() && bindings::spec_named(ns[i]) is None && (forall|j: int|
            0 <= j < i ==> bindings::spec_named(#[trigger] ns[j]) is Some) {
            assert forall|j: int| 0 <= j < before.len() && j < i implies bindings::spec_named(
                #[trigger] before[j],
            ) is Some by {
                assert(before[j] == ns[j]);
            }
            if i < before.len() {
                assert(before[i] == ns[i]);
            } else {
                let e = key::unknown_key_message(ns[i]);
                let head = "无法识别的按键名 '"@;
                assert(e.subrange(head.len() as int, (head.len() + ns[i].len()) as int) =~= ns[i]);
                assert(search::occurs_at(e, ns[i], head.len() as int));
            }
        }
    }
}

/// Keys are named for a channel.
pub open spec fn keys_are_named(names: Option<Seq<Seq<char>>>) -> bool {
    names is Some && names->0.len() > 0
}

/// Each channel has the keys that were named for it, and those of the platform
/// where none were; what is named for one channel has no bearing on another. The
/// side buttons are bound as the section for the mouse has it, and not at all
/// without one.
pub proof fn law_channels_have_their_own_keys(h: HotkeyView, platform: Platform)
    ensures
        section_bindings(h, platform) matches Ok(b) ==> {
            &&& keys_are_named(h.keyboard.trigger) ==> read_names(h.keyboard.trigger->0) == Ok::<
                Seq<KeySpec>,
                Seq<char>,
            >(b.trigger)
            &&& !keys_are_named(h.keyboard.trigger) ==> b.trigger == bindings::default_bindings(
                platform,
            ).trigger
            &&& keys_are_named(h.keyboard.repair) ==> read_names(h.keyboard.repair->0) == Ok::<
                Seq<KeySpec>,
                Seq<char>,
            >(b.repair)
            &&& !keys_are_named(h.keyboard.repair) ==> b.repair == bindings::default_bindings(
                platform,
            ).repair
            &&& keys_are_named(h.keyboard.command) ==> read_names(h.keyboard.command->0) == Ok::<
                Seq<KeySpec>,
                Seq<char>,
            >(b.command)
            &&& !keys_are_named(h.keyboard.command) ==> b.command == bindings::default_bindings(
                platform,
            ).command
            &&& keys_are_named(h.keyboard.cancel) ==> read_names(h.keyboard.cancel->0) == Ok::<
                Seq<KeySpec>,
                Seq<char>,
            >(b.cancel)
            &&& !keys_are_named(h.keyboard.cancel) ==> b.cancel == bindings::default_bindings(
                platform,
            ).cancel
            &&& h.mouse is None ==> b.mouse.trigger is None && b.mouse.repair is None
            &&& h.mouse matches Some(m) ==> {
                &&& m.trigger == Some(MouseButton::Forward) <==> b.mouse.trigger == Some(
                    bindings::MouseButton::Forward,
                )
                &&& m.trigger == Some(MouseButton::Back) <==> b.mouse.trigger == Some(
                    bindings::MouseButton::Back,
                )
                &&& m.repair == Some(MouseButton::Forward) <==> b.mouse.repair == Some(
                    bindings::MouseButton::Forward,
                )
                &&& m.repair == Some(MouseButton::Back) <==> b.mouse.repair == Some(
                    bindings::MouseButton::Back,
                )
            }
        },
        section_bindings(h, platform) is Err <==> {
            ||| keys_are_named(h.keyboard.trigger) && read_names(h.keyboard.trigger->0) is Err
            ||| keys_are_named(h.keyboard.repair) && read_names(h.keyboard.repair->0) is Err
            ||| keys_are_named(h.keyboard.command) && read_names(h.keyboard.command->0) is Err
            ||| keys_are_named(h.keyboard.cancel) && read_names(h.keyboard.cancel->0) is Err
        },
{
}

} // verus!
