//! The Windows listener: each channel is a set of modifier keys that are held
//! together.
//!
//! The Windows key opens the start menu when it is pressed and released on its
//! own, so that its events are kept from the system when, and only when, the
//! key takes part in a combination of a channel.
use crate::hotkey::bindings;
use crate::hotkey::bindings::{
    is_modifier_key, key_matches_any_spec, Bindings, KeySpec, ModFamily, MouseBindings,
};
use crate::hotkey::events;
use crate::hotkey::events::{side_button, HotkeyEvent, RawButton, RawEvent};
use crate::hotkey::key::Key;
use vstd::prelude::*;

verus! {

/// Two presses of the left button within this time are a double click.
pub const MOUSE_DOUBLE_CLICK_MS: u64 = 500;

/// A set of keys.
#[derive(Debug)]
pub struct KeySet {
    pub keys: Vec<Key>,
}

impl View for KeySet {
    type V = Set<Key>;

    open spec fn view(&self) -> Set<Key> {
        Set::new(|k: Key| self.keys@.contains(k))
    }
}

impl KeySet {
    pub fn new() -> (r: Self)
        ensures
            r@ == Set::<Key>::empty(),
    {
        let r = KeySet { keys: Vec::new() };
        assert(r@ =~= Set::<Key>::empty());
        r
    }

    pub fn contains(&self, key: &Key) -> (r: bool)
        ensures
            r == self@.contains(*key),
    {
        for i in 0..self.keys.len()
            invariant
                forall|j: int| 0 <= j < i ==> self.keys@[j] != *key,
        {
            if self.keys[i] == *key {
                return true;
            }
        }
        false
    }

    pub fn insert(&mut self, key: Key)
        ensures
            final(self)@ == old(self)@.insert(key),
    {
        if !self.contains(&key) {
            self.keys.push(key);
            assert forall|k: Key| self@.contains(k) <==> old(self)@.insert(key).contains(k) by {
                if old(self).keys@.contains(k) {
                    let i = choose|i: int| 0 <= i < old(self).keys@.len() && old(self).keys@[i] == k;
                    assert(self.keys@[i] == k);
                }
                if k == key {
                    assert(self.keys@[self.keys@.len() - 1] == k);
                }
            }
        }
        assert(self@ =~= old(self)@.insert(key));
    }

    pub fn remove(&mut self, key: &Key)
        ensures
            final(self)@ == old(self)@.remove(*key),
    {
        let mut kept: Vec<Key> = Vec::new();
        for i in 0..self.keys.len()
            invariant
                forall|k: Key| #[trigger]
                    kept@.contains(k) <==> k != *key && self.keys@.take(i as int).contains(k),
        {
            let ghost before = kept@;
            if self.keys[i] != *key {
                kept.push(self.keys[i]);
            }
            assert forall|k: Key| #[trigger] kept@.contains(k) <==> k != *key && self.keys@.take(
                i + 1,
            ).contains(k) by {
                let head = self.keys@.take(i as int);
                let more = self.keys@.take(i + 1);
                assert(more == head.push(self.keys@[i as int]));
                lemma_push_contains(head, self.keys@[i as int], k);
                lemma_push_contains(before, self.keys@[i as int], k);
                assert(before.contains(k) <==> k != *key && head.contains(k));
            }
        }
        assert(self.keys@.take(self.keys@.len() as int) == self.keys@);
        self.keys = kept;
        assert(self@ =~= old(self)@.remove(*key));
    }
}

proof fn lemma_push_contains(s: Seq<Key>, a: Key, k: Key)
    ensures
        s.push(a).contains(k) <==> s.contains(k) || k == a,
{
    if s.contains(k) {
        let i = choose|i: int| 0 <= i < s.len() && s[i] == k;
        assert(s.push(a)[i] == k);
    }
    assert(s.push(a)[s.len() as int] == a);
    if s.push(a).contains(k) && k != a {
        let i = choose|i: int| 0 <= i < s.push(a).len() && s.push(a)[i] == k;
        assert(s[i] == k);
    }
}

// ---------------------------------------------------------------------------
// Combinations
// ---------------------------------------------------------------------------

/// A channel, and the keys that are held for it.
#[derive(Debug)]
pub struct ComboDef {
    pub down: HotkeyEvent,
    pub up: HotkeyEvent,
    pub specs: Vec<KeySpec>,
}

/// What a [`ComboDef`] stands for.
#[verifier::ext_equal]
pub struct Combo {
    pub down: HotkeyEvent,
    pub up: HotkeyEvent,
    pub specs: Seq<KeySpec>,
}

impl View for ComboDef {
    type V = Combo;

    open spec fn view(&self) -> Combo {
        Combo { down: self.down, up: self.up, specs: self.specs@ }
    }
}

pub open spec fn combos_of(v: Seq<ComboDef>) -> Seq<Combo> {
    v.map_values(|c: ComboDef| c@)
}

/// The specification is one for modifier keys.
pub open spec fn for_modifiers(s: KeySpec) -> bool {
    match s {
        KeySpec::Family(_) => true,
        KeySpec::Exact(k) => bindings::modifier_key(k),
    }
}

/// The specifications that a combination keeps: those for modifier keys.
pub open spec fn kept_specs(specs: Seq<KeySpec>) -> Seq<KeySpec> {
    specs.filter(|s: KeySpec| for_modifiers(s))
}

pub fn combo_from_specs(specs: &Vec<KeySpec>, down: HotkeyEvent, up: HotkeyEvent) -> (r: ComboDef)
    ensures
        r@ == (Combo { down, up, specs: kept_specs(specs@) }),
{
    let mut kept: Vec<KeySpec> = Vec::new();
    proof {
        reveal(Seq::filter);
    }
    for i in 0..specs.len()
        invariant
            kept@ == kept_specs(specs@.take(i as int)),
    {
        proof {
            reveal(Seq::filter);
            assert(specs@.take(i + 1).drop_last() == specs@.take(i as int));
        }
        let keep = match &specs[i] {
            KeySpec::Family(_) => true,
            KeySpec::Exact(k) => is_modifier_key(k),
        };
        if keep {
            kept.push(specs[i]);
        }
    }
    assert(specs@.take(specs@.len() as int) == specs@);
    ComboDef { down, up, specs: kept }
}

/// A key that is held is one that the specification asks for.
pub open spec fn held_for(s: KeySpec, pressed: Set<Key>) -> bool {
    exists|k: Key| #[trigger] pressed.contains(k) && s.accepts(k)
}

/// Every specification has a key held for it, and there is at least one.
pub open spec fn held(specs: Seq<KeySpec>, pressed: Set<Key>) -> bool {
    specs.len() > 0 && forall|i: int|
        0 <= i < specs.len() ==> held_for(#[trigger] specs[i], pressed)
}

fn is_held_for(s: &KeySpec, pressed: &KeySet) -> (r: bool)
    ensures
        r == held_for(*s, pressed@),
{
    for i in 0..pressed.keys.len()
        invariant
            forall|j: int| 0 <= j < i ==> !s.accepts(#[trigger] pressed.keys@[j]),
    {
        if s.matches(&pressed.keys[i]) {
            assert(pressed@.contains(pressed.keys@[i as int]));
            return true;
        }
    }
    false
}

pub fn specs_matched_by_pressed(specs: &Vec<KeySpec>, pressed: &KeySet) -> (r: bool)
    ensures
        r == held(specs@, pressed@),
{
    if specs.len() == 0 {
        return false;
    }
    for i in 0..specs.len()
        invariant
            forall|j: int| 0 <= j < i ==> held_for(#[trigger] specs@[j], pressed@),
    {
        if !is_held_for(&specs[i], pressed) {
            assert(!held_for(specs@[i as int], pressed@));
            return false;
        }
    }
    true
}

pub open spec fn asks_for_meta(s: KeySpec) -> bool {
    s == KeySpec::Family(ModFamily::Meta) || s == KeySpec::Exact(Key::MetaLeft) || s
        == KeySpec::Exact(Key::MetaRight)
}

pub open spec fn uses_meta(specs: Seq<KeySpec>) -> bool {
    exists|i: int| 0 <= i < specs.len() && asks_for_meta(#[trigger] specs[i])
}

pub fn specs_use_meta(specs: &Vec<KeySpec>) -> (r: bool)
    ensures
        r == uses_meta(specs@),
{
    for i in 0..specs.len()
        invariant
            forall|j: int| 0 <= j < i ==> !asks_for_meta(#[trigger] specs@[j]),
    {
        if specs[i] == KeySpec::Family(ModFamily::Meta) || specs[i] == KeySpec::Exact(Key::MetaLeft)
            || specs[i] == KeySpec::Exact(Key::MetaRight) {
            assert(asks_for_meta(specs@[i as int]));
            return true;
        }
    }
    false
}

/// The specification has its key once the Windows key `key` is down too.
pub open spec fn completed_by(s: KeySpec, key: Key, pressed: Set<Key>) -> bool {
    match s {
        KeySpec::Family(ModFamily::Meta) => true,
        KeySpec::Exact(Key::MetaLeft) => key == Key::MetaLeft || pressed.contains(Key::MetaLeft),
        KeySpec::Exact(Key::MetaRight) => key == Key::MetaRight || pressed.contains(Key::MetaRight),
        _ => held_for(s, pressed),
    }
}

pub open spec fn completes(specs: Seq<KeySpec>, key: Key, pressed: Set<Key>) -> bool {
    uses_meta(specs) && forall|i: int|
        0 <= i < specs.len() ==> completed_by(#[trigger] specs[i], key, pressed)
}

/// Only the Windows key `key` is missing of some combination that uses it.
pub open spec fn completes_some(combos: Seq<Combo>, key: Key, pressed: Set<Key>) -> bool {
    exists|c: int| 0 <= c < combos.len() && completes((#[trigger] combos[c]).specs, key, pressed)
}

fn is_completed_by(s: &KeySpec, key: &Key, pressed: &KeySet) -> (r: bool)
    ensures
        r == completed_by(*s, *key, pressed@),
{
    match s {
        KeySpec::Family(ModFamily::Meta) => true,
        KeySpec::Exact(Key::MetaLeft) => *key == Key::MetaLeft || pressed.contains(&Key::MetaLeft),
        KeySpec::Exact(Key::MetaRight) => *key == Key::MetaRight || pressed.contains(
            &Key::MetaRight,
        ),
        _ => is_held_for(s, pressed),
    }
}

fn combo_completed_by(specs: &Vec<KeySpec>, key: &Key, pressed: &KeySet) -> (r: bool)
    ensures
        r == completes(specs@, *key, pressed@),
{
    if !specs_use_meta(specs) {
        return false;
    }
    for i in 0..specs.len()
        invariant
            forall|j: int| 0 <= j < i ==> completed_by(#[trigger] specs@[j], *key, pressed@),
    {
        if !is_completed_by(&specs[i], key, pressed) {
            assert(!completed_by(specs@[i as int], *key, pressed@));
            return false;
        }
    }
    true
}

fn win_completes_meta_combo(key: &Key, combos: &Vec<ComboDef>, pressed: &KeySet) -> (r: bool)
    ensures
        r == completes_some(combos_of(combos@), *key, pressed@),
{
    for c in 0..combos.len()
        invariant
            forall|j: int|
                0 <= j < c ==> !completes(
                    (#[trigger] combos_of(combos@)[j]).specs,
                    *key,
                    pressed@,
                ),
    {
        assert(combos_of(combos@)[c as int] == combos@[c as int]@);
        if combo_completed_by(&combos[c].specs, key, pressed) {
            return true;
        }
    }
    false
}

/// The first combination that is held.
pub open spec fn first_held(combos: Seq<Combo>, pressed: Set<Key>) -> Option<int>
    decreases combos.len(),
{
    if combos.len() == 0 {
        None
    } else {
        match first_held(combos.drop_last(), pressed) {
            Some(i) => Some(i),
            None => if held(combos.last().specs, pressed) {
                Some(combos.len() - 1)
            } else {
                None
            },
        }
    }
}

pub proof fn lemma_first_held(combos: Seq<Combo>, pressed: Set<Key>)
    ensures
        match first_held(combos, pressed) {
            Some(i) => 0 <= i < combos.len() && held(combos[i].specs, pressed) && forall|j: int|
                0 <= j < i ==> !held((#[trigger] combos[j]).specs, pressed),
            None => forall|j: int|
                0 <= j < combos.len() ==> !held((#[trigger] combos[j]).specs, pressed),
        },
    decreases combos.len(),
{
    if combos.len() > 0 {
        lemma_first_held(combos.drop_last(), pressed);
        assert forall|j: int| 0 <= j < combos.len() - 1 implies #[trigger] combos[j]
            == combos.drop_last()[j] by {}
    }
}

fn find_held(combos: &Vec<ComboDef>, pressed: &KeySet) -> (r: Option<usize>)
    ensures
        match first_held(combos_of(combos@), pressed@) {
            Some(i) => r is Some && r->0 == i,
            None => r is None,
        },
        r is Some ==> r->0 < combos@.len(),
{
    let ghost all = combos_of(combos@);
    let mut found: Option<usize> = None;
    for c in 0..combos.len()
        invariant
            all == combos_of(combos@),
            match first_held(all.take(c as int), pressed@) {
                Some(i) => found is Some && found->0 == i,
                None => found is None,
            },
            found is Some ==> found->0 < c,
    {
        assert(all.take(c + 1).drop_last() == all.take(c as int));
        assert(all[c as int] == combos@[c as int]@);
        if found.is_none() && specs_matched_by_pressed(&combos[c].specs, pressed) {
            found = Some(c);
        }
    }
    assert(all.take(all.len() as int) == all);
    found
}

// ---------------------------------------------------------------------------
// The listener
// ---------------------------------------------------------------------------

/// The keys held, the Windows keys that took part in a combination and are
/// still held, the combination under way, and when the left mouse button was
/// last pressed, in nanoseconds.
#[verifier::ext_equal]
pub struct Listening {
    pub pressed: Set<Key>,
    pub win_used: Set<Key>,
    pub active: Option<int>,
    pub last_left: Option<u64>,
}

/// What the listener goes by.
#[verifier::ext_equal]
pub struct Channels {
    pub combos: Seq<Combo>,
    pub cancel: Seq<KeySpec>,
    pub mouse: MouseBindings,
}

/// What an event does: the next state, the events it means, and whether the
/// Windows key going down or coming up is kept from the system.
#[verifier::ext_equal]
pub struct Outcome {
    pub state: Listening,
    pub events: Seq<HotkeyEvent>,
    pub swallow_down: bool,
    pub swallow_up: bool,
}

pub open spec fn quiet(state: Listening) -> Outcome {
    Outcome { state, events: Seq::empty(), swallow_down: false, swallow_up: false }
}

pub open spec fn saying(state: Listening, event: HotkeyEvent) -> Outcome {
    Outcome { state, events: seq![event], swallow_down: false, swallow_up: false }
}

pub open spec fn meta_keys(pressed: Set<Key>) -> Set<Key> {
    Set::new(|k: Key| pressed.contains(k) && bindings::meta_key(k))
}

/// With no combination under way, the first that is held begins. The Windows
/// keys that it uses are remembered.
pub open spec fn begun(c: Channels, s: Listening) -> Outcome {
    match first_held(c.combos, s.pressed) {
        Some(i) => saying(
            Listening {
                active: Some(i),
                win_used: if uses_meta(c.combos[i].specs) {
                    s.win_used.union(meta_keys(s.pressed))
                } else {
                    s.win_used
                },
                ..s
            },
            c.combos[i].down,
        ),
        None => quiet(s),
    }
}

pub open spec fn on_press(c: Channels, s: Listening, key: Key) -> Outcome {
    let held = Listening { pressed: s.pressed.insert(key), ..s };
    match s.active {
        None => if bindings::accepted(c.cancel, key) {
            saying(s, HotkeyEvent::CancelDown)
        } else if bindings::modifier_key(key) {
            let next = begun(c, held);
            Outcome {
                swallow_down: bindings::meta_key(key) && (completes_some(c.combos, key, s.pressed)
                    || (next.state.active is Some && uses_meta(
                    c.combos[next.state.active->0].specs,
                ))),
                ..next
            }
        } else {
            quiet(s)
        },
        Some(i) => if !bindings::modifier_key(key) {
            saying(s, HotkeyEvent::OtherKeyDown)
        } else if bindings::accepted(c.combos[i].specs, key) {
            quiet(held)
        } else {
            saying(held, HotkeyEvent::OtherKeyDown)
        },
    }
}

pub open spec fn on_release(c: Channels, s: Listening, key: Key) -> Outcome {
    if !bindings::modifier_key(key) {
        quiet(s)
    } else {
        let left = Listening {
            pressed: s.pressed.remove(key),
            win_used: s.win_used.remove(key),
            ..s
        };
        let swallow_up = bindings::meta_key(key) && s.win_used.contains(key);
        let left = if bindings::meta_key(key) {
            left
        } else {
            Listening { win_used: s.win_used, ..left }
        };
        match s.active {
            Some(i) if bindings::accepted(c.combos[i].specs, key) => {
                let next = begun(c, Listening { active: None, ..left });
                Outcome { events: seq![c.combos[i].up] + next.events, swallow_up, ..next }
            },
            _ => Outcome { swallow_up, ..quiet(left) },
        }
    }
}

/// Two presses within the time allowed are a double click; a third one begins anew.
pub open spec fn on_left(s: Listening, now: u64) -> Outcome {
    match s.last_left {
        Some(t) if now - t < MOUSE_DOUBLE_CLICK_MS * 1_000_000 => saying(
            Listening { last_left: None, ..s },
            HotkeyEvent::MouseDoubleClick,
        ),
        _ => quiet(Listening { last_left: Some(now), ..s }),
    }
}

pub open spec fn on_event(c: Channels, s: Listening, event: RawEvent, now: u64) -> Outcome {
    match event {
        RawEvent::KeyPress(k) => on_press(c, s, k),
        RawEvent::KeyRelease(k) => on_release(c, s, k),
        RawEvent::ButtonPress(RawButton::Left) => on_left(s, now),
        _ => match events::side_button_event(event, c.mouse) {
            Some(e) => saying(s, e),
            None => quiet(s),
        },
    }
}

/// What the listener answers.
#[derive(Debug)]
pub struct Reaction {
    pub events: Vec<HotkeyEvent>,
    pub swallow_win_down: bool,
    pub swallow_win_up: bool,
}

impl Reaction {
    fn none() -> (r: Self)
        ensures
            r.events@ == Seq::<HotkeyEvent>::empty(),
            !r.swallow_win_down,
            !r.swallow_win_up,
    {
        Reaction { events: Vec::new(), swallow_win_down: false, swallow_win_up: false }
    }

    fn one(event: HotkeyEvent) -> (r: Self)
        ensures
            r.events@ == seq![event],
            !r.swallow_win_down,
            !r.swallow_win_up,
    {
        let mut events: Vec<HotkeyEvent> = Vec::new();
        events.push(event);
        assert(events@ =~= seq![event]);
        Reaction { events, swallow_win_down: false, swallow_win_up: false }
    }

    pub open spec fn tells(self, o: Outcome) -> bool {
        self.events@ == o.events && self.swallow_win_down == o.swallow_down && self.swallow_win_up
            == o.swallow_up
    }
}

/// The listener's state and the channels it goes by.
#[derive(Debug)]
pub struct WindowsHotkey {
    pub combos: Vec<ComboDef>,
    pub cancel: Vec<KeySpec>,
    pub mouse: MouseBindings,
    pub pressed: KeySet,
    pub win_used: KeySet,
    pub active: Option<usize>,
    pub last_left: Option<u64>,
}

pub open spec fn channels_of(b: bindings::BindingsView) -> Channels {
    Channels {
        combos: seq![
            Combo {
                down: HotkeyEvent::TriggerDown,
                up: HotkeyEvent::TriggerUp,
                specs: kept_specs(b.trigger),
            },
            Combo {
                down: HotkeyEvent::RepairDown,
                up: HotkeyEvent::RepairUp,
                specs: kept_specs(b.repair),
            },
            Combo {
                down: HotkeyEvent::CommandDown,
                up: HotkeyEvent::CommandUp,
                specs: kept_specs(b.command),
            },
        ],
        cancel: b.cancel,
        mouse: b.mouse,
    }
}

pub open spec fn nothing_held() -> Listening {
    Listening { pressed: Set::empty(), win_used: Set::empty(), active: None, last_left: None }
}

impl WindowsHotkey {
    pub open spec fn channels(self) -> Channels {
        Channels { combos: combos_of(self.combos@), cancel: self.cancel@, mouse: self.mouse }
    }

    pub open spec fn state(self) -> Listening {
        Listening {
            pressed: self.pressed@,
            win_used: self.win_used@,
            active: match self.active {
                Some(i) => Some(i as int),
                None => None,
            },
            last_left: self.last_left,
        }
    }

    /// The combination under way is one of the combinations.
    pub open spec fn wf(self) -> bool {
        self.active is Some ==> self.active->0 < self.combos@.len()
    }

    pub fn new(bindings: &Bindings) -> (r: Self)
        ensures
            r.wf(),
            r.channels() == channels_of(bindings@),
            r.state() == nothing_held(),
    {
        let mut combos: Vec<ComboDef> = Vec::new();
        combos.push(
            combo_from_specs(
                &bindings.trigger,
                HotkeyEvent::TriggerDown,
                HotkeyEvent::TriggerUp,
            ),
        );
        combos.push(
            combo_from_specs(&bindings.repair, HotkeyEvent::RepairDown, HotkeyEvent::RepairUp),
        );
        combos.push(
            combo_from_specs(&bindings.command, HotkeyEvent::CommandDown, HotkeyEvent::CommandUp),
        );
        let r = WindowsHotkey {
            combos,
            cancel: bindings.cancel.clone(),
            mouse: bindings.mouse,
            pressed: KeySet::new(),
            win_used: KeySet::new(),
            active: None,
            last_left: None,
        };
        assert(r.channels() =~= channels_of(bindings@));
        assert(r.state() =~= nothing_held());
        r
    }

    fn remember_win_keys(&mut self)
        ensures
            final(self).win_used@ == old(self).win_used@.union(meta_keys(old(self).pressed@)),
            final(self).combos == old(self).combos,
            final(self).cancel == old(self).cancel,
            final(self).mouse == old(self).mouse,
            final(self).pressed == old(self).pressed,
            final(self).active == old(self).active,
            final(self).last_left == old(self).last_left,
    {
        if self.pressed.contains(&Key::MetaLeft) {
            self.win_used.insert(Key::MetaLeft);
        }
        if self.pressed.contains(&Key::MetaRight) {
            self.win_used.insert(Key::MetaRight);
        }
        assert(self.win_used@ =~= old(self).win_used@.union(meta_keys(old(self).pressed@)));
    }

    fn begin(&mut self) -> (r: Reaction)
        requires
            old(self).active is None,
        ensures
            final(self).wf(),
            final(self).channels() == old(self).channels(),
            final(self).state() == begun(old(self).channels(), old(self).state()).state,
            r.tells(begun(old(self).channels(), old(self).state())),
    {
        let ghost o = begun(self.channels(), self.state());
        match find_held(&self.combos, &self.pressed) {
            Some(i) => {
                assert(combos_of(self.combos@)[i as int] == self.combos@[i as int]@);
                self.active = Some(i);
                if specs_use_meta(&self.combos[i].specs) {
                    self.remember_win_keys();
                }
                assert(self.state() =~= o.state);
                Reaction::one(self.combos[i].down.clone())
            },
            None => Reaction::none(),
        }
    }

    fn press(&mut self, key: Key) -> (r: Reaction)
        requires
            old(self).wf(),
        ensures
            final(self).wf(),
            final(self).channels() == old(self).channels(),
            final(self).state() == on_press(old(self).channels(), old(self).state(), key).state,
            r.tells(on_press(old(self).channels(), old(self).state(), key)),
    {
        let ghost c = self.channels();
        let ghost o = on_press(c, self.state(), key);
        if self.active.is_none() && key_matches_any_spec(&key, &self.cancel) {
            return Reaction::one(HotkeyEvent::CancelDown);
        }
        if !is_modifier_key(&key) {
            if self.active.is_some() {
                return Reaction::one(HotkeyEvent::OtherKeyDown);
            }
            return Reaction::none();
        }
        let meta = key == Key::MetaLeft || key == Key::MetaRight;
        match self.active {
            None => {
                let completing = meta && win_completes_meta_combo(
                    &key,
                    &self.combos,
                    &self.pressed,
                );
                self.pressed.insert(key);
                let mut r = self.begin();
                let used = match self.active {
                    Some(i) => {
                        assert(c.combos[i as int] == self.combos@[i as int]@);
                        specs_use_meta(&self.combos[i].specs)
                    },
                    None => false,
                };
                r.swallow_win_down = meta && (completing || used);
                r
            },
            Some(i) => {
                assert(c.combos[i as int] == self.combos@[i as int]@);
                self.pressed.insert(key);
                if key_matches_any_spec(&key, &self.combos[i].specs) {
                    Reaction::none()
                } else {
                    Reaction::one(HotkeyEvent::OtherKeyDown)
                }
            },
        }
    }

    fn release(&mut self, key: Key) -> (r: Reaction)
        requires
            old(self).wf(),
        ensures
            final(self).wf(),
            final(self).channels() == old(self).channels(),
            final(self).state() == on_release(old(self).channels(), old(self).state(), key).state,
            r.tells(on_release(old(self).channels(), old(self).state(), key)),
    {
        let ghost c = self.channels();
        let ghost s = self.state();
        let ghost o = on_release(c, s, key);
        if !is_modifier_key(&key) {
            return Reaction::none();
        }
        let meta = key == Key::MetaLeft || key == Key::MetaRight;
        let swallow_up = meta && self.win_used.contains(&key);
        if meta {
            self.win_used.remove(&key);
        }
        self.pressed.remove(&key);
        match self.active {
            Some(i) => {
                assert(c.combos[i as int] == self.combos@[i as int]@);
                if key_matches_any_spec(&key, &self.combos[i].specs) {
                    let up = self.combos[i].up.clone();
                    self.active = None;
                    let mut next = self.begin();
                    let mut events: Vec<HotkeyEvent> = Vec::new();
                    events.push(up);
                    events.append(&mut next.events);
                    let r = Reaction {
                        events,
                        swallow_win_down: next.swallow_win_down,
                        swallow_win_up: swallow_up,
                    };
                    assert(r.events@ =~= o.events);
                    return r;
                }
            },
            None => {},
        }
        assert(self.state() =~= o.state);
        let mut r = Reaction::none();
        r.swallow_win_up = swallow_up;
        r
    }

    /// Takes one event; `now` is the time on a clock that never runs back, in
    /// nanoseconds.
    pub fn handle(&mut self, event: RawEvent, now: u64) -> (r: Reaction)
        requires
            old(self).wf(),
        ensures
            final(self).wf(),
            final(self).channels() == old(self).channels(),
            final(self).state() == on_event(
                old(self).channels(),
                old(self).state(),
                event,
                now,
            ).state,
            r.tells(on_event(old(self).channels(), old(self).state(), event, now)),
    {
        match event {
            RawEvent::KeyPress(key) => self.press(key),
            RawEvent::KeyRelease(key) => self.release(key),
            RawEvent::ButtonPress(RawButton::Left) => {
                let double = match self.last_left {
                    Some(t) => now < t || now - t < MOUSE_DOUBLE_CLICK_MS * 1_000_000,
                    None => false,
                };
                if double {
                    self.last_left = None;
                    Reaction::one(HotkeyEvent::MouseDoubleClick)
                } else {
                    self.last_left = Some(now);
                    Reaction::none()
                }
            },
            _ => match side_button(event, &self.mouse) {
                Some(e) => Reaction::one(e),
                None => Reaction::none(),
            },
        }
    }
}

// ---------------------------------------------------------------------------
// Laws
// ---------------------------------------------------------------------------

/// The combination under way is a combination, and a Windows key is remembered
/// only while it is held.
pub open spec fn sound(c: Channels, s: Listening) -> bool {
    &&& s.active is Some ==> 0 <= s.active->0 < c.combos.len()
    &&& s.win_used.subset_of(meta_keys(s.pressed))
}

/// Every event keeps the listener sound.
pub proof fn law_listener_stays_sound(c: Channels, s: Listening, event: RawEvent, now: u64)
    requires
        sound(c, s),
    ensures
        sound(c, on_event(c, s, event, now).state),
        sound(c, nothing_held()),
{
    match event {
        RawEvent::KeyPress(k) => {
            lemma_first_held(c.combos, s.pressed.insert(k));
        },
        RawEvent::KeyRelease(k) => {
            lemma_first_held(c.combos, s.pressed.remove(k));
        },
        _ => {},
    }
}

/// Channels open and close in turn: a channel opens only when none is open, it
/// closes only while it is open, and where one takes over from another, the
/// first is closed before the second opens.
pub proof fn law_channels_open_and_close_in_turn(
    c: Channels,
    s: Listening,
    event: RawEvent,
    now: u64,
)
    ensures
        ({
            let o = on_event(c, s, event, now);
            match (s.active, o.state.active) {
                (None, Some(j)) => o.events == seq![c.combos[j].down],
                (Some(i), None) => o.events == seq![c.combos[i].up],
                (Some(i), Some(j)) => {
                    ||| o.events == seq![c.combos[i].up, c.combos[j].down]
                    ||| i == j && o.events.len() <= 1
                },
                (None, None) => o.events.len() <= 1,
            }
        }),
{
    match event {
        RawEvent::KeyRelease(k) => {
            let o = on_event(c, s, event, now);
            if s.active is Some {
                let i = s.active->0;
                if o.state.active is Some {
                    let j = o.state.active->0;
                    assert(seq![c.combos[i].up] + seq![c.combos[j].down] =~= seq![
                        c.combos[i].up,
                        c.combos[j].down,
                    ]);
                }
                assert(seq![c.combos[i].up] + Seq::<HotkeyEvent>::empty() =~= seq![c.combos[i].up]);
            }
        },
        _ => {},
    }
}

/// The system sees every Windows key that takes part in no combination: a
/// release is kept from it only for a key that a combination used, and a press
/// only where it completes or begins one.
pub proof fn law_other_windows_keys_reach_the_system(
    c: Channels,
    s: Listening,
    event: RawEvent,
    now: u64,
)
    ensures
        on_event(c, s, event, now).swallow_up ==> event is KeyRelease && bindings::meta_key(
            event->KeyRelease_0,
        ) && s.win_used.contains(event->KeyRelease_0),
        on_event(c, s, event, now).swallow_down ==> event is KeyPress && bindings::meta_key(
            event->KeyPress_0,
        ) && s.active is None && exists|i: int|
            0 <= i < c.combos.len() && uses_meta((#[trigger] c.combos[i]).specs),
{
    match event {
        RawEvent::KeyPress(k) => {
            lemma_first_held(c.combos, s.pressed.insert(k));
            if on_event(c, s, event, now).swallow_down {
                if completes_some(c.combos, k, s.pressed) {
                    let i = choose|i: int|
                        0 <= i < c.combos.len() && completes(
                            (#[trigger] c.combos[i]).specs,
                            k,
                            s.pressed,
                        );
                    assert(uses_meta(c.combos[i].specs));
                } else {
                    let i = first_held(c.combos, s.pressed.insert(k))->0;
                    assert(uses_meta(c.combos[i].specs));
                }
            }
        },
        RawEvent::KeyRelease(k) => {},
        _ => {},
    }
}

/// A combination that uses a Windows key gives the system nothing to open the
/// start menu with: while it is under way, every Windows key that is held is
/// remembered, and its release is kept from the system.
pub proof fn law_start_menu_stays_closed(c: Channels, s: Listening, key: Key)
    requires
        s.active is None,
        on_press(c, s, key).state.active is Some,
        uses_meta(c.combos[on_press(c, s, key).state.active->0].specs),
    ensures
        forall|k: Key|
            bindings::meta_key(k) && on_press(c, s, key).state.pressed.contains(k) ==> #[trigger]
            on_release(c, on_press(c, s, key).state, k).swallow_up,
{
}

/// One of the keys that the specification asks for is among `keys`.
pub open spec fn served(s: KeySpec, keys: Set<Key>) -> bool {
    match s {
        KeySpec::Exact(e) => keys.contains(e),
        KeySpec::Family(f) => exists|k: Key| #[trigger]
            keys.contains(k) && bindings::family_of_key(k) == Some(f),
    }
}

/// Each specification of a combination has one of its keys among `keys`.
pub open spec fn together(specs: Seq<KeySpec>, keys: Set<Key>) -> bool {
    specs.len() > 0 && forall|i: int| 0 <= i < specs.len() ==> served(#[trigger] specs[i], keys)
}

proof fn lemma_served(s: KeySpec, keys: Set<Key>)
    ensures
        served(s, keys) <==> held_for(s, keys),
{
    if served(s, keys) {
        match s {
            KeySpec::Exact(e) => {
                assert(keys.contains(e) && s.accepts(e));
            },
            KeySpec::Family(f) => {
                let k = choose|k: Key| #[trigger]
                    keys.contains(k) && bindings::family_of_key(k) == Some(f);
                assert(keys.contains(k) && s.accepts(k));
            },
        }
    }
}

proof fn lemma_together(specs: Seq<KeySpec>, keys: Set<Key>)
    ensures
        together(specs, keys) <==> held(specs, keys),
{
    assert forall|i: int| 0 <= i < specs.len() implies served(#[trigger] specs[i], keys)
        == held_for(specs[i], keys) by {
        lemma_served(specs[i], keys);
    }
}

/// The key that makes a combination complete opens its channel; of several
/// complete ones, the first. A modifier that completes none is only remembered.
pub proof fn law_complete_combinations_open_their_channel(
    c: Channels,
    s: Listening,
    key: Key,
    i: int,
)
    requires
        s.active is None,
        bindings::modifier_key(key),
        !bindings::accepted(c.cancel, key),
    ensures
        0 <= i < c.combos.len() && together(c.combos[i].specs, s.pressed.insert(key)) && (forall|
            j: int,
        |
            0 <= j < i ==> !together((#[trigger] c.combos[j]).specs, s.pressed.insert(key))) ==> {
            &&& on_press(c, s, key).events == seq![c.combos[i].down]
            &&& on_press(c, s, key).state.active == Some(i)
        },
        (forall|j: int|
            0 <= j < c.combos.len() ==> !together(
                (#[trigger] c.combos[j]).specs,
                s.pressed.insert(key),
            )) ==> on_press(c, s, key).events.len() == 0 && on_press(c, s, key).state.active is None,
        on_press(c, s, key).state.pressed == s.pressed.insert(key),
{
    let pressed = s.pressed.insert(key);
    lemma_first_held(c.combos, pressed);
    assert forall|j: int| 0 <= j < c.combos.len() implies together(
        (#[trigger] c.combos[j]).specs,
        pressed,
    ) == held(c.combos[j].specs, pressed) by {
        lemma_together(c.combos[j].specs, pressed);
    }
    if 0 <= i < c.combos.len() && together(c.combos[i].specs, pressed) && (forall|j: int|
        0 <= j < i ==> !together((#[trigger] c.combos[j]).specs, pressed)) {
        assert(held(c.combos[i].specs, pressed));
        let f = first_held(c.combos, pressed)->0;
        if f < i {
            assert(together(c.combos[f].specs, pressed));
        }
    }
}

/// Releasing a key of the combination under way closes its channel; releasing
/// any other key closes nothing. What is released is no longer held.
pub proof fn law_releases_close_the_channel(c: Channels, s: Listening, key: Key, i: int)
    requires
        s.active == Some(i),
    ensures
        bindings::modifier_key(key) && bindings::accepted(c.combos[i].specs, key) ==> {
            &&& on_release(c, s, key).events.len() > 0
            &&& on_release(c, s, key).events[0] == c.combos[i].up
            &&& on_release(c, s, key).events.len() == 1 <==> on_release(c, s, key).state.active
                is None
        },
        !bindings::modifier_key(key) || !bindings::accepted(c.combos[i].specs, key) ==> on_release(
            c,
            s,
            key,
        ).events.len() == 0 && on_release(c, s, key).state.active == Some(i),
        bindings::modifier_key(key) ==> on_release(c, s, key).state.pressed == s.pressed.remove(key),
{
}

/// While a combination is under way its own keys mean nothing more, and any
/// other key that goes down is reported as such.
pub proof fn law_other_keys_are_reported(c: Channels, s: Listening, key: Key, i: int)
    requires
        s.active == Some(i),
    ensures
        on_press(c, s, key).events == if bindings::modifier_key(key) && bindings::accepted(
            c.combos[i].specs,
            key,
        ) {
            Seq::empty()
        } else {
            seq![HotkeyEvent::OtherKeyDown]
        },
        on_press(c, s, key).state.active == Some(i),
{
}

/// The cancel key cancels while no combination is under way; a key that is
/// neither a modifier nor for cancelling then means nothing.
pub proof fn law_cancel_key_cancels(c: Channels, s: Listening, key: Key)
    requires
        s.active is None,
    ensures
        bindings::accepted(c.cancel, key) ==> on_press(c, s, key).events == seq![
            HotkeyEvent::CancelDown,
        ] && on_press(c, s, key).state == s,
        !bindings::accepted(c.cancel, key) && !bindings::modifier_key(key) ==> on_press(
            c,
            s,
            key,
        ).events.len() == 0 && on_press(c, s, key).state == s,
        on_release(c, s, key).events.len() == 0,
{
}

/// Two presses of the left button less than half a second apart are a double
/// click, and a third one right behind is not another; two presses further apart
/// are none.
pub proof fn law_double_clicks_take_two_presses(
    c: Channels,
    s: Listening,
    first: u64,
    second: u64,
    third: u64,
)
    requires
        s.last_left is None,
        first <= second <= third,
    ensures
        ({
            let left = RawEvent::ButtonPress(RawButton::Left);
            let a = on_event(c, s, left, first);
            let b = on_event(c, a.state, left, second);
            let d = on_event(c, b.state, left, third);
            &&& a.events.len() == 0
            &&& second - first < 500_000_000 ==> b.events == seq![HotkeyEvent::MouseDoubleClick]
                && d.events.len() == 0
            &&& second - first >= 500_000_000 ==> b.events.len() == 0 && (third - second
                < 500_000_000 ==> d.events == seq![HotkeyEvent::MouseDoubleClick])
            &&& a.state.pressed == s.pressed && a.state.active == s.active
        }),
{
}

/// Each channel asks for the modifiers that it is bound to, and for nothing
/// else, and reports under its own name.
pub proof fn law_channels_follow_the_bindings(b: bindings::BindingsView, s: KeySpec)
    ensures
        channels_of(b).combos.len() == 3,
        channels_of(b).combos[0].down == HotkeyEvent::TriggerDown,
        channels_of(b).combos[0].up == HotkeyEvent::TriggerUp,
        channels_of(b).combos[1].down == HotkeyEvent::RepairDown,
        channels_of(b).combos[1].up == HotkeyEvent::RepairUp,
        channels_of(b).combos[2].down == HotkeyEvent::CommandDown,
        channels_of(b).combos[2].up == HotkeyEvent::CommandUp,
        channels_of(b).combos[0].specs.contains(s) <==> b.trigger.contains(s) && for_modifiers(s),
        channels_of(b).combos[1].specs.contains(s) <==> b.repair.contains(s) && for_modifiers(s),
        channels_of(b).combos[2].specs.contains(s) <==> b.command.contains(s) && for_modifiers(s),
        channels_of(b).cancel == b.cancel,
        channels_of(b).mouse == b.mouse,
{
    lemma_kept(b.trigger, s);
    lemma_kept(b.repair, s);
    lemma_kept(b.command, s);
}

proof fn lemma_kept(specs: Seq<KeySpec>, s: KeySpec)
    ensures
        kept_specs(specs).contains(s) <==> specs.contains(s) && for_modifiers(s),
    decreases specs.len(),
{
    reveal(Seq::filter);
    if specs.len() > 0 {
        let rest = specs.drop_last();
        lemma_kept(rest, s);
        let a = kept_specs(rest);
        let all = kept_specs(specs);
        if all.contains(s) {
            let i = choose|i: int| 0 <= i < all.len() && all[i] == s;
            if i < a.len() {
                assert(a[i] == s);
                let j = choose|j: int| 0 <= j < rest.len() && rest[j] == s;
                assert(specs[j] == s);
            } else {
                assert(specs[specs.len() - 1] == s);
            }
        }
        if specs.contains(s) && for_modifiers(s) {
            let j = choose|j: int| 0 <= j < specs.len() && specs[j] == s;
            if j < rest.len() {
                assert(rest[j] == s);
                let i = choose|i: int| 0 <= i < a.len() && a[i] == s;
                assert(all[i] == s);
            } else {
                assert(all[all.len() - 1] == s);
            }
        }
    }
}

/// A Windows key that goes down is kept from the system exactly when, with it, a
/// combination that uses a Windows key is complete.
pub proof fn law_windows_keys_of_combinations_are_kept(c: Channels, s: Listening, key: Key)
    requires
        s.active is None,
        bindings::meta_key(key),
        !bindings::accepted(c.cancel, key),
    ensures
        on_press(c, s, key).swallow_down <==> exists|i: int|
            0 <= i < c.combos.len() && together(
                (#[trigger] c.combos[i]).specs,
                s.pressed.insert(key),
            ) && uses_meta(c.combos[i].specs),
{
    let pressed = s.pressed.insert(key);
    lemma_first_held(c.combos, pressed);
    assert forall|i: int| 0 <= i < c.combos.len() implies (together(
        (#[trigger] c.combos[i]).specs,
        pressed,
    ) && uses_meta(c.combos[i].specs)) == completes(c.combos[i].specs, key, s.pressed) by {
        lemma_completes(c.combos[i].specs, key, s.pressed);
    }
    if on_press(c, s, key).swallow_down {
        if completes_some(c.combos, key, s.pressed) {
            let i = choose|i: int|
                0 <= i < c.combos.len() && completes(
                    (#[trigger] c.combos[i]).specs,
                    key,
                    s.pressed,
                );
            assert(together(c.combos[i].specs, pressed));
        } else {
            let i = first_held(c.combos, pressed)->0;
            lemma_together(c.combos[i].specs, pressed);
            assert(together(c.combos[i].specs, pressed));
        }
    }
}

proof fn lemma_completes(specs: Seq<KeySpec>, key: Key, pressed: Set<Key>)
    requires
        bindings::meta_key(key),
    ensures
        together(specs, pressed.insert(key)) && uses_meta(specs) <==> completes(
            specs,
            key,
            pressed,
        ),
{
    assert forall|i: int| 0 <= i < specs.len() implies served(
        #[trigger] specs[i],
        pressed.insert(key),
    ) == completed_by(specs[i], key, pressed) by {
        let s = specs[i];
        lemma_served(s, pressed.insert(key));
        lemma_served(s, pressed);
        match s {
            KeySpec::Family(ModFamily::Meta) => {
                assert(pressed.insert(key).contains(key));
                assert(bindings::family_of_key(key) == Some(ModFamily::Meta));
            },
            KeySpec::Family(f) => {
                if served(s, pressed.insert(key)) {
                    let k = choose|k: Key| #[trigger]
                        pressed.insert(key).contains(k) && bindings::family_of_key(k) == Some(f);
                    assert(pressed.contains(k));
                }
                if served(s, pressed) {
                    let k = choose|k: Key| #[trigger]
                        pressed.contains(k) && bindings::family_of_key(k) == Some(f);
                    assert(pressed.insert(key).contains(k));
                }
            },
            KeySpec::Exact(_) => {},
        }
    }
    if uses_meta(specs) {
        assert(specs.len() > 0);
    }
}

} // verus!
