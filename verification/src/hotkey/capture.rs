//! Recording a key combination from the live event stream.
use crate::command::combo;
use crate::hotkey::bindings;
use crate::hotkey::bindings::{family_of, KeySpec, ModFamily};
use crate::hotkey::events::RawEvent;
use crate::hotkey::key::Key;
use crate::inject;
use crate::search;
use crate::text;
use vstd::prelude::*;

verus! {

/// A combination that was recorded.
#[derive(Debug, PartialEq, Eq)]
pub struct CapturedCombo {
    /// Ctrl, Opt, Shift, Cmd.
    pub modifiers: Vec<String>,
    /// A letter, a digit, or the name of a key.
    pub key: String,
}

/// The name that a key has in commands; `None` for keys that no command names.
pub open spec fn command_key_name(key: Key) -> Option<Seq<char>> {
    match key {
        Key::KeyA => Some("A"@),
        Key::KeyB => Some("B"@),
        Key::KeyC => Some("C"@),
        Key::KeyD => Some("D"@),
        Key::KeyE => Some("E"@),
        Key::KeyF => Some("F"@),
        Key::KeyG => Some("G"@),
        Key::KeyH => Some("H"@),
        Key::KeyI => Some("I"@),
        Key::KeyJ => Some("J"@),
        Key::KeyK => Some("K"@),
        Key::KeyL => Some("L"@),
        Key::KeyM => Some("M"@),
        Key::KeyN => Some("N"@),
        Key::KeyO => Some("O"@),
        Key::KeyP => Some("P"@),
        Key::KeyQ => Some("Q"@),
        Key::KeyR => Some("R"@),
        Key::KeyS => Some("S"@),
        Key::KeyT => Some("T"@),
        Key::KeyU => Some("U"@),
        Key::KeyV => Some("V"@),
        Key::KeyW => Some("W"@),
        Key::KeyX => Some("X"@),
        Key::KeyY => Some("Y"@),
        Key::KeyZ => Some("Z"@),
        Key::Num0 => Some("0"@),
        Key::Num1 => Some("1"@),
        Key::Num2 => Some("2"@),
        Key::Num3 => Some("3"@),
        Key::Num4 => Some("4"@),
        Key::Num5 => Some("5"@),
        Key::Num6 => Some("6"@),
        Key::Num7 => Some("7"@),
        Key::Num8 => Some("8"@),
        Key::Num9 => Some("9"@),
        Key::F1 => Some("F1"@),
        Key::F2 => Some("F2"@),
        Key::F3 => Some("F3"@),
        Key::F4 => Some("F4"@),
        Key::F5 => Some("F5"@),
        Key::F6 => Some("F6"@),
        Key::F7 => Some("F7"@),
        Key::F8 => Some("F8"@),
        Key::F9 => Some("F9"@),
        Key::F10 => Some("F10"@),
        Key::F11 => Some("F11"@),
        Key::F12 => Some("F12"@),
        Key::Return => Some("ENTER"@),
        Key::Space => Some("SPACE"@),
        Key::Tab => Some("TAB"@),
        Key::Escape => Some("ESC"@),
        Key::Backspace | Key::Delete => Some("DELETE"@),
        Key::UpArrow => Some("UP"@),
        Key::DownArrow => Some("DOWN"@),
        Key::LeftArrow => Some("LEFT"@),
        Key::RightArrow => Some("RIGHT"@),
        _ => None,
    }
}

pub fn map_rdev_key(key: &Key) -> (r: Option<String>)
    ensures
        match command_key_name(*key) {
            Some(n) => r is Some && r->0@ == n,
            None => r is None,
        },
{
    match key {
        Key::KeyA => Some("A".to_string()),
        Key::KeyB => Some("B".to_string()),
        Key::KeyC => Some("C".to_string()),
        Key::KeyD => Some("D".to_string()),
        Key::KeyE => Some("E".to_string()),
        Key::KeyF => Some("F".to_string()),
        Key::KeyG => Some("G".to_string()),
        Key::KeyH => Some("H".to_string()),
        Key::KeyI => Some("I".to_string()),
        Key::KeyJ => Some("J".to_string()),
        Key::KeyK => Some("K".to_string()),
        Key::KeyL => Some("L".to_string()),
        Key::KeyM => Some("M".to_string()),
        Key::KeyN => Some("N".to_string()),
        Key::KeyO => Some("O".to_string()),
        Key::KeyP => Some("P".to_string()),
        Key::KeyQ => Some("Q".to_string()),
        Key::KeyR => Some("R".to_string()),
        Key::KeyS => Some("S".to_string()),
        Key::KeyT => Some("T".to_string()),
        Key::KeyU => Some("U".to_string()),
        Key::KeyV => Some("V".to_string()),
        Key::KeyW => Some("W".to_string()),
        Key::KeyX => Some("X".to_string()),
        Key::KeyY => Some("Y".to_string()),
        Key::KeyZ => Some("Z".to_string()),
        Key::Num0 => Some("0".to_string()),
        Key::Num1 => Some("1".to_string()),
        Key::Num2 => Some("2".to_string()),
        Key::Num3 => Some("3".to_string()),
        Key::Num4 => Some("4".to_string()),
        Key::Num5 => Some("5".to_string()),
        Key::Num6 => Some("6".to_string()),
        Key::Num7 => Some("7".to_string()),
        Key::Num8 => Some("8".to_string()),
        Key::Num9 => Some("9".to_string()),
        Key::F1 => Some("F1".to_string()),
        Key::F2 => Some("F2".to_string()),
        Key::F3 => Some("F3".to_string()),
        Key::F4 => Some("F4".to_string()),
        Key::F5 => Some("F5".to_string()),
        Key::F6 => Some("F6".to_string()),
        Key::F7 => Some("F7".to_string()),
        Key::F8 => Some("F8".to_string()),
        Key::F9 => Some("F9".to_string()),
        Key::F10 => Some("F10".to_string()),
        Key::F11 => Some("F11".to_string()),
        Key::F12 => Some("F12".to_string()),
        Key::Return => Some("ENTER".to_string()),
        Key::Space => Some("SPACE".to_string()),
        Key::Tab => Some("TAB".to_string()),
        Key::Escape => Some("ESC".to_string()),
        Key::Backspace | Key::Delete => Some("DELETE".to_string()),
        Key::UpArrow => Some("UP".to_string()),
        Key::DownArrow => Some("DOWN".to_string()),
        Key::LeftArrow => Some("LEFT".to_string()),
        Key::RightArrow => Some("RIGHT".to_string()),
        _ => None,
    }
}

/// The name that a modifier has on the settings page, that of a family or that
/// of the key itself.
pub open spec fn modifier_label(m: KeySpec) -> Seq<char> {
    match m {
        KeySpec::Family(ModFamily::Control) => "Ctrl"@,
        KeySpec::Family(ModFamily::Meta) => "Cmd"@,
        KeySpec::Family(ModFamily::Alt) => "Opt"@,
        KeySpec::Family(ModFamily::Shift) => "Shift"@,
        KeySpec::Exact(Key::Alt) => "AltLeft"@,
        KeySpec::Exact(k) => k.name(),
    }
}

fn modifier_name(m: &KeySpec) -> (r: String)
    ensures
        r@ == modifier_label(*m),
{
    match m {
        KeySpec::Family(ModFamily::Control) => "Ctrl".to_string(),
        KeySpec::Family(ModFamily::Meta) => "Cmd".to_string(),
        KeySpec::Family(ModFamily::Alt) => "Opt".to_string(),
        KeySpec::Family(ModFamily::Shift) => "Shift".to_string(),
        KeySpec::Exact(Key::Alt) => "AltLeft".to_string(),
        KeySpec::Exact(k) => k.display_name(),
    }
}

/// What a recording is told.
#[derive(Debug, Clone, Copy, PartialEq, Eq, Structural)]
pub enum CaptureEvent {
    /// The user gave up.
    Cancelled,
    /// The time for recording is over.
    TimedOut,
    Raw(RawEvent),
}

/// How a recording ends.
#[verifier::ext_equal]
pub enum CaptureEnd {
    Cancelled,
    TimedOut,
    Combo { modifiers: Seq<Seq<char>>, key: Seq<char> },
}

/// What is held without `f`.
pub open spec fn without(held: Seq<KeySpec>, f: KeySpec) -> Seq<KeySpec> {
    held.filter(|x: KeySpec| x != f)
}

/// The modifier that a key counts as: itself where sides are told apart, else
/// its family; `None` for a key that is no modifier.
pub open spec fn modifier_for(key: Key, sides: bool) -> Option<KeySpec> {
    match bindings::family_of_key(key) {
        Some(f) => Some(
            if sides {
                KeySpec::Exact(key)
            } else {
                KeySpec::Family(f)
            },
        ),
        None => None,
    }
}

fn as_modifier(key: &Key, sides: bool) -> (r: Option<KeySpec>)
    ensures
        r == modifier_for(*key, sides),
{
    match family_of(key) {
        Some(f) => Some(
            if sides {
                KeySpec::Exact(*key)
            } else {
                KeySpec::Family(f)
            },
        ),
        None => None,
    }
}

/// The modifiers held after an event, in the order in which they went down.
pub open spec fn held_after(held: Seq<KeySpec>, sides: bool, event: CaptureEvent) -> Seq<KeySpec> {
    match event {
        CaptureEvent::Raw(RawEvent::KeyPress(k)) => match modifier_for(k, sides) {
            Some(f) if !held.contains(f) => held.push(f),
            _ => held,
        },
        CaptureEvent::Raw(RawEvent::KeyRelease(k)) => match modifier_for(k, sides) {
            Some(f) => without(held, f),
            None => held,
        },
        _ => held,
    }
}

/// Escape ends a recording, and so does the first key that commands can name.
pub open spec fn capture_end(held: Seq<KeySpec>, event: CaptureEvent) -> Option<CaptureEnd> {
    match event {
        CaptureEvent::Cancelled => Some(CaptureEnd::Cancelled),
        CaptureEvent::TimedOut => Some(CaptureEnd::TimedOut),
        CaptureEvent::Raw(RawEvent::KeyPress(k)) => if k == Key::Escape {
            Some(CaptureEnd::Cancelled)
        } else if bindings::family_of_key(k) is Some {
            None
        } else {
            match command_key_name(k) {
                Some(key) => Some(
                    CaptureEnd::Combo {
                        modifiers: held.map_values(|f: KeySpec| modifier_label(f)),
                        key,
                    },
                ),
                None => None,
            }
        },
        _ => None,
    }
}

/// The result of a recording stands for `end`.
pub open spec fn capture_result(r: Result<CapturedCombo, String>, end: CaptureEnd) -> bool {
    match end {
        CaptureEnd::Cancelled => r is Err && r->Err_0@ == "已取消"@,
        CaptureEnd::TimedOut => r is Err && r->Err_0@ == "录制超时"@,
        CaptureEnd::Combo { modifiers, key } => r is Ok && search::texts(r->Ok_0.modifiers@)
            == modifiers && r->Ok_0.key@ == key,
    }
}

/// A recording under way: the modifiers held so far, and whether their sides
/// are told apart.
#[derive(Debug)]
pub struct Capture {
    pub held: Vec<KeySpec>,
    pub sides: bool,
}

impl Capture {
    pub fn new(sides: bool) -> (r: Self)
        ensures
            r.held@.len() == 0,
            r.sides == sides,
    {
        Capture { held: Vec::new(), sides }
    }

    fn holds(&self, f: KeySpec) -> (r: bool)
        ensures
            r == self.held@.contains(f),
    {
        for i in 0..self.held.len()
            invariant
                forall|j: int| 0 <= j < i ==> self.held@[j] != f,
        {
            if self.held[i] == f {
                return true;
            }
        }
        false
    }

    fn release(&mut self, f: KeySpec)
        ensures
            final(self).held@ == without(old(self).held@, f),
            final(self).sides == old(self).sides,
    {
        let mut kept: Vec<KeySpec> = Vec::new();
        proof {
            reveal(Seq::filter);
        }
        for i in 0..self.held.len()
            invariant
                kept@ == without(self.held@.take(i as int), f),
        {
            proof {
                reveal(Seq::filter);
                assert(self.held@.take(i + 1).drop_last() == self.held@.take(i as int));
            }
            if self.held[i] != f {
                kept.push(self.held[i]);
            }
        }
        assert(self.held@.take(self.held@.len() as int) == self.held@);
        self.held = kept;
    }

    fn labels(&self) -> (r: Vec<String>)
        ensures
            search::texts(r@) == self.held@.map_values(|f: KeySpec| modifier_label(f)),
    {
        let mut r: Vec<String> = Vec::new();
        let ghost all = self.held@.map_values(|f: KeySpec| modifier_label(f));
        for i in 0..self.held.len()
            invariant
                all == self.held@.map_values(|f: KeySpec| modifier_label(f)),
                search::texts(r@) == all.take(i as int),
        {
            let label = modifier_name(&self.held[i]);
            proof {
                search::lemma_texts_push(r@, label);
            }
            r.push(label);
            assert(all.take(i + 1) == all.take(i as int).push(all[i as int]));
        }
        assert(all.take(all.len() as int) == all);
        r
    }

    /// Takes one event; `Some` ends the recording.
    pub fn advance(&mut self, event: CaptureEvent) -> (r: Option<Result<CapturedCombo, String>>)
        ensures
            final(self).held@ == held_after(old(self).held@, old(self).sides, event),
            final(self).sides == old(self).sides,
            match capture_end(old(self).held@, event) {
                Some(end) => r is Some && capture_result(r->0, end),
                None => r is None,
            },
    {
        match event {
            CaptureEvent::Cancelled => Some(Err("已取消".to_string())),
            CaptureEvent::TimedOut => Some(Err("录制超时".to_string())),
            CaptureEvent::Raw(RawEvent::KeyPress(key)) => {
                if key == Key::Escape {
                    return Some(Err("已取消".to_string()));
                }
                match as_modifier(&key, self.sides) {
                    Some(f) => {
                        if !self.holds(f) {
                            self.held.push(f);
                        }
                        None
                    },
                    None => match map_rdev_key(&key) {
                        Some(name) => Some(
                            Ok(CapturedCombo { modifiers: self.labels(), key: name }),
                        ),
                        None => None,
                    },
                }
            },
            CaptureEvent::Raw(RawEvent::KeyRelease(key)) => {
                match as_modifier(&key, self.sides) {
                    Some(f) => {
                        self.release(f);
                    },
                    None => {},
                }
                None
            },
            _ => None,
        }
    }
}

/// How recording a single key ends: with the first key that shortcuts can name,
/// by the name that configuration files use for it. A modifier stands for its
/// family unless sides are told apart.
pub open spec fn single_end(event: CaptureEvent, sides: bool) -> Option<Result<Seq<char>, Seq<char>>> {
    match event {
        CaptureEvent::Cancelled => Some(Err("已取消"@)),
        CaptureEvent::TimedOut => Some(Err("录制超时"@)),
        CaptureEvent::Raw(RawEvent::KeyPress(Key::Escape)) => Some(Err("已取消"@)),
        CaptureEvent::Raw(RawEvent::KeyPress(Key::Unknown(_))) => None,
        CaptureEvent::Raw(RawEvent::KeyPress(k)) => Some(
            Ok(
                match modifier_for(k, sides) {
                    Some(m) => m.name(),
                    None => k.name(),
                },
            ),
        ),
        _ => None,
    }
}

/// Takes one event of recording a single key; `Some` ends the recording.
pub fn capture_single(event: CaptureEvent, sides: bool) -> (r: Option<Result<String, String>>)
    ensures
        match single_end(event, sides) {
            Some(Ok(name)) => r matches Some(Ok(n)) && n@ == name,
            Some(Err(e)) => r matches Some(Err(m)) && m@ == e,
            None => r is None,
        },
{
    match event {
        CaptureEvent::Cancelled => Some(Err("已取消".to_string())),
        CaptureEvent::TimedOut => Some(Err("录制超时".to_string())),
        CaptureEvent::Raw(RawEvent::KeyPress(key)) => match key {
            Key::Escape => Some(Err("已取消".to_string())),
            Key::Unknown(_) => None,
            _ => Some(
                Ok(
                    match as_modifier(&key, sides) {
                        Some(m) => m.to_config_name(),
                        None => key.display_name(),
                    },
                ),
            ),
        },
        _ => None,
    }
}

/// No modifier is ever held twice.
pub proof fn law_held_modifiers_are_distinct(held: Seq<KeySpec>, sides: bool, event: CaptureEvent)
    requires
        held.no_duplicates(),
    ensures
        held_after(held, sides, event).no_duplicates(),
{
    match event {
        CaptureEvent::Raw(RawEvent::KeyRelease(k)) => match modifier_for(k, sides) {
            Some(f) => {
                lemma_without(held, f);
            },
            None => {},
        },
        _ => {},
    }
}

proof fn lemma_without(held: Seq<KeySpec>, f: KeySpec)
    requires
        held.no_duplicates(),
    ensures
        without(held, f).no_duplicates(),
        forall|x: KeySpec| #[trigger]
            without(held, f).contains(x) <==> held.contains(x) && x != f,
    decreases held.len(),
{
    reveal(Seq::filter);
    if held.len() > 0 {
        let rest = held.drop_last();
        let last = held.last();
        lemma_without(rest, f);
        assert forall|x: KeySpec| #[trigger] without(held, f).contains(x) implies held.contains(x)
            && x != f by {
            if without(rest, f).contains(x) {
                let i = choose|i: int| 0 <= i < rest.len() && rest[i] == x;
                assert(held[i] == x);
            } else {
                assert(x == last && held[held.len() - 1] == x);
            }
        }
        assert forall|x: KeySpec| held.contains(x) && x != f implies #[trigger] without(
            held,
            f,
        ).contains(x) by {
            let i = choose|i: int| 0 <= i < held.len() && held[i] == x;
            if i < rest.len() {
                assert(rest[i] == x);
                assert(without(rest, f).contains(x));
                let k = choose|k: int| 0 <= k < without(rest, f).len() && without(rest, f)[k] == x;
                assert(without(held, f)[k] == x);
            } else {
                assert(without(held, f).last() == x);
            }
        }
        if last != f {
            assert(!rest.contains(last)) by {
                if rest.contains(last) {
                    let i = choose|i: int| 0 <= i < rest.len() && rest[i] == last;
                    assert(held[i] == held[held.len() - 1]);
                }
            }
            let a = without(rest, f);
            assert(without(held, f) == a.push(last));
            assert(!a.contains(last));
            assert forall|i: int, j: int|
                0 <= i < a.push(last).len() && 0 <= j < a.push(last).len() && i != j implies a.push(
                last,
            )[i] != a.push(last)[j] by {
                if i < a.len() {
                    assert(a.contains(a[i]));
                }
                if j < a.len() {
                    assert(a.contains(a[j]));
                }
            }
        }
    }
}

/// A modifier that goes down is held, behind those that are; one that comes up
/// is not, and the others stay.
pub proof fn law_modifiers_are_held_until_released(
    held: Seq<KeySpec>,
    sides: bool,
    key: Key,
    f: KeySpec,
    other: KeySpec,
)
    requires
        held.no_duplicates(),
        modifier_for(key, sides) == Some(f),
        other != f,
    ensures
        ({
            let down = held_after(held, sides, CaptureEvent::Raw(RawEvent::KeyPress(key)));
            let up = held_after(held, sides, CaptureEvent::Raw(RawEvent::KeyRelease(key)));
            &&& down.contains(f)
            &&& !held.contains(f) ==> down == held.push(f)
            &&& held.contains(f) ==> down == held
            &&& !up.contains(f)
            &&& up.contains(other) <==> held.contains(other)
        }),
{
    lemma_without(held, f);
    let down = held_after(held, sides, CaptureEvent::Raw(RawEvent::KeyPress(key)));
    if !held.contains(f) {
        assert(down[down.len() - 1] == f);
    }
}

/// Recording ends with the first key that commands can name, which is recorded
/// with every modifier that is held, in the order in which they went down.
pub proof fn law_recorded_combinations_are_whole(held: Seq<KeySpec>, key: Key, name: Seq<char>)
    requires
        key != Key::Escape,
        bindings::family_of_key(key) is None,
        command_key_name(key) == Some(name),
    ensures
        capture_end(held, CaptureEvent::Raw(RawEvent::KeyPress(key))) matches Some(
            CaptureEnd::Combo { modifiers, key: k },
        ) && k == name && modifiers.len() == held.len() && forall|i: int|
            0 <= i < held.len() ==> #[trigger] modifiers[i] == modifier_label(held[i]),
{
}

/// Giving up and running out of time end a recording with nothing; modifiers,
/// keys that come up, and keys without a name do not end it.
pub proof fn law_recording_goes_on_until_a_key(
    held: Seq<KeySpec>,
    sides: bool,
    key: Key,
    code: u32,
)
    ensures
        capture_end(held, CaptureEvent::Cancelled) == Some(CaptureEnd::Cancelled),
        capture_end(held, CaptureEvent::TimedOut) == Some(CaptureEnd::TimedOut),
        capture_end(held, CaptureEvent::Raw(RawEvent::KeyPress(Key::Escape))) == Some(
            CaptureEnd::Cancelled,
        ),
        capture_end(held, CaptureEvent::Raw(RawEvent::KeyRelease(key))) is None,
        bindings::family_of_key(key) is Some ==> capture_end(
            held,
            CaptureEvent::Raw(RawEvent::KeyPress(key)),
        ) is None,
        single_end(CaptureEvent::Cancelled, sides) matches Some(Err(_)),
        single_end(CaptureEvent::TimedOut, sides) matches Some(Err(_)),
        single_end(CaptureEvent::Raw(RawEvent::KeyPress(Key::Escape)), sides) matches Some(Err(_)),
        single_end(CaptureEvent::Raw(RawEvent::KeyRelease(key)), sides) is None,
        single_end(CaptureEvent::Raw(RawEvent::KeyPress(Key::Unknown(code))), sides) is None,
        capture_end(held, CaptureEvent::Raw(RawEvent::KeyPress(Key::Unknown(code)))) is None,
{
}

/// A modifier counts as itself where sides are told apart, else as its family;
/// either way it stands for what was pressed.
pub proof fn law_modifiers_stand_for_the_key(key: Key, sides: bool)
    ensures
        modifier_for(key, sides) is Some <==> bindings::modifier_key(key),
        modifier_for(key, sides) matches Some(m) ==> m.accepts(key),
        bindings::modifier_key(key) ==> (modifier_for(key, true) == Some(KeySpec::Exact(key))),
        bindings::modifier_key(key) ==> (modifier_for(key, false) matches Some(KeySpec::Family(_))),
{
}

/// Whatever key is recorded for a command, commands can strike it: the name that
/// it is recorded under is the name of a key.
pub proof fn law_recorded_keys_can_be_struck(key: Key, name: Seq<char>)
    requires
        command_key_name(key) == Some(name),
    ensures
        inject::key_called(name) is Some,
{
    lemma_single_names();
    lemma_long_names();
}

proof fn lemma_single_names()
    ensures
        "A"@.len() == 1 && "A"@[0] == 'A',
        "B"@.len() == 1 && "B"@[0] == 'B',
        "C"@.len() == 1 && "C"@[0] == 'C',
        "D"@.len() == 1 && "D"@[0] == 'D',
        "E"@.len() == 1 && "E"@[0] == 'E',
        "F"@.len() == 1 && "F"@[0] == 'F',
        "G"@.len() == 1 && "G"@[0] == 'G',
        "H"@.len() == 1 && "H"@[0] == 'H',
        "I"@.len() == 1 && "I"@[0] == 'I',
        "J"@.len() == 1 && "J"@[0] == 'J',
        "K"@.len() == 1 && "K"@[0] == 'K',
        "L"@.len() == 1 && "L"@[0] == 'L',
        "M"@.len() == 1 && "M"@[0] == 'M',
        "N"@.len() == 1 && "N"@[0] == 'N',
        "O"@.len() == 1 && "O"@[0] == 'O',
        "P"@.len() == 1 && "P"@[0] == 'P',
        "Q"@.len() == 1 && "Q"@[0] == 'Q',
        "R"@.len() == 1 && "R"@[0] == 'R',
        "S"@.len() == 1 && "S"@[0] == 'S',
        "T"@.len() == 1 && "T"@[0] == 'T',
        "U"@.len() == 1 && "U"@[0] == 'U',
        "V"@.len() == 1 && "V"@[0] == 'V',
        "W"@.len() == 1 && "W"@[0] == 'W',
        "X"@.len() == 1 && "X"@[0] == 'X',
        "Y"@.len() == 1 && "Y"@[0] == 'Y',
        "Z"@.len() == 1 && "Z"@[0] == 'Z',
        "0"@.len() == 1 && "0"@[0] == '0',
        "1"@.len() == 1 && "1"@[0] == '1',
        "2"@.len() == 1 && "2"@[0] == '2',
        "3"@.len() == 1 && "3"@[0] == '3',
        "4"@.len() == 1 && "4"@[0] == '4',
        "5"@.len() == 1 && "5"@[0] == '5',
        "6"@.len() == 1 && "6"@[0] == '6',
        "7"@.len() == 1 && "7"@[0] == '7',
        "8"@.len() == 1 && "8"@[0] == '8',
        "9"@.len() == 1 && "9"@[0] == '9',
{
    reveal_strlit("A");
    reveal_strlit("B");
    reveal_strlit("C");
    reveal_strlit("D");
    reveal_strlit("E");
    reveal_strlit("F");
    reveal_strlit("G");
    reveal_strlit("H");
    reveal_strlit("I");
    reveal_strlit("J");
    reveal_strlit("K");
    reveal_strlit("L");
    reveal_strlit("M");
    reveal_strlit("N");
    reveal_strlit("O");
    reveal_strlit("P");
    reveal_strlit("Q");
    reveal_strlit("R");
    reveal_strlit("S");
    reveal_strlit("T");
    reveal_strlit("U");
    reveal_strlit("V");
    reveal_strlit("W");
    reveal_strlit("X");
    reveal_strlit("Y");
    reveal_strlit("Z");
    reveal_strlit("0");
    reveal_strlit("1");
    reveal_strlit("2");
    reveal_strlit("3");
    reveal_strlit("4");
    reveal_strlit("5");
    reveal_strlit("6");
    reveal_strlit("7");
    reveal_strlit("8");
    reveal_strlit("9");
}

proof fn lemma_long_names()
    ensures
        "ENTER"@.len() == 5,
        "SPACE"@.len() == 5,
        "TAB"@.len() == 3,
        "ESC"@.len() == 3,
        "DELETE"@.len() == 6,
        "UP"@.len() == 2,
        "DOWN"@.len() == 4,
        "LEFT"@.len() == 4,
        "RIGHT"@.len() == 5,
        "F1"@.len() == 2,
        "F2"@.len() == 2,
        "F3"@.len() == 2,
        "F4"@.len() == 2,
        "F5"@.len() == 2,
        "F6"@.len() == 2,
        "F7"@.len() == 2,
        "F8"@.len() == 2,
        "F9"@.len() == 2,
        "F10"@.len() == 3,
        "F11"@.len() == 3,
        "F12"@.len() == 3,
{
    reveal_strlit("ENTER");
    reveal_strlit("SPACE");
    reveal_strlit("TAB");
    reveal_strlit("ESC");
    reveal_strlit("DELETE");
    reveal_strlit("UP");
    reveal_strlit("DOWN");
    reveal_strlit("LEFT");
    reveal_strlit("RIGHT");
    reveal_strlit("F1");
    reveal_strlit("F2");
    reveal_strlit("F3");
    reveal_strlit("F4");
    reveal_strlit("F5");
    reveal_strlit("F6");
    reveal_strlit("F7");
    reveal_strlit("F8");
    reveal_strlit("F9");
    reveal_strlit("F10");
    reveal_strlit("F11");
    reveal_strlit("F12");
}

/// Letters and digits are recorded as the characters that their keys are named
/// after, and function keys under their own names.
pub proof fn law_recorded_names_are_those_of_the_key(key: Key, name: Seq<char>)
    requires
        command_key_name(key) == Some(name),
    ensures
        name.len() == 1 && text::ascii_alphabetic(name[0]) ==> key.name() == "Key"@ + name,
        name.len() == 1 && text::ascii_digit(name[0]) ==> key.name() == "Num"@ + name,
        name.len() > 1 && name[0] == 'F' ==> key.name() == name,
{
    lemma_single_names();
    lemma_long_names();
    lemma_letter_names();
    lemma_digit_names();
}

proof fn lemma_letter_names()
    ensures
        "KeyA"@ == "Key"@ + "A"@,
        "KeyB"@ == "Key"@ + "B"@,
        "KeyC"@ == "Key"@ + "C"@,
        "KeyD"@ == "Key"@ + "D"@,
        "KeyE"@ == "Key"@ + "E"@,
        "KeyF"@ == "Key"@ + "F"@,
        "KeyG"@ == "Key"@ + "G"@,
        "KeyH"@ == "Key"@ + "H"@,
        "KeyI"@ == "Key"@ + "I"@,
        "KeyJ"@ == "Key"@ + "J"@,
        "KeyK"@ == "Key"@ + "K"@,
        "KeyL"@ == "Key"@ + "L"@,
        "KeyM"@ == "Key"@ + "M"@,
        "KeyN"@ == "Key"@ + "N"@,
        "KeyO"@ == "Key"@ + "O"@,
        "KeyP"@ == "Key"@ + "P"@,
        "KeyQ"@ == "Key"@ + "Q"@,
        "KeyR"@ == "Key"@ + "R"@,
        "KeyS"@ == "Key"@ + "S"@,
        "KeyT"@ == "Key"@ + "T"@,
        "KeyU"@ == "Key"@ + "U"@,
        "KeyV"@ == "Key"@ + "V"@,
        "KeyW"@ == "Key"@ + "W"@,
        "KeyX"@ == "Key"@ + "X"@,
        "KeyY"@ == "Key"@ + "Y"@,
        "KeyZ"@ == "Key"@ + "Z"@,
{
    reveal_strlit("Key");
    reveal_strlit("A");
    reveal_strlit("KeyA");
    assert("KeyA"@ =~= "Key"@ + "A"@);
    reveal_strlit("B");
    reveal_strlit("KeyB");
    assert("KeyB"@ =~= "Key"@ + "B"@);
    reveal_strlit("C");
    reveal_strlit("KeyC");
    assert("KeyC"@ =~= "Key"@ + "C"@);
    reveal_strlit("D");
    reveal_strlit("KeyD");
    assert("KeyD"@ =~= "Key"@ + "D"@);
    reveal_strlit("E");
    reveal_strlit("KeyE");
    assert("KeyE"@ =~= "Key"@ + "E"@);
    reveal_strlit("F");
    reveal_strlit("KeyF");
    assert("KeyF"@ =~= "Key"@ + "F"@);
    reveal_strlit("G");
    reveal_strlit("KeyG");
    assert("KeyG"@ =~= "Key"@ + "G"@);
    reveal_strlit("H");
    reveal_strlit("KeyH");
    assert("KeyH"@ =~= "Key"@ + "H"@);
    reveal_strlit("I");
    reveal_strlit("KeyI");
    assert("KeyI"@ =~= "Key"@ + "I"@);
    reveal_strlit("J");
    reveal_strlit("KeyJ");
    assert("KeyJ"@ =~= "Key"@ + "J"@);
    reveal_strlit("K");
    reveal_strlit("KeyK");
    assert("KeyK"@ =~= "Key"@ + "K"@);
    reveal_strlit("L");
    reveal_strlit("KeyL");
    assert("KeyL"@ =~= "Key"@ + "L"@);
    reveal_strlit("M");
    reveal_strlit("KeyM");
    assert("KeyM"@ =~= "Key"@ + "M"@);
    reveal_strlit("N");
    reveal_strlit("KeyN");
    assert("KeyN"@ =~= "Key"@ + "N"@);
    reveal_strlit("O");
    reveal_strlit("KeyO");
    assert("KeyO"@ =~= "Key"@ + "O"@);
    reveal_strlit("P");
    reveal_strlit("KeyP");
    assert("KeyP"@ =~= "Key"@ + "P"@);
    reveal_strlit("Q");
    reveal_strlit("KeyQ");
    assert("KeyQ"@ =~= "Key"@ + "Q"@);
    reveal_strlit("R");
    reveal_strlit("KeyR");
    assert("KeyR"@ =~= "Key"@ + "R"@);
    reveal_strlit("S");
    reveal_strlit("KeyS");
    assert("KeyS"@ =~= "Key"@ + "S"@);
    reveal_strlit("T");
    reveal_strlit("KeyT");
    assert("KeyT"@ =~= "Key"@ + "T"@);
    reveal_strlit("U");
    reveal_strlit("KeyU");
    assert("KeyU"@ =~= "Key"@ + "U"@);
    reveal_strlit("V");
    reveal_strlit("KeyV");
    assert("KeyV"@ =~= "Key"@ + "V"@);
    reveal_strlit("W");
    reveal_strlit("KeyW");
    assert("KeyW"@ =~= "Key"@ + "W"@);
    reveal_strlit("X");
    reveal_strlit("KeyX");
    assert("KeyX"@ =~= "Key"@ + "X"@);
    reveal_strlit("Y");
    reveal_strlit("KeyY");
    assert("KeyY"@ =~= "Key"@ + "Y"@);
    reveal_strlit("Z");
    reveal_strlit("KeyZ");
    assert("KeyZ"@ =~= "Key"@ + "Z"@);
}

proof fn lemma_digit_names()
    ensures
        "Num0"@ == "Num"@ + "0"@,
        "Num1"@ == "Num"@ + "1"@,
        "Num2"@ == "Num"@ + "2"@,
        "Num3"@ == "Num"@ + "3"@,
        "Num4"@ == "Num"@ + "4"@,
        "Num5"@ == "Num"@ + "5"@,
        "Num6"@ == "Num"@ + "6"@,
        "Num7"@ == "Num"@ + "7"@,
        "Num8"@ == "Num"@ + "8"@,
        "Num9"@ == "Num"@ + "9"@,
        "ENTER"@[0] == 'E' && "SPACE"@[0] == 'S' && "TAB"@[0] == 'T' && "ESC"@[0] == 'E',
        "DELETE"@[0] == 'D' && "UP"@[0] == 'U' && "DOWN"@[0] == 'D' && "LEFT"@[0] == 'L',
        "RIGHT"@[0] == 'R',
{
    reveal_strlit("Num");
    reveal_strlit("0");
    reveal_strlit("Num0");
    assert("Num0"@ =~= "Num"@ + "0"@);
    reveal_strlit("1");
    reveal_strlit("Num1");
    assert("Num1"@ =~= "Num"@ + "1"@);
    reveal_strlit("2");
    reveal_strlit("Num2");
    assert("Num2"@ =~= "Num"@ + "2"@);
    reveal_strlit("3");
    reveal_strlit("Num3");
    assert("Num3"@ =~= "Num"@ + "3"@);
    reveal_strlit("4");
    reveal_strlit("Num4");
    assert("Num4"@ =~= "Num"@ + "4"@);
    reveal_strlit("5");
    reveal_strlit("Num5");
    assert("Num5"@ =~= "Num"@ + "5"@);
    reveal_strlit("6");
    reveal_strlit("Num6");
    assert("Num6"@ =~= "Num"@ + "6"@);
    reveal_strlit("7");
    reveal_strlit("Num7");
    assert("Num7"@ =~= "Num"@ + "7"@);
    reveal_strlit("8");
    reveal_strlit("Num8");
    assert("Num8"@ =~= "Num"@ + "8"@);
    reveal_strlit("9");
    reveal_strlit("Num9");
    assert("Num9"@ =~= "Num"@ + "9"@);
    reveal_strlit("ENTER");
    reveal_strlit("SPACE");
    reveal_strlit("TAB");
    reveal_strlit("ESC");
    reveal_strlit("DELETE");
    reveal_strlit("UP");
    reveal_strlit("DOWN");
    reveal_strlit("LEFT");
    reveal_strlit("RIGHT");
}

/// A modifier that is recorded for a command, once written and read back, is of
/// the family of the key that was pressed.
pub proof fn law_recorded_modifiers_are_read_back(key: Key, sides: bool, m: KeySpec)
    requires
        modifier_for(key, sides) == Some(m),
    ensures
        combo::Modifier::named(modifier_label(m)) matches Some(r) && r.family_of()
            == match bindings::family_of_key(key)->0 {
            ModFamily::Control => combo::ModifierFamily::Control,
            ModFamily::Meta => combo::ModifierFamily::Command,
            ModFamily::Alt => combo::ModifierFamily::Option,
            ModFamily::Shift => combo::ModifierFamily::Shift,
        },
{
    lemma_modifier_names();
    lemma_lower_labels();
}

/// How long a name is, and its first three characters.
spec fn outset(s: Seq<char>) -> (nat, char, char, char) {
    (s.len(), s[0], s[1], s[2])
}

proof fn lemma_modifier_names()
    ensures
        outset("command"@) == (7nat, 'c', 'o', 'm'),
        outset("cmd"@) == (3nat, 'c', 'm', 'd'),
        outset("meta"@) == (4nat, 'm', 'e', 't'),
        outset("super"@) == (5nat, 's', 'u', 'p'),
        outset("win"@) == (3nat, 'w', 'i', 'n'),
        outset("commandleft"@) == (11nat, 'c', 'o', 'm'),
        outset("cmdleft"@) == (7nat, 'c', 'm', 'd'),
        outset("metaleft"@) == (8nat, 'm', 'e', 't'),
        outset("superleft"@) == (9nat, 's', 'u', 'p'),
        outset("winleft"@) == (7nat, 'w', 'i', 'n'),
        outset("commandright"@) == (12nat, 'c', 'o', 'm'),
        outset("cmdright"@) == (8nat, 'c', 'm', 'd'),
        outset("metaright"@) == (9nat, 'm', 'e', 't'),
        outset("superright"@) == (10nat, 's', 'u', 'p'),
        outset("winright"@) == (8nat, 'w', 'i', 'n'),
        outset("shift"@) == (5nat, 's', 'h', 'i'),
        outset("shiftleft"@) == (9nat, 's', 'h', 'i'),
        outset("shiftright"@) == (10nat, 's', 'h', 'i'),
        outset("control"@) == (7nat, 'c', 'o', 'n'),
        outset("ctrl"@) == (4nat, 'c', 't', 'r'),
        outset("ctl"@) == (3nat, 'c', 't', 'l'),
        outset("controlleft"@) == (11nat, 'c', 'o', 'n'),
        outset("ctrlleft"@) == (8nat, 'c', 't', 'r'),
        outset("ctlleft"@) == (7nat, 'c', 't', 'l'),
        outset("controlright"@) == (12nat, 'c', 'o', 'n'),
        outset("ctrlright"@) == (9nat, 'c', 't', 'r'),
        outset("ctlright"@) == (8nat, 'c', 't', 'l'),
        outset("option"@) == (6nat, 'o', 'p', 't'),
        outset("opt"@) == (3nat, 'o', 'p', 't'),
        outset("alt"@) == (3nat, 'a', 'l', 't'),
        outset("optionleft"@) == (10nat, 'o', 'p', 't'),
        outset("optleft"@) == (7nat, 'o', 'p', 't'),
        outset("altleft"@) == (7nat, 'a', 'l', 't'),
        outset("optionright"@) == (11nat, 'o', 'p', 't'),
        outset("optright"@) == (8nat, 'o', 'p', 't'),
        outset("altright"@) == (8nat, 'a', 'l', 't'),
        outset("altgr"@) == (5nat, 'a', 'l', 't'),
{
    reveal_strlit("command");
    reveal_strlit("cmd");
    reveal_strlit("meta");
    reveal_strlit("super");
    reveal_strlit("win");
    reveal_strlit("commandleft");
    reveal_strlit("cmdleft");
    reveal_strlit("metaleft");
    reveal_strlit("superleft");
    reveal_strlit("winleft");
    reveal_strlit("commandright");
    reveal_strlit("cmdright");
    reveal_strlit("metaright");
    reveal_strlit("superright");
    reveal_strlit("winright");
    reveal_strlit("shift");
    reveal_strlit("shiftleft");
    reveal_strlit("shiftright");
    reveal_strlit("control");
    reveal_strlit("ctrl");
    reveal_strlit("ctl");
    reveal_strlit("controlleft");
    reveal_strlit("ctrlleft");
    reveal_strlit("ctlleft");
    reveal_strlit("controlright");
    reveal_strlit("ctrlright");
    reveal_strlit("ctlright");
    reveal_strlit("option");
    reveal_strlit("opt");
    reveal_strlit("alt");
    reveal_strlit("optionleft");
    reveal_strlit("optleft");
    reveal_strlit("altleft");
    reveal_strlit("optionright");
    reveal_strlit("optright");
    reveal_strlit("altright");
    reveal_strlit("altgr");
}

proof fn lemma_lower_labels()
    ensures
        text::ascii_lower_text("Ctrl"@) == "ctrl"@,
        text::ascii_lower_text("Cmd"@) == "cmd"@,
        text::ascii_lower_text("Opt"@) == "opt"@,
        text::ascii_lower_text("Shift"@) == "shift"@,
        text::ascii_lower_text("AltLeft"@) == "altleft"@,
        text::ascii_lower_text("AltGr"@) == "altgr"@,
        text::ascii_lower_text("ControlLeft"@) == "controlleft"@,
        text::ascii_lower_text("ControlRight"@) == "controlright"@,
        text::ascii_lower_text("MetaLeft"@) == "metaleft"@,
        text::ascii_lower_text("MetaRight"@) == "metaright"@,
        text::ascii_lower_text("ShiftLeft"@) == "shiftleft"@,
        text::ascii_lower_text("ShiftRight"@) == "shiftright"@,
{
    reveal_strlit("Ctrl");
    reveal_strlit("ctrl");
    assert(text::ascii_lower_text("Ctrl"@) =~= "ctrl"@);
    reveal_strlit("Cmd");
    reveal_strlit("cmd");
    assert(text::ascii_lower_text("Cmd"@) =~= "cmd"@);
    reveal_strlit("Opt");
    reveal_strlit("opt");
    assert(text::ascii_lower_text("Opt"@) =~= "opt"@);
    reveal_strlit("Shift");
    reveal_strlit("shift");
    assert(text::ascii_lower_text("Shift"@) =~= "shift"@);
    reveal_strlit("AltLeft");
    reveal_strlit("altleft");
    assert(text::ascii_lower_text("AltLeft"@) =~= "altleft"@);
    reveal_strlit("AltGr");
    reveal_strlit("altgr");
    assert(text::ascii_lower_text("AltGr"@) =~= "altgr"@);
    reveal_strlit("ControlLeft");
    reveal_strlit("controlleft");
    assert(text::ascii_lower_text("ControlLeft"@) =~= "controlleft"@);
    reveal_strlit("ControlRight");
    reveal_strlit("controlright");
    assert(text::ascii_lower_text("ControlRight"@) =~= "controlright"@);
    reveal_strlit("MetaLeft");
    reveal_strlit("metaleft");
    assert(text::ascii_lower_text("MetaLeft"@) =~= "metaleft"@);
    reveal_strlit("MetaRight");
    reveal_strlit("metaright");
    assert(text::ascii_lower_text("MetaRight"@) =~= "metaright"@);
    reveal_strlit("ShiftLeft");
    reveal_strlit("shiftleft");
    assert(text::ascii_lower_text("ShiftLeft"@) =~= "shiftleft"@);
    reveal_strlit("ShiftRight");
    reveal_strlit("shiftright");
    assert(text::ascii_lower_text("ShiftRight"@) =~= "shiftright"@);
}

} // verus!
