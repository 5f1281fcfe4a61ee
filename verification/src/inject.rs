//! Keys that are struck, and text that is pasted, in place of the user.
use crate::command::combo;
use crate::command::combo::{KeyCombo, Modifier, ModifierFamily};
use crate::hotkey::bindings::Platform;
use crate::search;
use crate::text;
use vstd::prelude::*;

verus! {

/// A key that can be struck.
#[derive(Debug, Clone, Copy, PartialEq, Eq, Structural)]
pub enum StrokeKey {
    /// A letter in lower case, or a digit.
    Character(char),
    Return,
    Space,
    Tab,
    Escape,
    Backspace,
    Up,
    Down,
    Left,
    Right,
    /// F1 to F12.
    Function(u8),
    Meta,
    Shift,
    Control,
    Option,
}

#[derive(Debug, Clone, Copy, PartialEq, Eq, Structural)]
pub enum Stroke {
    Press(StrokeKey),
    Click(StrokeKey),
    Release(StrokeKey),
}

/// The key that a command means by a name.
pub open spec fn key_called(name: Seq<char>) -> Option<StrokeKey> {
    if name.len() == 1 && text::ascii_alphanumeric(name[0]) {
        Some(StrokeKey::Character(text::ascii_lower(name[0])))
    } else if name == "ENTER"@ {
        Some(StrokeKey::Return)
    } else if name == "SPACE"@ {
        Some(StrokeKey::Space)
    } else if name == "TAB"@ {
        Some(StrokeKey::Tab)
    } else if name == "ESC"@ {
        Some(StrokeKey::Escape)
    } else if name == "DELETE"@ {
        Some(StrokeKey::Backspace)
    } else if name == "UP"@ {
        Some(StrokeKey::Up)
    } else if name == "DOWN"@ {
        Some(StrokeKey::Down)
    } else if name == "LEFT"@ {
        Some(StrokeKey::Left)
    } else if name == "RIGHT"@ {
        Some(StrokeKey::Right)
    } else if name == "F1"@ {
        Some(StrokeKey::Function(1))
    } else if name == "F2"@ {
        Some(StrokeKey::Function(2))
    } else if name == "F3"@ {
        Some(StrokeKey::Function(3))
    } else if name == "F4"@ {
        Some(StrokeKey::Function(4))
    } else if name == "F5"@ {
        Some(StrokeKey::Function(5))
    } else if name == "F6"@ {
        Some(StrokeKey::Function(6))
    } else if name == "F7"@ {
        Some(StrokeKey::Function(7))
    } else if name == "F8"@ {
        Some(StrokeKey::Function(8))
    } else if name == "F9"@ {
        Some(StrokeKey::Function(9))
    } else if name == "F10"@ {
        Some(StrokeKey::Function(10))
    } else if name == "F11"@ {
        Some(StrokeKey::Function(11))
    } else if name == "F12"@ {
        Some(StrokeKey::Function(12))
    } else {
        None
    }
}

/// The key of a name, where it can be struck.
pub fn stroke_key(name: &str) -> (r: Result<StrokeKey, String>)
    ensures
        match key_called(name@) {
            Some(k) => r == Ok::<StrokeKey, String>(k),
            None => r is Err && r->Err_0@ == "不支持的键名："@ + name@,
        },
{
    let cs = text::chars_of(name);
    if cs.len() == 1 && text::is_ascii_alphanumeric(cs[0]) {
        Ok(StrokeKey::Character(text::to_ascii_lower(cs[0])))
    } else if text::same(name, "ENTER") {
        Ok(StrokeKey::Return)
    } else if text::same(name, "SPACE") {
        Ok(StrokeKey::Space)
    } else if text::same(name, "TAB") {
        Ok(StrokeKey::Tab)
    } else if text::same(name, "ESC") {
        Ok(StrokeKey::Escape)
    } else if text::same(name, "DELETE") {
        Ok(StrokeKey::Backspace)
    } else if text::same(name, "UP") {
        Ok(StrokeKey::Up)
    } else if text::same(name, "DOWN") {
        Ok(StrokeKey::Down)
    } else if text::same(name, "LEFT") {
        Ok(StrokeKey::Left)
    } else if text::same(name, "RIGHT") {
        Ok(StrokeKey::Right)
    } else if text::same(name, "F1") {
        Ok(StrokeKey::Function(1))
    } else if text::same(name, "F2") {
        Ok(StrokeKey::Function(2))
    } else if text::same(name, "F3") {
        Ok(StrokeKey::Function(3))
    } else if text::same(name, "F4") {
        Ok(StrokeKey::Function(4))
    } else if text::same(name, "F5") {
        Ok(StrokeKey::Function(5))
    } else if text::same(name, "F6") {
        Ok(StrokeKey::Function(6))
    } else if text::same(name, "F7") {
        Ok(StrokeKey::Function(7))
    } else if text::same(name, "F8") {
        Ok(StrokeKey::Function(8))
    } else if text::same(name, "F9") {
        Ok(StrokeKey::Function(9))
    } else if text::same(name, "F10") {
        Ok(StrokeKey::Function(10))
    } else if text::same(name, "F11") {
        Ok(StrokeKey::Function(11))
    } else if text::same(name, "F12") {
        Ok(StrokeKey::Function(12))
    } else {
        Err(search::concat("不支持的键名：", name))
    }
}

/// The key that stands for a modifier. On Windows the shortcuts of macOS are
/// struck with the control key.
pub open spec fn modifier_of(m: Modifier, platform: Platform) -> StrokeKey {
    match (m.family_of(), platform) {
        (ModifierFamily::Command, Platform::Macos) => StrokeKey::Meta,
        (ModifierFamily::Command, Platform::Windows) => StrokeKey::Control,
        (ModifierFamily::Shift, _) => StrokeKey::Shift,
        (ModifierFamily::Control, _) => StrokeKey::Control,
        (ModifierFamily::Option, _) => StrokeKey::Option,
    }
}

pub fn modifier_key(m: Modifier, platform: Platform) -> (r: StrokeKey)
    ensures
        r == modifier_of(m, platform),
{
    match m.family() {
        ModifierFamily::Command => match platform {
            Platform::Macos => StrokeKey::Meta,
            Platform::Windows => StrokeKey::Control,
        },
        ModifierFamily::Shift => StrokeKey::Shift,
        ModifierFamily::Control => StrokeKey::Control,
        ModifierFamily::Option => StrokeKey::Option,
    }
}

pub open spec fn presses(modifiers: Seq<Modifier>, platform: Platform) -> Seq<Stroke> {
    modifiers.map_values(|m: Modifier| Stroke::Press(modifier_of(m, platform)))
}

pub open spec fn releases(modifiers: Seq<Modifier>, platform: Platform) -> Seq<Stroke> {
    modifiers.map_values(|m: Modifier| Stroke::Release(modifier_of(m, platform))).reverse()
}

/// The modifiers are pressed in order, the key is struck, and the modifiers are
/// released the other way round. A key that cannot be struck is found out after
/// the modifiers have been pressed.
pub open spec fn strokes_of(c: combo::ComboView, platform: Platform) -> Seq<Stroke> {
    match key_called(c.key) {
        Some(k) => presses(c.modifiers, platform) + seq![Stroke::Click(k)] + releases(
            c.modifiers,
            platform,
        ),
        None => presses(c.modifiers, platform),
    }
}

/// The strokes of a combination, and what is said afterwards where its key
/// cannot be struck.
pub fn combo_strokes(combo: &KeyCombo, platform: Platform) -> (r: (Vec<Stroke>, Result<(), String>))
    ensures
        r.0@ == strokes_of(combo@, platform),
        r.1 is Ok <==> key_called(combo.key@) is Some,
        r.1 is Err ==> r.1->Err_0@ == "不支持的键名："@ + combo.key@,
{
    let mut out: Vec<Stroke> = Vec::new();
    for i in 0..combo.modifiers.len()
        invariant
            out@.len() == i,
            forall|j: int|
                0 <= j < i ==> #[trigger] out@[j] == presses(combo.modifiers@, platform)[j],
    {
        out.push(Stroke::Press(modifier_key(combo.modifiers[i], platform)));
    }
    assert(out@ =~= presses(combo.modifiers@, platform));
    match stroke_key(&combo.key) {
        Ok(k) => {
            out.push(Stroke::Click(k));
            let n: usize = combo.modifiers.len();
            let ghost down = presses(combo.modifiers@, platform) + seq![Stroke::Click(k)];
            let ghost up = releases(combo.modifiers@, platform);
            assert(out@ =~= down);
            for i in 0..n
                invariant
                    n == combo.modifiers@.len(),
                    up == releases(combo.modifiers@, platform),
                    out@ == down + up.take(i as int),
            {
                out.push(Stroke::Release(modifier_key(combo.modifiers[n - 1 - i], platform)));
                assert(up.take(i + 1) =~= up.take(i as int).push(up[i as int]));
                assert(down + up.take(i + 1) =~= (down + up.take(i as int)).push(up[i as int]));
            }
            assert(up.take(n as int) == up);
            (out, Ok(()))
        },
        Err(e) => (out, Err(e)),
    }
}

// ---------------------------------------------------------------------------
// Pasting
// ---------------------------------------------------------------------------

/// The clipboard takes this long to hold what was put there.
pub const CLIPBOARD_MS: u64 = 60;

/// The application takes this long to fetch what is pasted.
pub const PASTE_MS: u64 = 150;

/// One step of pasting.
#[derive(Debug)]
pub enum PasteStep {
    /// Put the text on the clipboard; where that fails, pasting does.
    Copy(String),
    Wait(u64),
    /// Strike the keys; whether that worked is how pasting went.
    Strike(Vec<Stroke>),
    /// Put back what the clipboard held; it does not matter whether that works.
    Restore(String),
}

/// What a [`PasteStep`] stands for.
#[verifier::ext_equal]
pub enum Step {
    Copy(Seq<char>),
    Wait(u64),
    Strike(Seq<Stroke>),
    Restore(Seq<char>),
}

impl View for PasteStep {
    type V = Step;

    open spec fn view(&self) -> Step {
        match self {
            PasteStep::Copy(s) => Step::Copy(s@),
            PasteStep::Wait(ms) => Step::Wait(*ms),
            PasteStep::Strike(v) => Step::Strike(v@),
            PasteStep::Restore(s) => Step::Restore(s@),
        }
    }
}

pub open spec fn steps(v: Seq<PasteStep>) -> Seq<Step> {
    v.map_values(|s: PasteStep| s@)
}

/// The keys that paste.
pub open spec fn paste_combo(platform: Platform) -> combo::ComboView {
    combo::ComboView {
        modifiers: seq![
            match platform {
                Platform::Macos => Modifier::Command,
                Platform::Windows => Modifier::Control,
            },
        ],
        key: "V"@,
    }
}

/// The text goes over the clipboard, which afterwards holds what it held, if
/// that was text.
pub open spec fn pasting(
    text: Seq<char>,
    previous: Option<Seq<char>>,
    platform: Platform,
) -> Seq<Step> {
    let paste = seq![
        Step::Copy(text),
        Step::Wait(CLIPBOARD_MS),
        Step::Strike(strokes_of(paste_combo(platform), platform)),
        Step::Wait(PASTE_MS),
    ];
    match previous {
        Some(p) => paste.push(Step::Restore(p)),
        None => paste,
    }
}

/// How `text` is pasted where the clipboard holds `previous`.
pub fn paste_text(text: &str, previous: Option<String>, platform: Platform) -> (r: Vec<PasteStep>)
    ensures
        steps(r@) == pasting(text@, combo::opt_text(previous), platform),
{
    let modifier = match platform {
        Platform::Macos => Modifier::Command,
        Platform::Windows => Modifier::Control,
    };
    let combo = KeyCombo { modifiers: vec![modifier], key: "V".to_string() };
    assert(combo@ =~= paste_combo(platform));
    let (strokes, _) = combo_strokes(&combo, platform);
    let mut out = vec![
        PasteStep::Copy(text.to_string()),
        PasteStep::Wait(CLIPBOARD_MS),
        PasteStep::Strike(strokes),
        PasteStep::Wait(PASTE_MS),
    ];
    let ghost first = steps(out@);
    assert(first =~= pasting(text@, None, platform));
    if let Some(p) = previous {
        out.push(PasteStep::Restore(p));
        assert(steps(out@) =~= first.push(Step::Restore(p@)));
    }
    out
}

// ---------------------------------------------------------------------------
// Laws
// ---------------------------------------------------------------------------

/// How often a key is held after strokes: pressed and not yet released.
pub open spec fn held(v: Seq<Stroke>, k: StrokeKey) -> int
    decreases v.len(),
{
    if v.len() == 0 {
        0
    } else {
        held(v.drop_last(), k) + (if v.last() == Stroke::Press(k) {
            1
        } else if v.last() == Stroke::Release(k) {
            -1int
        } else {
            0
        })
    }
}

proof fn lemma_held_adds(a: Seq<Stroke>, b: Seq<Stroke>, k: StrokeKey)
    ensures
        held(a + b, k) == held(a, k) + held(b, k),
    decreases b.len(),
{
    if b.len() == 0 {
        assert(a + b =~= a);
    } else {
        assert((a + b).drop_last() =~= a + b.drop_last());
        lemma_held_adds(a, b.drop_last(), k);
    }
}

proof fn lemma_what_is_pressed_is_released(modifiers: Seq<Modifier>, platform: Platform, k: StrokeKey)
    ensures
        held(presses(modifiers, platform), k) + held(releases(modifiers, platform), k) == 0,
    decreases modifiers.len(),
{
    if modifiers.len() > 0 {
        let head = modifiers.drop_last();
        let m = modifier_of(modifiers.last(), platform);
        lemma_what_is_pressed_is_released(head, platform, k);
        assert(presses(modifiers, platform).drop_last() =~= presses(head, platform));
        assert(presses(modifiers, platform).last() == Stroke::Press(m));
        let one = seq![Stroke::Release(m)];
        assert(releases(modifiers, platform) =~= one + releases(head, platform));
        lemma_held_adds(one, releases(head, platform), k);
        assert(one.drop_last() =~= Seq::<Stroke>::empty());
        assert(one.last() == Stroke::Release(m));
        reveal_with_fuel(held, 2);
    } else {
        assert(releases(modifiers, platform) =~= Seq::<Stroke>::empty());
    }
}

/// No key stays down after a combination that can be struck.
pub proof fn law_no_key_stays_down(c: combo::ComboView, platform: Platform, k: StrokeKey)
    requires
        key_called(c.key) is Some,
    ensures
        held(strokes_of(c, platform), k) == 0,
{
    let click = seq![Stroke::Click(key_called(c.key)->0)];
    let down = presses(c.modifiers, platform);
    let up = releases(c.modifiers, platform);
    lemma_held_adds(down + click, up, k);
    lemma_held_adds(down, click, k);
    lemma_what_is_pressed_is_released(c.modifiers, platform, k);
    assert(click.drop_last() =~= Seq::<Stroke>::empty());
    reveal_with_fuel(held, 2);
}

/// What the clipboard holds after steps that all work.
pub open spec fn clipboard_after(held: Option<Seq<char>>, v: Seq<Step>) -> Option<Seq<char>>
    decreases v.len(),
{
    if v.len() == 0 {
        held
    } else {
        match v.last() {
            Step::Copy(s) => Some(s),
            Step::Restore(s) => Some(s),
            _ => clipboard_after(held, v.drop_last()),
        }
    }
}

/// Text that the clipboard held is there again after pasting.
pub proof fn law_clipboard_is_given_back(text: Seq<char>, previous: Seq<char>, platform: Platform)
    ensures
        clipboard_after(Some(previous), pasting(text, Some(previous), platform)) == Some(previous),
{
    let v = pasting(text, Some(previous), platform);
    assert(v.last() == Step::Restore(previous));
}

/// The keys that paste can be struck.
pub proof fn law_pasting_can_be_struck(platform: Platform)
    ensures
        key_called(paste_combo(platform).key) == Some(StrokeKey::Character('v')),
{
    reveal_strlit("V");
}

/// A combination that can be struck: its modifiers go down in order, its key is
/// struck while they are held, and they come up the other way round.
pub proof fn law_modifiers_enclose_the_key(
    c: combo::ComboView,
    platform: Platform,
    k: StrokeKey,
    i: int,
)
    requires
        key_called(c.key) == Some(k),
        0 <= i < c.modifiers.len(),
    ensures
        ({
            let v = strokes_of(c, platform);
            let n = c.modifiers.len() as int;
            &&& v.len() == 2 * n + 1
            &&& v[i] == Stroke::Press(modifier_of(c.modifiers[i], platform))
            &&& v[n] == Stroke::Click(k)
            &&& v[2 * n - i] == Stroke::Release(modifier_of(c.modifiers[i], platform))
        }),
{
}

/// A single letter or digit is struck as such, whatever its case, and `F1` to
/// `F12` are struck as the function keys that they name.
pub proof fn law_keys_are_struck_by_name(c: char, n: nat)
    ensures
        text::ascii_alphanumeric(c) ==> key_called(seq![c]) == Some(
            StrokeKey::Character(text::ascii_lower(c)),
        ),
        1 <= n <= 12 ==> key_called(seq!['F'] + search::decimal(n)) == Some(
            StrokeKey::Function(n as u8),
        ),
{
    if text::ascii_alphanumeric(c) {
        assert(seq![c].len() == 1 && seq![c][0] == c);
    }
    if 1 <= n <= 12 {
        let name = seq!['F'] + search::decimal(n);
        reveal_with_fuel(search::decimal, 3);
        reveal_strlit("ENTER");
        reveal_strlit("SPACE");
        reveal_strlit("TAB");
        reveal_strlit("ESC");
        reveal_strlit("DELETE");
        reveal_strlit("UP");
        reveal_strlit("DOWN");
        reveal_strlit("LEFT");
        reveal_strlit("RIGHT");
        reveal_strlit("F1");
        reveal_strlit("F2");
        reveal_strlit("F3");
        reveal_strlit("F4");
        reveal_strlit("F5");
        reveal_strlit("F6");
        reveal_strlit("F7");
        reveal_strlit("F8");
        reveal_strlit("F9");
        reveal_strlit("F10");
        reveal_strlit("F11");
        reveal_strlit("F12");
        assert("ENTER"@[0] == 'E' && "SPACE"@[0] == 'S' && "TAB"@[0] == 'T' && "ESC"@[0] == 'E');
        assert("DELETE"@[0] == 'D' && "UP"@[0] == 'U' && "DOWN"@[0] == 'D' && "LEFT"@[0] == 'L');
        assert("RIGHT"@[0] == 'R' && name[0] == 'F');
        assert("F1"@[1] == '1' && "F2"@[1] == '2' && "F3"@[1] == '3' && "F4"@[1] == '4');
        assert("F5"@[1] == '5' && "F6"@[1] == '6' && "F7"@[1] == '7' && "F8"@[1] == '8');
        assert("F9"@[1] == '9' && "F10"@[2] == '0' && "F11"@[2] == '1' && "F12"@[2] == '2');
        if n == 1 {
            assert(name =~= "F1"@);
        } else if n == 2 {
            assert(name =~= "F2"@);
        } else if n == 3 {
            assert(name =~= "F3"@);
        } else if n == 4 {
            assert(name =~= "F4"@);
        } else if n == 5 {
            assert(name =~= "F5"@);
        } else if n == 6 {
            assert(name =~= "F6"@);
        } else if n == 7 {
            assert(name =~= "F7"@);
        } else if n == 8 {
            assert(name =~= "F8"@);
        } else if n == 9 {
            assert(name =~= "F9"@);
        } else if n == 10 {
            assert(name =~= "F10"@);
        } else if n == 11 {
            assert(name =~= "F11"@);
        } else {
            assert(name =~= "F12"@);
        }
    }
}

/// A modifier is struck as the key of its family; the one of macOS for
/// shortcuts is the control key on Windows, so that both sides of a key, and the
/// shortcuts of either platform, are struck alike.
pub proof fn law_modifiers_are_struck_by_family(a: Modifier, b: Modifier, platform: Platform)
    ensures
        a.family_of() == b.family_of() ==> modifier_of(a, platform) == modifier_of(b, platform),
        modifier_of(a, platform) == modifier_of(b, platform) && platform is Macos ==> a.family_of()
            == b.family_of(),
        a.family_of() == ModifierFamily::Shift ==> modifier_of(a, platform) == StrokeKey::Shift,
        a.family_of() == ModifierFamily::Control ==> modifier_of(a, platform)
            == StrokeKey::Control,
        a.family_of() == ModifierFamily::Option ==> modifier_of(a, platform) == StrokeKey::Option,
        a.family_of() == ModifierFamily::Command ==> modifier_of(a, platform) == if platform
            is Macos {
            StrokeKey::Meta
        } else {
            StrokeKey::Control
        },
{
}

/// The text is on the clipboard, and has had time to get there, when the keys
/// are struck, and what the clipboard held comes back only after the application
/// has had time to fetch the text.
pub proof fn law_the_text_is_what_is_pasted(
    text: Seq<char>,
    previous: Option<Seq<char>>,
    platform: Platform,
)
    ensures
        ({
            let v = pasting(text, previous, platform);
            &&& v.len() >= 4
            &&& clipboard_after(previous, v.take(2)) == Some(text)
            &&& v[1] matches Step::Wait(ms) && ms > 0
            &&& v[2] matches Step::Strike(keys) && keys == seq![
                Stroke::Press(
                    if platform is Macos {
                        StrokeKey::Meta
                    } else {
                        StrokeKey::Control
                    },
                ),
                Stroke::Click(StrokeKey::Character('v')),
                Stroke::Release(
                    if platform is Macos {
                        StrokeKey::Meta
                    } else {
                        StrokeKey::Control
                    },
                ),
            ]
            &&& v[3] matches Step::Wait(ms) && ms > 0
            &&& clipboard_after(previous, v.take(4)) == Some(text)
            &&& previous is None ==> v.len() == 4
        }),
{
    let v = pasting(text, previous, platform);
    reveal_with_fuel(clipboard_after, 5);
    assert(v.take(2).drop_last() =~= v.take(1));
    assert(v.take(4).drop_last() =~= v.take(3));
    assert(v.take(3).drop_last() =~= v.take(2));
    assert(v.take(1).last() == Step::Copy(text));
    law_pasting_can_be_struck(platform);
    law_modifiers_enclose_the_key(paste_combo(platform), platform, StrokeKey::Character('v'), 0);
    let keys = strokes_of(paste_combo(platform), platform);
    assert(keys =~= seq![keys[0], keys[1], keys[2]]);
}

} // verus!
