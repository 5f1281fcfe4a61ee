//! Key combinations and the commands that speech can stand for.
use crate::search;
use crate::text;
use vstd::prelude::*;

verus! {

/// A modifier key: any key of a family, or one side of it.
#[derive(Debug, Clone, Copy, PartialEq, Eq, Structural)]
pub enum Modifier {
    Command,
    Shift,
    Control,
    Option,
    ControlLeft,
    ControlRight,
    MetaLeft,
    MetaRight,
    Alt,
    AltGr,
    ShiftLeft,
    ShiftRight,
}

/// The four families that modifier keys fall into.
#[derive(Debug, Clone, Copy, PartialEq, Eq, Structural)]
pub enum ModifierFamily {
    Control,
    Option,
    Shift,
    Command,
}

impl Modifier {
    pub open spec fn family_of(self) -> ModifierFamily {
        match self {
            Modifier::Control | Modifier::ControlLeft | Modifier::ControlRight => ModifierFamily::Control,
            Modifier::Option | Modifier::Alt | Modifier::AltGr => ModifierFamily::Option,
            Modifier::Shift | Modifier::ShiftLeft | Modifier::ShiftRight => ModifierFamily::Shift,
            Modifier::Command | Modifier::MetaLeft | Modifier::MetaRight => ModifierFamily::Command,
        }
    }

    /// The family that the key belongs to.
    pub fn family(self) -> (r: ModifierFamily)
        ensures
            r == self.family_of(),
    {
        match self {
            Modifier::Control | Modifier::ControlLeft | Modifier::ControlRight => ModifierFamily::Control,
            Modifier::Option | Modifier::Alt | Modifier::AltGr => ModifierFamily::Option,
            Modifier::Shift | Modifier::ShiftLeft | Modifier::ShiftRight => ModifierFamily::Shift,
            Modifier::Command | Modifier::MetaLeft | Modifier::MetaRight => ModifierFamily::Command,
        }
    }

    /// The modifier that a configuration file means by `name`, whatever the
    /// case of its ASCII letters.
    pub open spec fn named(name: Seq<char>) -> Option<Modifier> {
        let n = text::ascii_lower_text(name);
        if n == "command"@ || n == "cmd"@ || n == "meta"@ || n == "super"@ || n == "win"@ {
            Some(Modifier::Command)
        } else if n == "commandleft"@ || n == "cmdleft"@ || n == "metaleft"@ || n == "superleft"@
            || n == "winleft"@ {
            Some(Modifier::MetaLeft)
        } else if n == "commandright"@ || n == "cmdright"@ || n == "metaright"@ || n
            == "superright"@ || n == "winright"@ {
            Some(Modifier::MetaRight)
        } else if n == "shift"@ {
            Some(Modifier::Shift)
        } else if n == "shiftleft"@ {
            Some(Modifier::ShiftLeft)
        } else if n == "shiftright"@ {
            Some(Modifier::ShiftRight)
        } else if n == "control"@ || n == "ctrl"@ || n == "ctl"@ {
            Some(Modifier::Control)
        } else if n == "controlleft"@ || n == "ctrlleft"@ || n == "ctlleft"@ {
            Some(Modifier::ControlLeft)
        } else if n == "controlright"@ || n == "ctrlright"@ || n == "ctlright"@ {
            Some(Modifier::ControlRight)
        } else if n == "option"@ || n == "opt"@ || n == "alt"@ {
            Some(Modifier::Option)
        } else if n == "optionleft"@ || n == "optleft"@ || n == "altleft"@ {
            Some(Modifier::Alt)
        } else if n == "optionright"@ || n == "optright"@ || n == "altright"@ || n == "altgr"@ {
            Some(Modifier::AltGr)
        } else {
            None
        }
    }

    /// Reads a modifier name of a configuration file; an unknown name is
    /// answered with a message that quotes it.
    pub fn from_name(name: &str) -> (r: Result<Modifier, String>)
        ensures
            r is Ok <==> Modifier::named(name@) is Some,
            r is Ok ==> r->Ok_0 == Modifier::named(name@)->0,
            r is Err ==> r->Err_0@ == "无法识别的修饰键 '"@ + name@
                + "'。可选：Cmd, Ctrl, Opt, Shift（大小写不敏感）"@,
    {
        let lower = text::to_ascii_lowercase(name);
        let n = lower.as_str();
        if text::same(n, "command") || text::same(n, "cmd") || text::same(n, "meta") || text::same(
            n,
            "super",
        ) || text::same(n, "win") {
            Ok(Modifier::Command)
        } else if text::same(n, "commandleft") || text::same(n, "cmdleft") || text::same(
            n,
            "metaleft",
        ) || text::same(n, "superleft") || text::same(n, "winleft") {
            Ok(Modifier::MetaLeft)
        } else if text::same(n, "commandright") || text::same(n, "cmdright") || text::same(
            n,
            "metaright",
        ) || text::same(n, "superright") || text::same(n, "winright") {
            Ok(Modifier::MetaRight)
        } else if text::same(n, "shift") {
            Ok(Modifier::Shift)
        } else if text::same(n, "shiftleft") {
            Ok(Modifier::ShiftLeft)
        } else if text::same(n, "shiftright") {
            Ok(Modifier::ShiftRight)
        } else if text::same(n, "control") || text::same(n, "ctrl") || text::same(n, "ctl") {
            Ok(Modifier::Control)
        } else if text::same(n, "controlleft") || text::same(n, "ctrlleft") || text::same(
            n,
            "ctlleft",
        ) {
            Ok(Modifier::ControlLeft)
        } else if text::same(n, "controlright") || text::same(n, "ctrlright") || text::same(
            n,
            "ctlright",
        ) {
            Ok(Modifier::ControlRight)
        } else if text::same(n, "option") || text::same(n, "opt") || text::same(n, "alt") {
            Ok(Modifier::Option)
        } else if text::same(n, "optionleft") || text::same(n, "optleft") || text::same(
            n,
            "altleft",
        ) {
            Ok(Modifier::Alt)
        } else if text::same(n, "optionright") || text::same(n, "optright") || text::same(
            n,
            "altright",
        ) || text::same(n, "altgr") {
            Ok(Modifier::AltGr)
        } else {
            let mut message = "无法识别的修饰键 '".to_string();
            message.append(name);
            message.append("'。可选：Cmd, Ctrl, Opt, Shift（大小写不敏感）");
            Err(message)
        }
    }
}

/// A key with the modifiers that are held while it is struck.
#[derive(Debug, PartialEq, Eq)]
pub struct KeyCombo {
    pub modifiers: Vec<Modifier>,
    /// A single letter or digit, or ENTER, SPACE, TAB, ESC, DELETE, UP, DOWN,
    /// LEFT, RIGHT, F1 to F12.
    pub key: String,
}

/// What a [`KeyCombo`] stands for.
#[verifier::ext_equal]
pub struct ComboView {
    pub modifiers: Seq<Modifier>,
    pub key: Seq<char>,
}

impl View for KeyCombo {
    type V = ComboView;

    open spec fn view(&self) -> ComboView {
        ComboView { modifiers: self.modifiers@, key: self.key@ }
    }
}

impl ComboView {
    pub open spec fn holds(self, family: ModifierFamily) -> bool {
        exists|i: int|
            0 <= i < self.modifiers.len() && (#[trigger] self.modifiers[i]).family_of() == family
    }

    /// The labels of the families held, in the order control, option, shift, command.
    pub open spec fn labels(self) -> Seq<Seq<char>> {
        let none: Seq<Seq<char>> = Seq::empty();
        let a = if self.holds(ModifierFamily::Control) {
            none.push("CTRL"@)
        } else {
            none
        };
        let b = if self.holds(ModifierFamily::Option) {
            a.push("OPT"@)
        } else {
            a
        };
        let c = if self.holds(ModifierFamily::Shift) {
            b.push("SHIFT"@)
        } else {
            b
        };
        if self.holds(ModifierFamily::Command) {
            c.push("CMD"@)
        } else {
            c
        }
    }

    /// The labels and the key, joined by plus signs.
    pub open spec fn shown(self) -> Seq<char> {
        search::joined(self.labels().push(self.key), "+"@)
    }
}

impl Clone for KeyCombo {
    fn clone(&self) -> (r: Self)
        ensures
            r@ == self@,
    {
        KeyCombo { modifiers: self.modifiers.clone(), key: self.key.clone() }
    }
}

impl KeyCombo {
    fn has_family(&self, family: ModifierFamily) -> (r: bool)
        ensures
            r == self@.holds(family),
    {
        for i in 0..self.modifiers.len()
            invariant
                forall|j: int|
                    0 <= j < i ==> (#[trigger] self.modifiers@[j]).family_of() != family,
        {
            if self.modifiers[i].family() == family {
                assert(self@.modifiers[i as int].family_of() == family);
                return true;
            }
        }
        false
    }

    /// The text shown for the combination, such as `CMD+C`, `SHIFT+CMD+E` or `ENTER`.
    pub fn display(&self) -> (r: String)
        ensures
            r@ == self@.shown(),
    {
        let mut parts: Vec<String> = Vec::new();
        assert(search::texts(parts@) =~= Seq::<Seq<char>>::empty());
        if self.has_family(ModifierFamily::Control) {
            push_text(&mut parts, "CTRL");
        }
        if self.has_family(ModifierFamily::Option) {
            push_text(&mut parts, "OPT");
        }
        if self.has_family(ModifierFamily::Shift) {
            push_text(&mut parts, "SHIFT");
        }
        if self.has_family(ModifierFamily::Command) {
            push_text(&mut parts, "CMD");
        }
        push_text(&mut parts, &self.key);
        search::join(&parts, "+")
    }
}

fn push_text(parts: &mut Vec<String>, s: &str)
    ensures
        search::texts(final(parts)@) == search::texts(old(parts)@).push(s@),
{
    let part = s.to_string();
    proof {
        search::lemma_texts_push(parts@, part);
    }
    parts.push(part);
}

/// A script to run, and the interpreter chosen for a one-line command.
#[derive(Debug, PartialEq, Eq)]
pub struct ScriptCommand {
    pub script: String,
    pub shell: Option<String>,
}

/// What a [`ScriptCommand`] stands for.
#[verifier::ext_equal]
pub struct ScriptView {
    pub script: Seq<char>,
    pub shell: Option<Seq<char>>,
}

/// The view of optional text.
pub open spec fn opt_text(o: Option<String>) -> Option<Seq<char>> {
    match o {
        Some(s) => Some(s@),
        None => None,
    }
}

pub fn clone_opt(o: &Option<String>) -> (r: Option<String>)
    ensures
        opt_text(r) == opt_text(*o),
        r is Some <==> o is Some,
{
    match o {
        Some(s) => Some(s.clone()),
        None => None,
    }
}

impl View for ScriptCommand {
    type V = ScriptView;

    open spec fn view(&self) -> ScriptView {
        ScriptView { script: self.script@, shell: opt_text(self.shell) }
    }
}

impl Clone for ScriptCommand {
    fn clone(&self) -> (r: Self)
        ensures
            r@ == self@,
    {
        ScriptCommand { script: self.script.clone(), shell: clone_opt(&self.shell) }
    }
}

/// What a spoken command does.
#[derive(Debug, PartialEq, Eq)]
pub enum ParsedCommand {
    Combo(KeyCombo),
    Script(ScriptCommand),
}

/// What a [`ParsedCommand`] stands for.
#[verifier::ext_equal]
pub enum CommandView {
    Combo(ComboView),
    Script(ScriptView),
}

impl View for ParsedCommand {
    type V = CommandView;

    open spec fn view(&self) -> CommandView {
        match self {
            ParsedCommand::Combo(c) => CommandView::Combo(c@),
            ParsedCommand::Script(s) => CommandView::Script(s@),
        }
    }
}

impl CommandView {
    /// A combination is shown by its keys, a script by its text.
    pub open spec fn shown(self) -> Seq<char> {
        match self {
            CommandView::Combo(c) => c.shown(),
            CommandView::Script(s) => s.script,
        }
    }
}

impl Clone for ParsedCommand {
    fn clone(&self) -> (r: Self)
        ensures
            r@ == self@,
    {
        match self {
            ParsedCommand::Combo(c) => ParsedCommand::Combo(c.clone()),
            ParsedCommand::Script(s) => ParsedCommand::Script(s.clone()),
        }
    }
}

impl ParsedCommand {
    pub fn display(&self) -> (r: String)
        ensures
            r@ == self@.shown(),
    {
        match self {
            ParsedCommand::Combo(c) => c.display(),
            ParsedCommand::Script(s) => s.script.clone(),
        }
    }

    /// The text shown on the staging bar: plus signs set off by spaces.
    pub fn spaced_display(&self) -> (r: String)
        ensures
            r@ == search::replaced(self@.shown(), "+"@, " + "@),
    {
        proof {
            reveal_strlit("+");
        }
        search::replace(&self.display(), "+", " + ")
    }
}

/// The text shown for a combination depends on which families are held, not on
/// the order or number of its modifiers.
pub proof fn law_display_ignores_modifier_order(a: ComboView, b: ComboView)
    requires
        a.key == b.key,
        forall|f: ModifierFamily| a.holds(f) == b.holds(f),
    ensures
        a.shown() == b.shown(),
{
}

/// Both sides of a modifier are of its family, and the families differ.
pub proof fn law_sides_belong_to_their_key()
    ensures
        Modifier::ControlLeft.family_of() == Modifier::Control.family_of(),
        Modifier::ControlRight.family_of() == Modifier::Control.family_of(),
        Modifier::ShiftLeft.family_of() == Modifier::Shift.family_of(),
        Modifier::ShiftRight.family_of() == Modifier::Shift.family_of(),
        Modifier::Alt.family_of() == Modifier::Option.family_of(),
        Modifier::AltGr.family_of() == Modifier::Option.family_of(),
        Modifier::MetaLeft.family_of() == Modifier::Command.family_of(),
        Modifier::MetaRight.family_of() == Modifier::Command.family_of(),
        Modifier::Control.family_of() == ModifierFamily::Control,
        Modifier::Shift.family_of() == ModifierFamily::Shift,
        Modifier::Option.family_of() == ModifierFamily::Option,
        Modifier::Command.family_of() == ModifierFamily::Command,
{
}

/// Names of modifiers may be written in either case.
pub proof fn law_modifier_names_ignore_case(a: Seq<char>, b: Seq<char>)
    requires
        text::ascii_lower_text(a) == text::ascii_lower_text(b),
    ensures
        Modifier::named(a) == Modifier::named(b),
{
}

/// A combination is shown with its key last, behind a label for each family
/// that is held and no other; a plus sign stands between.
pub proof fn law_combinations_are_shown_whole(c: ComboView)
    ensures
        search::occurs_at(c.shown(), c.key, c.shown().len() - c.key.len()),
        c.modifiers.len() == 0 ==> c.shown() == c.key,
        c.labels().contains("CTRL"@) <==> c.holds(ModifierFamily::Control),
        c.labels().contains("OPT"@) <==> c.holds(ModifierFamily::Option),
        c.labels().contains("SHIFT"@) <==> c.holds(ModifierFamily::Shift),
        c.labels().contains("CMD"@) <==> c.holds(ModifierFamily::Command),
        c.labels().len() > 0 ==> c.shown() == search::joined(c.labels(), "+"@) + "+"@ + c.key,
{
    reveal_strlit("CTRL");
    reveal_strlit("OPT");
    reveal_strlit("SHIFT");
    reveal_strlit("CMD");
    assert("CTRL"@.len() == 4 && "OPT"@.len() == 3 && "SHIFT"@.len() == 5 && "CMD"@.len() == 3);
    assert("OPT"@[0] == 'O' && "CMD"@[0] == 'C');
    let all = c.labels().push(c.key);
    assert(all.drop_last() =~= c.labels());
    let x = c.shown();
    let n = (if c.holds(ModifierFamily::Control) {
        1int
    } else {
        0
    });
    let o = n + (if c.holds(ModifierFamily::Option) {
        1int
    } else {
        0
    });
    let p = o + (if c.holds(ModifierFamily::Shift) {
        1int
    } else {
        0
    });
    if c.holds(ModifierFamily::Control) {
        assert(c.labels()[0] == "CTRL"@);
    }
    if c.holds(ModifierFamily::Option) {
        assert(c.labels()[n] == "OPT"@);
    }
    if c.holds(ModifierFamily::Shift) {
        assert(c.labels()[o] == "SHIFT"@);
    }
    if c.holds(ModifierFamily::Command) {
        assert(c.labels()[p] == "CMD"@);
    }
    assert(x.subrange(x.len() - c.key.len(), x.len() as int) =~= c.key);
}

} // verus!
