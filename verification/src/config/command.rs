//! The `[command]` section: the user's own entries of the command lexicon.
use crate::command::combo::{clone_opt, KeyCombo, Modifier, ParsedCommand, ScriptCommand};
use crate::command::combo;
use crate::text;
use vstd::prelude::*;

verus! {

/// Saying `phrase` strikes `modifiers` and `key`, or runs `script`.
#[derive(Debug, PartialEq)]
pub struct CommandActionEntry {
    pub phrase: String,
    pub modifiers: Vec<Modifier>,
    pub key: String,
    /// A script file or a one-line command, which goes before the keys.
    pub script: Option<String>,
    /// The interpreter of a one-line command.
    pub shell: Option<String>,
}

impl CommandActionEntry {
    /// The script, where it is more than white space, goes before the keys.
    pub open spec fn meaning(self) -> combo::CommandView {
        match self.script {
            Some(s) if !text::blank(s@) => combo::CommandView::Script(
                combo::ScriptView { script: s@, shell: combo::opt_text(self.shell) },
            ),
            _ => combo::CommandView::Combo(
                combo::ComboView { modifiers: self.modifiers@, key: self.key@ },
            ),
        }
    }

    /// The command that the entry stands for.
    pub fn command(&self) -> (r: ParsedCommand)
        ensures
            r@ == self.meaning(),
    {
        match &self.script {
            Some(s) => {
                if !text::is_blank(s) {
                    return ParsedCommand::Script(
                        ScriptCommand { script: s.clone(), shell: clone_opt(&self.shell) },
                    );
                }
            },
            None => {},
        }
        ParsedCommand::Combo(
            KeyCombo { modifiers: self.modifiers.clone(), key: self.key.clone() },
        )
    }
}

/// Saying `phrase` means the modifier key `modifier`.
#[derive(Debug, PartialEq)]
pub struct CommandModifierEntry {
    pub phrase: String,
    pub modifier: Modifier,
}

/// Saying `phrase` means the key `name`.
#[derive(Debug, PartialEq)]
pub struct CommandKeyEntry {
    pub phrase: String,
    pub name: String,
}

/// `phrase` is passed over.
#[derive(Debug, PartialEq)]
pub struct CommandStopEntry {
    pub phrase: String,
}

/// `phrase` sounds like `letter`.
#[derive(Debug, PartialEq)]
pub struct CommandHomophoneEntry {
    pub phrase: String,
    pub letter: String,
}

/// The `[command]` section.
#[derive(Debug, PartialEq)]
pub struct CommandConfig {
    /// Goes before the countdown at the top level of the file.
    pub countdown_ms: Option<u64>,
    pub action: Vec<CommandActionEntry>,
    pub modifier: Vec<CommandModifierEntry>,
    pub key: Vec<CommandKeyEntry>,
    pub stop: Vec<CommandStopEntry>,
    pub homophone: Vec<CommandHomophoneEntry>,
    /// Phrases that are not to be spotted while the command is being spoken.
    pub lightning_disabled: Vec<String>,
    /// The bits of the single-precision threshold of the spotter.
    pub lightning_threshold: Option<u32>,
}

impl Default for CommandConfig {
    fn default() -> (r: Self)
        ensures
            r.countdown_ms is None,
            r.action@.len() == 0,
            r.modifier@.len() == 0,
            r.key@.len() == 0,
            r.stop@.len() == 0,
            r.homophone@.len() == 0,
            r.lightning_disabled@.len() == 0,
            r.lightning_threshold is None,
    {
        CommandConfig {
            countdown_ms: None,
            action: Vec::new(),
            modifier: Vec::new(),
            key: Vec::new(),
            stop: Vec::new(),
            homophone: Vec::new(),
            lightning_disabled: Vec::new(),
            lightning_threshold: None,
        }
    }
}

impl CommandActionEntry {
    /// A script goes before the keys wherever there is more to it than white
    /// space; it is run as it was written, by the interpreter that was chosen.
    /// Without one, the keys are struck as they were written.
    pub proof fn law_scripts_go_before_keys(self, s: String)
        ensures
            self.script == Some(s) && !text::blank(s@) ==> (self.meaning()
                matches combo::CommandView::Script(v) && v.script == s@ && v.shell
                == combo::opt_text(self.shell)),
            self.script is None || text::blank(self.script->0@) ==> (self.meaning()
                matches combo::CommandView::Combo(c) && c.modifiers == self.modifiers@ && c.key
                == self.key@),
    {
    }
}

} // verus!
