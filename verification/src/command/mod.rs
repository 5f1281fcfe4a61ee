//! Voice commands: from recognised speech to a key combination or a script.
//!
//! Parsing is driven by a lexicon. The text is normalised, scanned from left
//! to right for the longest phrase of the lexicon that starts at the current
//! position, and the tokens found are assembled into one command. Letters that
//! speech recognition turned into sound-alike ideographs are looked up in a
//! second round only, when the first one found no command.
pub mod combo;
pub mod laws;
pub mod lexicon;
pub mod parser;
pub mod reading;

pub use lexicon::{builtin_action_aliases, Lexicon};
pub use parser::parse;
pub use combo::{KeyCombo, Modifier, ModifierFamily, ParsedCommand, ScriptCommand};
