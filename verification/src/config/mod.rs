//! The user's configuration: its sections, their defaults, and what the rest
//! of the program derives from them.
pub mod command;
pub mod file;
pub mod hotkeys;
pub mod sections;

pub use command::{
    CommandActionEntry, CommandConfig, CommandHomophoneEntry, CommandKeyEntry, CommandModifierEntry,
    CommandStopEntry,
};
pub use file::{format_toml_error, needs_restart, Config, ConfigSource};
pub use hotkeys::{HotkeyConfig, HotkeyRawConfig, MouseButton, MouseHotkeyConfig};
pub use sections::{AsrConfig, AudioConfig, KeywordEntry, LlmConfig, WakewordConfig};
