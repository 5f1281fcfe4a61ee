//! Voice typing, decided in verified code.
use vstd::prelude::*;

pub mod asr;
pub mod audio;
pub mod base64;
pub mod caret;
pub mod command;
pub mod config;
pub mod hotkey;
pub mod inject;
pub mod json;
pub mod lightning;
pub mod llm;
pub mod pipeline;
pub mod prompts;
pub mod script;
pub mod search;
pub mod settings;
pub mod staging;
pub mod text;
pub mod wakeword;

verus! {

} // verus!
