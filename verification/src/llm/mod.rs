//! Polishing and repairing texts with a language model: which service is
//! asked, what it is sent, and what its answers mean.
pub mod cleaner;
pub mod spacing;

pub use cleaner::{cleaner_from_config, AnthropicCleaner, Cleaner, OpenAiCleaner};
