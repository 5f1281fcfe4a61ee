//! Wake words: which there are, how they are pronounced, and which one was heard.
pub mod engine;
pub mod text2token;
pub mod words;

pub use engine::create_engine;
pub use text2token::Text2Token;
pub use words::{
    builtin_defaults, default_keyword_map, match_label, resolve_keywords, WakeEvent, WakeWord,
};
