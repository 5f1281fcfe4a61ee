//! The settings page: what it is shown, and what is made of what it sends.
//!
//! The page and the program exchange messages that carry JSON. Here is decided
//! what a message changes and what is answered; reading and writing files and
//! passing messages on is left to the program.
pub mod connection;
pub mod devices;
pub mod general;
pub mod payload;
pub mod reply;
pub mod restart;
pub mod shortcuts;
pub mod styles;
pub mod wakeword;

pub use payload::{apply_asr_payload, apply_llm_payload, opt_str, read_payload};
pub use reply::{saved, Page, Reply};
