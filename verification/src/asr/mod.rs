//! Speech recognition: which service is asked, what it is sent, and what its
//! answers mean.
pub mod bailian;
pub mod realtime;

pub use bailian::BailianAsr;
pub use realtime::{backend_from_config, derive_ws_url, AsrBackend, BailianRealtimeAsr};
