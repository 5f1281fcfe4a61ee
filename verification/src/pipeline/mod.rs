//! From hotkey events to text at the cursor: recording, recognition, the
//! staging bar, and committing.
//!
//! Everything here decides; nothing acts. The program around the library
//! performs the actions that are handed out, in order after what the window is
//! to be told, and reports back what came of them.
pub mod forward;
pub mod laws;
pub mod machine;
pub mod outcome;
pub mod runtime;
pub mod screen;
pub mod wake;

pub use forward::Forwarder;
pub use machine::{Action, Backend, Pipeline, RecordMode, Recording, Snapshot, StartPlan, State};
pub use outcome::{CommandRun, Followup, Means, SessionResult};
pub use runtime::{reload_plan, ReloadPlan, RuntimeState, WakeSwitch};
pub use wake::{Silence, WakePlan, WakeSession, WakeStep, WakeUpdate};
