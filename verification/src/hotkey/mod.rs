//! Global hotkeys: which keys mean which channel, and what the stream of raw
//! key and mouse events amounts to.
pub mod bindings;
pub mod capture;
pub mod events;
pub mod key;
pub mod macos;
pub mod names;
pub mod windows;

pub use bindings::{
    family_of, platform_name, Bindings, KeySpec, ModFamily, MouseBindings, MouseButton, Platform,
};
pub use capture::{capture_single, map_rdev_key, Capture, CaptureEvent, CapturedCombo};
pub use events::{HotkeyEvent, RawButton, RawEvent};
pub use macos::RdevHotkey;
pub use windows::WindowsHotkey;
pub use key::{parse_key_name, Key};
