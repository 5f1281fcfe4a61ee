//! The macOS listener: each channel is one key, and a key event means the
//! first channel that its key is bound to.
use crate::hotkey::bindings;
use crate::hotkey::bindings::{key_matches_any_spec, Bindings};
use crate::hotkey::events;
use crate::hotkey::events::{side_button, takes_side_button, HotkeyEvent, RawEvent};
use vstd::prelude::*;

verus! {

/// What an event means. A key that is bound to nothing is reported too: it
/// voids a recording under way.
pub open spec fn macos_event(b: bindings::BindingsView, event: RawEvent) -> Option<HotkeyEvent> {
    match event {
        RawEvent::KeyPress(k) => if bindings::accepted(b.trigger, k) {
            Some(HotkeyEvent::TriggerDown)
        } else if bindings::accepted(b.repair, k) {
            Some(HotkeyEvent::RepairDown)
        } else if bindings::accepted(b.command, k) {
            Some(HotkeyEvent::CommandDown)
        } else if bindings::accepted(b.cancel, k) {
            Some(HotkeyEvent::CancelDown)
        } else {
            Some(HotkeyEvent::OtherKeyDown)
        },
        RawEvent::KeyRelease(k) => if bindings::accepted(b.trigger, k) {
            Some(HotkeyEvent::TriggerUp)
        } else if bindings::accepted(b.repair, k) {
            Some(HotkeyEvent::RepairUp)
        } else if bindings::accepted(b.command, k) {
            Some(HotkeyEvent::CommandUp)
        } else {
            None
        },
        _ => events::side_button_event(event, b.mouse),
    }
}

/// The listener, with the bindings it goes by.
#[derive(Debug)]
pub struct RdevHotkey {
    pub bindings: Bindings,
}

impl RdevHotkey {
    pub fn new(bindings: Bindings) -> (r: Self)
        ensures
            r.bindings == bindings,
    {
        RdevHotkey { bindings }
    }

    /// What an event means to the pipeline.
    pub fn classify(&self, event: RawEvent) -> (r: Option<HotkeyEvent>)
        ensures
            r == macos_event(self.bindings@, event),
    {
        match event {
            RawEvent::KeyPress(key) => {
                if key_matches_any_spec(&key, &self.bindings.trigger) {
                    Some(HotkeyEvent::TriggerDown)
                } else if key_matches_any_spec(&key, &self.bindings.repair) {
                    Some(HotkeyEvent::RepairDown)
                } else if key_matches_any_spec(&key, &self.bindings.command) {
                    Some(HotkeyEvent::CommandDown)
                } else if key_matches_any_spec(&key, &self.bindings.cancel) {
                    Some(HotkeyEvent::CancelDown)
                } else {
                    Some(HotkeyEvent::OtherKeyDown)
                }
            },
            RawEvent::KeyRelease(key) => {
                if key_matches_any_spec(&key, &self.bindings.trigger) {
                    Some(HotkeyEvent::TriggerUp)
                } else if key_matches_any_spec(&key, &self.bindings.repair) {
                    Some(HotkeyEvent::RepairUp)
                } else if key_matches_any_spec(&key, &self.bindings.command) {
                    Some(HotkeyEvent::CommandUp)
                } else {
                    None
                }
            },
            _ => side_button(event, &self.bindings.mouse),
        }
    }

    /// Whether the event is kept from other programs. Only the side buttons
    /// that are bound are; everything else goes through.
    pub fn consumes(&self, event: RawEvent) -> (r: bool)
        ensures
            r == events::side_button_taken(event, self.bindings.mouse),
    {
        takes_side_button(event, &self.bindings.mouse)
    }
}

/// A side button event is kept from other programs exactly when it means
/// something to the pipeline; a key event never is.
pub proof fn law_consumed_events_are_the_meaningful_side_buttons(
    b: bindings::BindingsView,
    event: RawEvent,
)
    ensures
        events::side_button_taken(event, b.mouse) <==> !(event is KeyPress)
            && !(event is KeyRelease) && macos_event(b, event) is Some,
{
}

/// A key that starts a channel when it goes down ends that same channel when
/// it comes up.
pub proof fn law_press_and_release_agree(b: bindings::BindingsView, key: crate::hotkey::key::Key)
    ensures
        macos_event(b, RawEvent::KeyPress(key)) == Some(HotkeyEvent::TriggerDown) <==> macos_event(
            b,
            RawEvent::KeyRelease(key),
        ) == Some(HotkeyEvent::TriggerUp),
        macos_event(b, RawEvent::KeyPress(key)) == Some(HotkeyEvent::RepairDown) <==> macos_event(
            b,
            RawEvent::KeyRelease(key),
        ) == Some(HotkeyEvent::RepairUp),
        macos_event(b, RawEvent::KeyPress(key)) == Some(HotkeyEvent::CommandDown) <==> macos_event(
            b,
            RawEvent::KeyRelease(key),
        ) == Some(HotkeyEvent::CommandUp),
{
}

/// The key is one that the channel is bound to.
pub open spec fn bound(specs: Seq<bindings::KeySpec>, key: crate::hotkey::key::Key) -> bool {
    exists|i: int|
        0 <= i < specs.len() && match #[trigger] specs[i] {
            bindings::KeySpec::Exact(k) => k == key,
            bindings::KeySpec::Family(f) => bindings::family_of_key(key) == Some(f),
        }
}

/// A key means the channel that it is bound to, whichever keys that channel has
/// besides; one that is bound to none means another key, and its coming up means
/// nothing.
pub proof fn law_keys_serve_their_channel(b: bindings::BindingsView, key: crate::hotkey::key::Key)
    ensures
        bound(b.trigger, key) ==> macos_event(b, RawEvent::KeyPress(key)) == Some(
            HotkeyEvent::TriggerDown,
        ),
        bound(b.repair, key) && !bound(b.trigger, key) ==> macos_event(b, RawEvent::KeyPress(key))
            == Some(HotkeyEvent::RepairDown),
        bound(b.command, key) && !bound(b.trigger, key) && !bound(b.repair, key) ==> macos_event(
            b,
            RawEvent::KeyPress(key),
        ) == Some(HotkeyEvent::CommandDown),
        bound(b.cancel, key) && !bound(b.trigger, key) && !bound(b.repair, key) && !bound(
            b.command,
            key,
        ) ==> macos_event(b, RawEvent::KeyPress(key)) == Some(HotkeyEvent::CancelDown)
            && macos_event(b, RawEvent::KeyRelease(key)) is None,
        !bound(b.cancel, key) && !bound(b.trigger, key) && !bound(b.repair, key) && !bound(
            b.command,
            key,
        ) ==> macos_event(b, RawEvent::KeyPress(key)) == Some(HotkeyEvent::OtherKeyDown)
            && macos_event(b, RawEvent::KeyRelease(key)) is None,
{
    lemma_bound(b.trigger, key);
    lemma_bound(b.repair, key);
    lemma_bound(b.command, key);
    lemma_bound(b.cancel, key);
}

proof fn lemma_bound(specs: Seq<bindings::KeySpec>, key: crate::hotkey::key::Key)
    ensures
        bound(specs, key) <==> bindings::accepted(specs, key),
{
    if bound(specs, key) {
        let i = choose|i: int|
            0 <= i < specs.len() && match #[trigger] specs[i] {
                bindings::KeySpec::Exact(k) => k == key,
                bindings::KeySpec::Family(f) => bindings::family_of_key(key) == Some(f),
            };
        assert(specs[i].accepts(key));
    }
    if bindings::accepted(specs, key) {
        let i = choose|i: int| 0 <= i < specs.len() && (#[trigger] specs[i]).accepts(key);
        assert(match specs[i] {
            bindings::KeySpec::Exact(k) => k == key,
            bindings::KeySpec::Family(f) => bindings::family_of_key(key) == Some(f),
        });
    }
}

} // verus!
