//! Raw events of keyboard and mouse, and the hotkey events made of them.
use crate::hotkey::bindings::{MouseBindings, MouseButton};
use crate::hotkey::key::Key;
use vstd::prelude::*;

verus! {

/// A mouse button, as far as buttons are told apart.
#[derive(Debug, Clone, Copy, PartialEq, Eq, Structural)]
pub enum RawButton {
    Left,
    Forward,
    Back,
    Other,
}

/// An event of the operating system's input stream.
#[derive(Debug, Clone, Copy, PartialEq, Eq, Structural)]
pub enum RawEvent {
    KeyPress(Key),
    KeyRelease(Key),
    ButtonPress(RawButton),
    ButtonRelease(RawButton),
    /// Movement, the wheel, and whatever else there is.
    Other,
}

/// What the input stream means to the pipeline. How long a key is held is
/// judged there.
#[derive(Debug, PartialEq, Eq)]
pub enum HotkeyEvent {
    TriggerDown,
    TriggerUp,
    RepairDown,
    RepairUp,
    CommandDown,
    CommandUp,
    /// A key that belongs to no channel: what is being held is used as a
    /// modifier, so that a recording under way is void.
    OtherKeyDown,
    CancelDown,
    MouseDoubleClick,
    MouseTriggerDown,
    MouseTriggerUp,
    MouseRepairDown,
    MouseRepairUp,
    /// The listener failed while running.
    Error(String),
}

impl Clone for HotkeyEvent {
    fn clone(&self) -> (r: Self)
        ensures
            r == *self,
    {
        match self {
            HotkeyEvent::TriggerDown => HotkeyEvent::TriggerDown,
            HotkeyEvent::TriggerUp => HotkeyEvent::TriggerUp,
            HotkeyEvent::RepairDown => HotkeyEvent::RepairDown,
            HotkeyEvent::RepairUp => HotkeyEvent::RepairUp,
            HotkeyEvent::CommandDown => HotkeyEvent::CommandDown,
            HotkeyEvent::CommandUp => HotkeyEvent::CommandUp,
            HotkeyEvent::OtherKeyDown => HotkeyEvent::OtherKeyDown,
            HotkeyEvent::CancelDown => HotkeyEvent::CancelDown,
            HotkeyEvent::MouseDoubleClick => HotkeyEvent::MouseDoubleClick,
            HotkeyEvent::MouseTriggerDown => HotkeyEvent::MouseTriggerDown,
            HotkeyEvent::MouseTriggerUp => HotkeyEvent::MouseTriggerUp,
            HotkeyEvent::MouseRepairDown => HotkeyEvent::MouseRepairDown,
            HotkeyEvent::MouseRepairUp => HotkeyEvent::MouseRepairUp,
            HotkeyEvent::Error(e) => HotkeyEvent::Error(e.clone()),
        }
    }
}

/// What a side button means: forward is for the trigger channel, back for the
/// repair channel, each where it is bound so.
pub open spec fn side_button_event(event: RawEvent, mouse: MouseBindings) -> Option<HotkeyEvent> {
    match event {
        RawEvent::ButtonPress(RawButton::Forward) if mouse.trigger == Some(MouseButton::Forward) =>
            Some(HotkeyEvent::MouseTriggerDown),
        RawEvent::ButtonRelease(RawButton::Forward) if mouse.trigger == Some(
            MouseButton::Forward,
        ) => Some(HotkeyEvent::MouseTriggerUp),
        RawEvent::ButtonPress(RawButton::Back) if mouse.repair == Some(MouseButton::Back) => Some(
            HotkeyEvent::MouseRepairDown,
        ),
        RawEvent::ButtonRelease(RawButton::Back) if mouse.repair == Some(MouseButton::Back) => Some(
            HotkeyEvent::MouseRepairUp,
        ),
        _ => None,
    }
}

fn bound_to(binding: Option<MouseButton>, button: MouseButton) -> (r: bool)
    ensures
        r == (binding == Some(button)),
{
    match binding {
        Some(b) => b == button,
        None => false,
    }
}

pub fn side_button(event: RawEvent, mouse: &MouseBindings) -> (r: Option<HotkeyEvent>)
    ensures
        r == side_button_event(event, *mouse),
{
    match event {
        RawEvent::ButtonPress(RawButton::Forward) => {
            if bound_to(mouse.trigger, MouseButton::Forward) {
                Some(HotkeyEvent::MouseTriggerDown)
            } else {
                None
            }
        },
        RawEvent::ButtonRelease(RawButton::Forward) => {
            if bound_to(mouse.trigger, MouseButton::Forward) {
                Some(HotkeyEvent::MouseTriggerUp)
            } else {
                None
            }
        },
        RawEvent::ButtonPress(RawButton::Back) => {
            if bound_to(mouse.repair, MouseButton::Back) {
                Some(HotkeyEvent::MouseRepairDown)
            } else {
                None
            }
        },
        RawEvent::ButtonRelease(RawButton::Back) => {
            if bound_to(mouse.repair, MouseButton::Back) {
                Some(HotkeyEvent::MouseRepairUp)
            } else {
                None
            }
        },
        _ => None,
    }
}

/// The side button events that are kept from other programs: those of a button
/// bound to its channel.
pub open spec fn side_button_taken(event: RawEvent, mouse: MouseBindings) -> bool {
    match event {
        RawEvent::ButtonPress(b) | RawEvent::ButtonRelease(b) => {
            ||| b == RawButton::Forward && mouse.trigger == Some(MouseButton::Forward)
            ||| b == RawButton::Back && mouse.repair == Some(MouseButton::Back)
        },
        _ => false,
    }
}

pub fn takes_side_button(event: RawEvent, mouse: &MouseBindings) -> (r: bool)
    ensures
        r == side_button_taken(event, *mouse),
{
    match event {
        RawEvent::ButtonPress(b) | RawEvent::ButtonRelease(b) => {
            (b == RawButton::Forward && bound_to(mouse.trigger, MouseButton::Forward)) || (b
                == RawButton::Back && bound_to(mouse.repair, MouseButton::Back))
        },
        _ => false,
    }
}

/// A side button means its own channel, going down and coming up alike, where
/// it is bound to that channel, and nothing else; other buttons mean nothing here.
pub proof fn law_side_buttons_serve_their_channel(mouse: MouseBindings, b: RawButton)
    ensures
        mouse.trigger == Some(MouseButton::Forward) ==> side_button_event(
            RawEvent::ButtonPress(RawButton::Forward),
            mouse,
        ) == Some(HotkeyEvent::MouseTriggerDown) && side_button_event(
            RawEvent::ButtonRelease(RawButton::Forward),
            mouse,
        ) == Some(HotkeyEvent::MouseTriggerUp),
        mouse.repair == Some(MouseButton::Back) ==> side_button_event(
            RawEvent::ButtonPress(RawButton::Back),
            mouse,
        ) == Some(HotkeyEvent::MouseRepairDown) && side_button_event(
            RawEvent::ButtonRelease(RawButton::Back),
            mouse,
        ) == Some(HotkeyEvent::MouseRepairUp),
        mouse.trigger != Some(MouseButton::Forward) && mouse.repair != Some(MouseButton::Back)
            ==> side_button_event(RawEvent::ButtonPress(b), mouse) is None && side_button_event(
            RawEvent::ButtonRelease(b),
            mouse,
        ) is None,
        b == RawButton::Left || b == RawButton::Other ==> side_button_event(
            RawEvent::ButtonPress(b),
            mouse,
        ) is None && side_button_event(RawEvent::ButtonRelease(b), mouse) is None,
{
}

} // verus!
