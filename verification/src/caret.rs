//! What the staging bar is placed by.
use vstd::prelude::*;

verus! {

/// A place on the screen, in whatever coordinates the system has.
#[derive(Debug, PartialEq, Eq)]
pub enum CaretAnchor<T> {
    /// The caret, or else the element that has the focus: the bar goes below it.
    Precise(T),
    /// The window that has the focus: the bar goes to its lower edge.
    Window(T),
}

/// The element that has the focus: where its caret is, and where it is itself.
#[derive(Debug, PartialEq, Eq)]
pub struct Focused<T> {
    pub caret: Option<T>,
    pub frame: Option<T>,
}

/// The caret goes before the element, and the element before the window. There
/// is nothing to go by without leave to look.
pub open spec fn anchor_of<T>(trusted: bool, focused: Option<Focused<T>>, window: Option<T>) -> Option<
    CaretAnchor<T>,
> {
    if !trusted {
        None
    } else if focused is Some && focused->0.caret is Some {
        Some(CaretAnchor::Precise(focused->0.caret->0))
    } else if focused is Some && focused->0.frame is Some {
        Some(CaretAnchor::Precise(focused->0.frame->0))
    } else if window is Some {
        Some(CaretAnchor::Window(window->0))
    } else {
        None
    }
}

/// Chooses what the bar is placed by. Of places without extent none is handed in.
pub fn caret_anchor<T>(trusted: bool, focused: Option<Focused<T>>, window: Option<T>) -> (r: Option<
    CaretAnchor<T>,
>)
    ensures
        r == anchor_of(trusted, focused, window),
{
    if !trusted {
        return None;
    }
    if let Some(f) = focused {
        if let Some(c) = f.caret {
            return Some(CaretAnchor::Precise(c));
        }
        if let Some(e) = f.frame {
            return Some(CaretAnchor::Precise(e));
        }
    }
    match window {
        Some(w) => Some(CaretAnchor::Window(w)),
        None => None,
    }
}

/// The closer a place is to the text, the sooner it is gone by; without leave to
/// look there is none, and otherwise there is one wherever anything is known.
pub proof fn law_the_closest_place_wins<T>(focused: Option<Focused<T>>, window: Option<T>, place: T)
    ensures
        anchor_of(false, focused, window) is None,
        focused is Some && focused->0.caret == Some(place) ==> anchor_of(true, focused, window)
            == Some(CaretAnchor::Precise(place)),
        focused is Some && focused->0.caret is None && focused->0.frame == Some(place)
            ==> anchor_of(true, focused, window) == Some(CaretAnchor::Precise(place)),
        (focused is None || focused->0.caret is None && focused->0.frame is None) ==> anchor_of(
            true,
            focused,
            window,
        ) == match window {
            Some(w) => Some(CaretAnchor::Window(w)),
            None => None,
        },
{
}

} // verus!
