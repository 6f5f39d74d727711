//! A popup that takes the whole screen and waits for a key.

use super::popup::Popup;
use crate::input::{Event, KeyCode, KeyEvent, KeyEventKind};
use vstd::prelude::*;

verus! {

/// A popup that is shown until a key is pressed.
pub struct FullScreenPopup(pub Popup);

/// The key that closes a popup, if `event` is one: any key that is
/// pressed or repeated, not one that is released.
pub open spec fn spec_closing_key(event: Event) -> Option<KeyCode> {
    match event {
        Event::Key(KeyEvent { code, kind }) => if kind != KeyEventKind::Release {
            Some(code)
        } else {
            None
        },
        _ => None,
    }
}

impl FullScreenPopup {
    pub fn new(popup: Popup) -> (screen: Self)
        ensures
            screen.0 == popup,
    {
        Self(popup)
    }

    /// The key that closes the popup, if `event` is one.
    pub fn closing_key(event: &Event) -> (key: Option<KeyCode>)
        ensures
            key == spec_closing_key(*event),
    {
        match *event {
            Event::Key(KeyEvent { code, kind }) => if kind != KeyEventKind::Release {
                Some(code)
            } else {
                None
            },
            _ => None,
        }
    }
}

} // verus!
