//! Abstract UI events, and how raw device input becomes one.
use vstd::prelude::*;
use crate::wire::Scalar;

verus! {

/// The modifier keys held down.
#[derive(Clone, Copy, Debug, PartialEq, Eq, Structural)]
pub struct Modifiers {
    pub ctrl: bool,
    pub alt: bool,
    pub shift: bool,
    pub logo: bool,
}

impl Modifiers {
    /// No modifier held.
    pub fn none() -> (r: Modifiers)
        ensures
            !r.ctrl && !r.alt && !r.shift && !r.logo,
    {
        Modifiers { ctrl: false, alt: false, shift: false, logo: false }
    }
}

/// A pointer button that the UI knows.
#[derive(Clone, Copy, Debug, PartialEq, Eq, Structural)]
pub enum PointerButton {
    Left,
    Right,
    Middle,
}

/// An abstract UI event, queued on a session for its widgets. A key event carries the
/// character the key types; keys that type none never become events.
#[derive(Clone, Copy, Debug, PartialEq, Eq, Structural)]
pub enum UiEvent {
    KeyPressed { key: char, modifiers: Modifiers },
    KeyReleased { key: char, modifiers: Modifiers },
    ModifiersChanged(Modifiers),
    PointerMoved { x: Scalar, y: Scalar },
    PointerPressed(PointerButton),
    PointerReleased(PointerButton),
    PointerScrolled { dx: Scalar, dy: Scalar },
}

/// Raw pointer input on one surface, as the compositor reports it.
#[derive(Clone, Copy, Debug, PartialEq, Eq, Structural)]
pub enum PointerInput {
    Motion { x: Scalar, y: Scalar },
    Button { code: u32, pressed: bool },
    Axis { dx: Scalar, dy: Scalar },
}

/// The evdev codes of the left, right and middle buttons.
pub const BTN_LEFT: u32 = 0x110;

pub const BTN_RIGHT: u32 = 0x111;

pub const BTN_MIDDLE: u32 = 0x112;

/// The button that an evdev code names, if the UI knows it.
pub open spec fn button_of(code: u32) -> Option<PointerButton> {
    if code == BTN_LEFT {
        Some(PointerButton::Left)
    } else if code == BTN_RIGHT {
        Some(PointerButton::Right)
    } else if code == BTN_MIDDLE {
        Some(PointerButton::Middle)
    } else {
        None
    }
}

/// Maps an evdev button code to a pointer button; unknown codes map to `None`.
pub fn button_to_iced_button(button: u32) -> (r: Option<PointerButton>)
    ensures
        r == button_of(button),
{
    if button == BTN_LEFT {
        Some(PointerButton::Left)
    } else if button == BTN_RIGHT {
        Some(PointerButton::Right)
    } else if button == BTN_MIDDLE {
        Some(PointerButton::Middle)
    } else {
        None
    }
}

/// The UI event for raw pointer input; a button the UI does not know gives none.
pub open spec fn pointer_event_of(input: PointerInput) -> Option<UiEvent> {
    match input {
        PointerInput::Motion { x, y } => Some(UiEvent::PointerMoved { x, y }),
        PointerInput::Button { code, pressed } => match button_of(code) {
            Some(b) => Some(
                if pressed {
                    UiEvent::PointerPressed(b)
                } else {
                    UiEvent::PointerReleased(b)
                },
            ),
            None => None,
        },
        PointerInput::Axis { dx, dy } => Some(UiEvent::PointerScrolled { dx, dy }),
    }
}

pub fn pointer_to_event(input: PointerInput) -> (r: Option<UiEvent>)
    ensures
        r == pointer_event_of(input),
{
    match input {
        PointerInput::Motion { x, y } => Some(UiEvent::PointerMoved { x, y }),
        PointerInput::Button { code, pressed } => match button_to_iced_button(code) {
            Some(b) => Some(
                if pressed {
                    UiEvent::PointerPressed(b)
                } else {
                    UiEvent::PointerReleased(b)
                },
            ),
            None => None,
        },
        PointerInput::Axis { dx, dy } => Some(UiEvent::PointerScrolled { dx, dy }),
    }
}

/// The character that the keysym `keysym` types, as xkeysym's `Keysym::key_char` gives it.
pub uninterp spec fn keysym_char(keysym: u32) -> Option<char>;

/// Relies on xkeysym's `Keysym::key_char`: the character a keysym types, which depends on
/// the keysym alone.
#[verifier::external_body]
pub(crate) fn key_char(keysym: u32) -> (r: Option<char>)
    ensures
        r == keysym_char(keysym),
{
    xkeysym::Keysym::new(keysym).key_char()
}

} // verus!
