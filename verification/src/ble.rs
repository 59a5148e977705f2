//! The button-state byte: what the device notifies over its vendor
//! characteristic, and how a listener reads it.

use vstd::prelude::*;
use crate::button::ButtonDirection;

verus! {

/// The byte that stands for "no button held".
pub const STATE_NONE: u8 = 0;

/// The byte that stands for "left button held".
pub const STATE_LEFT: u8 = 1;

/// The byte that stands for "right button held".
pub const STATE_RIGHT: u8 = 2;

/// A change of one of the two buttons; button A is the left one, button B the
/// right one.
#[derive(Clone, Copy, Debug, PartialEq, Eq, Structural)]
pub enum ButtonEvent {
    APressed,
    AReleased,
    BPressed,
    BReleased,
}

/// What a listener reads from a notification.
#[derive(Clone, Copy, Debug, PartialEq, Eq, Structural)]
pub enum ButtonReport {
    /// The button of this direction was pressed.
    Pressed(ButtonDirection),
    /// The button that was held was released.
    Released,
    /// The byte is none of the known states.
    Unknown(u8),
}

/// The state byte that is notified for `event`: a press notifies the state
/// of its button, a release the state "none".
pub open spec fn state_byte_of(event: ButtonEvent) -> u8 {
    match event {
        ButtonEvent::APressed => STATE_LEFT,
        ButtonEvent::BPressed => STATE_RIGHT,
        ButtonEvent::AReleased => STATE_NONE,
        ButtonEvent::BReleased => STATE_NONE,
    }
}

/// What a state byte reports.
pub open spec fn report_of(state: u8) -> ButtonReport {
    if state == STATE_LEFT {
        ButtonReport::Pressed(ButtonDirection::Left)
    } else if state == STATE_RIGHT {
        ButtonReport::Pressed(ButtonDirection::Right)
    } else if state == STATE_NONE {
        ButtonReport::Released
    } else {
        ButtonReport::Unknown(state)
    }
}

impl ButtonEvent {
    /// The press of the button of `direction`.
    pub fn pressed(direction: ButtonDirection) -> (event: ButtonEvent)
        ensures
            event == (match direction {
                ButtonDirection::Left => ButtonEvent::APressed,
                ButtonDirection::Right => ButtonEvent::BPressed,
            }),
    {
        match direction {
            ButtonDirection::Left => ButtonEvent::APressed,
            ButtonDirection::Right => ButtonEvent::BPressed,
        }
    }

    /// The state byte that is notified for this event.
    pub fn state_byte(self) -> (state: u8)
        ensures
            state == state_byte_of(self),
    {
        match self {
            ButtonEvent::APressed => STATE_LEFT,
            ButtonEvent::BPressed => STATE_RIGHT,
            ButtonEvent::AReleased => STATE_NONE,
            ButtonEvent::BReleased => STATE_NONE,
        }
    }
}

/// The names under which a report is relayed, the button first, then its
/// state. A press is relayed under the letter of its button, a release under
/// "ANY", since the state byte does not say which button was let go; an
/// unknown byte is not relayed.
pub open spec fn relay_names_of(report: ButtonReport) -> Option<(Seq<char>, Seq<char>)> {
    match report {
        ButtonReport::Pressed(ButtonDirection::Left) => Some(("A"@, "PRESSED"@)),
        ButtonReport::Pressed(ButtonDirection::Right) => Some(("B"@, "PRESSED"@)),
        ButtonReport::Released => Some(("ANY"@, "RELEASED"@)),
        ButtonReport::Unknown(_) => None,
    }
}

impl ButtonReport {
    /// The names under which this report is relayed, see [`relay_names_of`].
    pub fn relay_names(self) -> (names: Option<(&'static str, &'static str)>)
        ensures
            names is Some <==> relay_names_of(self) is Some,
            names is Some ==> (names->Some_0.0@, names->Some_0.1@) == relay_names_of(self)->Some_0,
    {
        match self {
            ButtonReport::Pressed(ButtonDirection::Left) => Some(("A", "PRESSED")),
            ButtonReport::Pressed(ButtonDirection::Right) => Some(("B", "PRESSED")),
            ButtonReport::Released => Some(("ANY", "RELEASED")),
            ButtonReport::Unknown(_) => None,
        }
    }
}

/// Reads a notification: its first byte is the state byte. An empty
/// notification reports nothing.
pub fn handle_button_notification(data: &[u8]) -> (report: Option<ButtonReport>)
    ensures
        report == (if data@.len() == 0 {
            None
        } else {
            Some(report_of(data@[0]))
        }),
{
    if data.len() == 0 {
        return None;
    }
    let state = data[0];
    if state == STATE_LEFT {
        Some(ButtonReport::Pressed(ButtonDirection::Left))
    } else if state == STATE_RIGHT {
        Some(ButtonReport::Pressed(ButtonDirection::Right))
    } else if state == STATE_NONE {
        Some(ButtonReport::Released)
    } else {
        Some(ButtonReport::Unknown(state))
    }
}

/// What is notified for an event is read back as that event: a press as the
/// press of its direction, a release as a release; never as unknown.
pub proof fn lemma_state_byte_is_read_back(event: ButtonEvent)
    ensures
        report_of(state_byte_of(event)) == (match event {
            ButtonEvent::APressed => ButtonReport::Pressed(ButtonDirection::Left),
            ButtonEvent::BPressed => ButtonReport::Pressed(ButtonDirection::Right),
            ButtonEvent::AReleased => ButtonReport::Released,
            ButtonEvent::BReleased => ButtonReport::Released,
        }),
{
}

} // verus!
