//! The window events that the reducer takes in.

use crate::keyboard::{KeyInput, Modifiers};
use crate::pointer::PointerButton;
use crate::units::{PhysicalPoint, ScaleFactor, UNIT};
use vstd::prelude::*;

verus! {

/// Whether a button went down or up.
#[derive(Clone, Copy, Debug, PartialEq, Eq, Hash)]
pub enum ElementState {
    Pressed,
    Released,
}

/// A mouse button as the window system names it.
#[derive(Clone, Copy, Debug, PartialEq, Eq, Hash)]
pub enum MouseButton {
    Left,
    Right,
    Middle,
    Back,
    Forward,
    /// A button that has a number only.
    Other(u16),
}

impl MouseButton {
    /// The button of the event model that this button is, if it is one.
    pub open spec fn spec_pointer_button(self) -> Option<PointerButton> {
        match self {
            MouseButton::Left => Some(PointerButton::Primary),
            MouseButton::Right => Some(PointerButton::Secondary),
            MouseButton::Middle => Some(PointerButton::Auxiliary),
            MouseButton::Back => Some(PointerButton::X1),
            MouseButton::Forward => Some(PointerButton::X2),
            MouseButton::Other(_) => None,
        }
    }

    /// The button of the event model that this button is, if it is one.
    #[verifier::when_used_as_spec(spec_pointer_button)]
    pub fn pointer_button(self) -> (r: Option<PointerButton>)
        ensures
            r == self.spec_pointer_button(),
    {
        match self {
            MouseButton::Left => Some(PointerButton::Primary),
            MouseButton::Right => Some(PointerButton::Secondary),
            MouseButton::Middle => Some(PointerButton::Auxiliary),
            MouseButton::Back => Some(PointerButton::X1),
            MouseButton::Forward => Some(PointerButton::X2),
            MouseButton::Other(_) => None,
        }
    }
}

/// The stage of a touch contact.
#[derive(Clone, Copy, Debug, PartialEq, Eq, Hash)]
pub enum TouchPhase {
    Started,
    Moved,
    Ended,
    Cancelled,
}

/// How hard a touch contact presses, in thousandths.
#[derive(Clone, Copy, Debug, PartialEq, Eq, Hash)]
pub enum Force {
    /// On a scale on which 1000 is the force of an average touch.
    Calibrated { force: u32 },
    /// On a scale on which 1000 is the greatest force.
    Normalized(u32),
}

/// The pressure of a touch contact in `phase` that reports `force`: none
/// once the contact has ended or was cancelled; else half of a calibrated
/// force, a normalised force as it is, and half of full pressure where no
/// force is known.
pub open spec fn touch_pressure(phase: TouchPhase, force: Option<Force>) -> u32 {
    if phase is Ended || phase is Cancelled {
        0
    } else {
        match force {
            Some(Force::Calibrated { force }) => force / 2,
            Some(Force::Normalized(q)) => q,
            None => UNIT / 2,
        }
    }
}

/// A touch contact.
#[derive(Clone, Copy, Debug, PartialEq, Eq, Hash)]
pub struct Touch {
    pub phase: TouchPhase,
    pub location: PhysicalPoint,
    pub force: Option<Force>,
    /// The number of the finger.
    pub id: u64,
}

impl Touch {
    /// The pressure of the contact, see [`touch_pressure`].
    pub fn pressure(&self) -> (r: u32)
        ensures
            r == touch_pressure(self.phase, self.force),
    {
        match self.phase {
            TouchPhase::Ended => 0,
            TouchPhase::Cancelled => 0,
            _ => match self.force {
                Some(Force::Calibrated { force }) => force / 2,
                Some(Force::Normalized(q)) => q,
                None => UNIT / 2,
            },
        }
    }
}

/// An amount that the wheel turned.
#[derive(Clone, Copy, Debug, PartialEq, Eq, Hash)]
pub enum MouseScrollDelta {
    /// In thousandths of a line, across and down.
    LineDelta(i32, i32),
    /// In thousandths of a physical pixel, across and down.
    PixelDelta(PhysicalPoint),
}

/// An event of a window.
#[derive(Clone, Debug, PartialEq, Eq, Hash)]
pub enum WindowEvent {
    /// Other modifier keys are held than before.
    ModifiersChanged(Modifiers),
    /// A key went down or up.
    KeyboardInput { event: KeyInput },
    /// The cursor came into the window.
    CursorEntered,
    /// The cursor left the window.
    CursorLeft,
    /// The cursor moved inside the window.
    CursorMoved { position: PhysicalPoint },
    /// A mouse button went down or up.
    MouseInput { state: ElementState, button: MouseButton },
    /// The mouse wheel turned.
    MouseWheel { delta: MouseScrollDelta },
    /// A finger touched the window, moved on it or left it.
    Touch(Touch),
    /// The window has another scale factor than before.
    ScaleFactorChanged { scale_factor: ScaleFactor },
    /// Any other event. The reducer has no use for it.
    Other,
}

} // verus!
