//! Normalises window input (mouse, touch, wheel, keyboard, modifiers, scale
//! factor) into one device-independent event model, and counts repeated taps
//! and clicks.
//!
//! All quantities that are fractional by nature (positions, scroll amounts,
//! the scale factor, pressure) are fixed-point integers counted in
//! thousandths, see [`units`].

pub mod units;
pub mod keyboard;
pub mod pointer;
pub mod tap;
pub mod ui_event;
pub mod window;
pub mod clock;
pub mod reducer;

pub use keyboard::{KeyInput, KeyboardEvent, Modifiers};
pub use pointer::{
    PersistentDeviceId, PointerButton, PointerButtonUpdate, PointerButtons, PointerEvent,
    PointerId, PointerInfo, PointerScrollUpdate, PointerState, PointerType, PointerUpdate,
    ScrollDelta,
};
pub use reducer::WindowEventReducer;
pub use tap::{TapCounter, TapState};
pub use ui_event::UiEvent;
pub use units::{PhysicalPoint, Point, ScaleFactor};
pub use window::{
    ElementState, Force, MouseButton, MouseScrollDelta, Touch, TouchPhase, WindowEvent,
};
