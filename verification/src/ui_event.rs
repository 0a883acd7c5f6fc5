//! What the reducer hands out.

use crate::keyboard::KeyboardEvent;
use crate::pointer::{PointerEvent, PointerEventView};
use vstd::prelude::*;

verus! {

/// An event of the model: of the keyboard or of a pointer.
#[derive(Clone, Debug, PartialEq, Eq, Hash)]
pub enum UiEvent {
    Keyboard(KeyboardEvent),
    Pointer(PointerEvent),
}

/// A [`UiEvent`] with its lists as sequences.
pub enum UiEventView {
    Keyboard(KeyboardEvent),
    Pointer(PointerEventView),
}

impl View for UiEvent {
    type V = UiEventView;

    open spec fn view(&self) -> UiEventView {
        match *self {
            UiEvent::Keyboard(k) => UiEventView::Keyboard(k),
            UiEvent::Pointer(p) => UiEventView::Pointer(p@),
        }
    }
}

impl UiEventView {
    /// The time of the pointer state that the event carries, if it carries
    /// one.
    pub open spec fn time(self) -> Option<u64> {
        match self {
            UiEventView::Pointer(p) => match p.state() {
                Some(state) => Some(state.time),
                None => None,
            },
            UiEventView::Keyboard(_) => None,
        }
    }
}

} // verus!
