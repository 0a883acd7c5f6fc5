//! Pointer events: who points, where, and with which buttons held.

use crate::keyboard::Modifiers;
use crate::units::Point;
use vstd::prelude::*;

verus! {

/// The identity of one pointer for as long as its contact or device
/// interaction lasts.
#[derive(Clone, Copy, Debug, PartialEq, Eq, Hash)]
pub struct PointerId(pub u64);

impl PointerId {
    /// The identity of the primary pointer, the system's mouse cursor.
    pub open spec fn spec_primary() -> PointerId {
        PointerId(0)
    }

    /// The identity of the primary pointer, the system's mouse cursor.
    #[verifier::when_used_as_spec(spec_primary)]
    pub fn primary() -> (r: PointerId)
        ensures
            r == PointerId::spec_primary(),
    {
        PointerId(0)
    }

    /// The identity that the touch contact numbered `contact` gets.
    pub open spec fn spec_of_touch(contact: u64) -> PointerId {
        if contact < u64::MAX {
            PointerId((contact + 1) as u64)
        } else {
            PointerId(u64::MAX)
        }
    }

    /// The identity of the touch contact numbered `contact`: one more than
    /// the number, which keeps every contact apart from the primary pointer.
    #[verifier::when_used_as_spec(spec_of_touch)]
    pub fn of_touch(contact: u64) -> (r: PointerId)
        ensures
            r == PointerId::spec_of_touch(contact),
            r != PointerId::spec_primary(),
    {
        if contact < u64::MAX {
            PointerId(contact + 1)
        } else {
            PointerId(u64::MAX)
        }
    }

    /// Whether this is the primary pointer.
    pub fn is_primary(&self) -> (r: bool)
        ensures
            r == (*self == PointerId::spec_primary()),
    {
        self.0 == 0
    }
}

/// Whether two optional pointer identities are the same.
pub fn same_pointer(a: Option<PointerId>, b: Option<PointerId>) -> (r: bool)
    ensures
        r == (a == b),
{
    match (a, b) {
        (Some(x), Some(y)) => x.0 == y.0,
        (None, None) => true,
        _ => false,
    }
}

/// A stable identifier of the hardware behind a pointer.
#[derive(Clone, Copy, Debug, PartialEq, Eq, Hash)]
pub struct PersistentDeviceId(pub u64);

/// The kind of device behind a pointer.
#[derive(Clone, Copy, Debug, PartialEq, Eq, Hash, Default)]
pub enum PointerType {
    #[default]
    Unknown,
    Mouse,
    Pen,
    Touch,
}

/// The identity of a pointer source.
#[derive(Clone, Copy, Debug, PartialEq, Eq, Hash)]
pub struct PointerInfo {
    pub pointer_id: Option<PointerId>,
    pub persistent_device_id: Option<PersistentDeviceId>,
    pub pointer_type: PointerType,
}

impl PointerInfo {
    /// The primary pointer: the mouse cursor.
    pub open spec fn spec_primary_mouse() -> PointerInfo {
        PointerInfo {
            pointer_id: Some(PointerId::spec_primary()),
            persistent_device_id: None,
            pointer_type: PointerType::Mouse,
        }
    }

    /// The primary pointer: the mouse cursor.
    #[verifier::when_used_as_spec(spec_primary_mouse)]
    pub fn primary_mouse() -> (r: PointerInfo)
        ensures
            r == PointerInfo::spec_primary_mouse(),
    {
        PointerInfo {
            pointer_id: Some(PointerId::primary()),
            persistent_device_id: None,
            pointer_type: PointerType::Mouse,
        }
    }

    /// The pointer of the touch contact numbered `contact`.
    pub open spec fn spec_touch(contact: u64) -> PointerInfo {
        PointerInfo {
            pointer_id: Some(PointerId::spec_of_touch(contact)),
            persistent_device_id: None,
            pointer_type: PointerType::Touch,
        }
    }

    /// The pointer of the touch contact numbered `contact`.
    #[verifier::when_used_as_spec(spec_touch)]
    pub fn touch(contact: u64) -> (r: PointerInfo)
        ensures
            r == PointerInfo::spec_touch(contact),
    {
        PointerInfo {
            pointer_id: Some(PointerId::of_touch(contact)),
            persistent_device_id: None,
            pointer_type: PointerType::Touch,
        }
    }
}

/// A button of a mouse.
#[derive(Clone, Copy, Debug, PartialEq, Eq, Hash)]
pub enum PointerButton {
    /// Usually the left button.
    Primary,
    /// Usually the right button.
    Secondary,
    /// Usually the middle button or the wheel.
    Auxiliary,
    /// Usually the back button.
    X1,
    /// Usually the forward button.
    X2,
}

/// The set of mouse buttons that are held.
#[derive(Clone, Copy, Debug, PartialEq, Eq, Hash, Default)]
pub struct PointerButtons {
    pub primary: bool,
    pub secondary: bool,
    pub auxiliary: bool,
    pub x1: bool,
    pub x2: bool,
}

impl View for PointerButtons {
    type V = Set<PointerButton>;

    open spec fn view(&self) -> Set<PointerButton> {
        Set::new(|b: PointerButton| self.holds(b))
    }
}

impl PointerButtons {
    /// Whether `button` is in the set.
    pub open spec fn holds(self, button: PointerButton) -> bool {
        match button {
            PointerButton::Primary => self.primary,
            PointerButton::Secondary => self.secondary,
            PointerButton::Auxiliary => self.auxiliary,
            PointerButton::X1 => self.x1,
            PointerButton::X2 => self.x2,
        }
    }

    /// The set with `button` put to `held` and the others as they are.
    pub open spec fn with(self, button: PointerButton, held: bool) -> PointerButtons {
        match button {
            PointerButton::Primary => PointerButtons { primary: held, ..self },
            PointerButton::Secondary => PointerButtons { secondary: held, ..self },
            PointerButton::Auxiliary => PointerButtons { auxiliary: held, ..self },
            PointerButton::X1 => PointerButtons { x1: held, ..self },
            PointerButton::X2 => PointerButtons { x2: held, ..self },
        }
    }

    /// The empty set.
    pub open spec fn spec_new() -> PointerButtons {
        PointerButtons { primary: false, secondary: false, auxiliary: false, x1: false, x2: false }
    }

    /// The empty set.
    #[verifier::when_used_as_spec(spec_new)]
    pub fn new() -> (r: PointerButtons)
        ensures
            r == PointerButtons::spec_new(),
            r@ == Set::<PointerButton>::empty(),
    {
        let r = PointerButtons {
            primary: false,
            secondary: false,
            auxiliary: false,
            x1: false,
            x2: false,
        };
        assert(r@ =~= Set::<PointerButton>::empty());
        r
    }

    /// Whether `button` is in the set.
    pub fn contains(&self, button: PointerButton) -> (r: bool)
        ensures
            r == self@.contains(button),
    {
        match button {
            PointerButton::Primary => self.primary,
            PointerButton::Secondary => self.secondary,
            PointerButton::Auxiliary => self.auxiliary,
            PointerButton::X1 => self.x1,
            PointerButton::X2 => self.x2,
        }
    }

    /// Whether no button is held.
    pub fn is_empty(&self) -> (r: bool)
        ensures
            r == (self@ == Set::<PointerButton>::empty()),
    {
        let r = !(self.primary || self.secondary || self.auxiliary || self.x1 || self.x2);
        proof {
            if r {
                assert(self@ =~= Set::<PointerButton>::empty());
            } else {
                assert(self@.contains(PointerButton::Primary) || self@.contains(
                    PointerButton::Secondary,
                ) || self@.contains(PointerButton::Auxiliary) || self@.contains(PointerButton::X1)
                    || self@.contains(PointerButton::X2));
            }
        }
        r
    }

    /// Adds `button` to the set.
    pub fn insert(&mut self, button: PointerButton)
        ensures
            *final(self) == old(self).with(button, true),
            final(self)@ == old(self)@.insert(button),
    {
        match button {
            PointerButton::Primary => self.primary = true,
            PointerButton::Secondary => self.secondary = true,
            PointerButton::Auxiliary => self.auxiliary = true,
            PointerButton::X1 => self.x1 = true,
            PointerButton::X2 => self.x2 = true,
        }
        proof {
            old(self).lemma_with(button, true);
        }
    }

    /// Takes `button` out of the set.
    pub fn remove(&mut self, button: PointerButton)
        ensures
            *final(self) == old(self).with(button, false),
            final(self)@ == old(self)@.remove(button),
    {
        match button {
            PointerButton::Primary => self.primary = false,
            PointerButton::Secondary => self.secondary = false,
            PointerButton::Auxiliary => self.auxiliary = false,
            PointerButton::X1 => self.x1 = false,
            PointerButton::X2 => self.x2 = false,
        }
        proof {
            old(self).lemma_with(button, false);
        }
    }

    /// Putting a button to held adds it to the set, putting it to released
    /// takes it out, and no other button is touched.
    pub proof fn lemma_with(self, button: PointerButton, held: bool)
        ensures
            held ==> self.with(button, held)@ == self@.insert(button),
            !held ==> self.with(button, held)@ == self@.remove(button),
    {
        if held {
            assert(self.with(button, held)@ =~= self@.insert(button));
        } else {
            assert(self.with(button, held)@ =~= self@.remove(button));
        }
    }
}

/// A snapshot of a pointer at one moment.
#[derive(Clone, Copy, Debug, PartialEq, Eq, Hash, Default)]
pub struct PointerState {
    /// Nanoseconds since the first event that the reducer saw.
    pub time: u64,
    /// Where the pointer is, in logical pixels.
    pub position: Point,
    /// The mouse buttons that are held.
    pub buttons: PointerButtons,
    /// The modifier keys that are held.
    pub modifiers: Modifiers,
    /// How many taps or clicks in a row this event belongs to; 0 while unset.
    pub count: u8,
    /// How hard the contact presses, in thousandths of full pressure.
    pub pressure: u32,
}

impl PointerState {
    /// This state with the repeat count put to `count`.
    pub open spec fn counted(self, count: u8) -> PointerState {
        PointerState { count, ..self }
    }

    /// This state with the repeat count put to `count`.
    pub fn with_count(self, count: u8) -> (r: PointerState)
        ensures
            r == self.counted(count),
    {
        PointerState { count, ..self }
    }
}

/// Each state of `states` with the repeat count put to `count`.
pub open spec fn all_counted(states: Seq<PointerState>, count: u8) -> Seq<PointerState> {
    Seq::new(states.len(), |i: int| states[i].counted(count))
}

/// Each state of `states` with the repeat count put to `count`.
pub fn with_count_all(states: &Vec<PointerState>, count: u8) -> (r: Vec<PointerState>)
    ensures
        r@ == all_counted(states@, count),
{
    let mut out: Vec<PointerState> = Vec::new();
    let mut i: usize = 0;
    while i < states.len()
        invariant
            i <= states.len(),
            out@ == all_counted(states@.take(i as int), count),
        decreases states.len() - i,
    {
        out.push(states[i].with_count(count));
        i = i + 1;
        assert(out@ =~= all_counted(states@.take(i as int), count));
    }
    assert(states@.take(i as int) =~= states@);
    out
}

/// A button went down or up.
#[derive(Clone, Copy, Debug, PartialEq, Eq, Hash)]
pub struct PointerButtonUpdate {
    /// The button, unless it is none that the model knows.
    pub button: Option<PointerButton>,
    pub pointer: PointerInfo,
    pub state: PointerState,
}

/// A pointer moved.
#[derive(Clone, Debug, PartialEq, Eq, Hash)]
pub struct PointerUpdate {
    pub pointer: PointerInfo,
    /// The state after the move.
    pub current: PointerState,
    /// States passed through on the way, oldest first.
    pub coalesced: Vec<PointerState>,
    /// States expected to follow.
    pub predicted: Vec<PointerState>,
}

/// A [`PointerUpdate`] with its lists as sequences.
pub struct PointerUpdateView {
    pub pointer: PointerInfo,
    pub current: PointerState,
    pub coalesced: Seq<PointerState>,
    pub predicted: Seq<PointerState>,
}

impl View for PointerUpdate {
    type V = PointerUpdateView;

    open spec fn view(&self) -> PointerUpdateView {
        PointerUpdateView {
            pointer: self.pointer,
            current: self.current,
            coalesced: self.coalesced@,
            predicted: self.predicted@,
        }
    }
}

impl PointerUpdateView {
    /// This update with every repeat count put to `count`.
    pub open spec fn counted(self, count: u8) -> PointerUpdateView {
        PointerUpdateView {
            pointer: self.pointer,
            current: self.current.counted(count),
            coalesced: all_counted(self.coalesced, count),
            predicted: all_counted(self.predicted, count),
        }
    }
}

/// An amount scrolled.
#[derive(Clone, Copy, Debug, PartialEq, Eq, Hash)]
pub enum ScrollDelta {
    /// In thousandths of a line, across and down.
    LineDelta(i32, i32),
    /// In thousandths of a logical pixel, across and down.
    PixelDelta(i64, i64),
}

/// The wheel turned.
#[derive(Clone, Copy, Debug, PartialEq, Eq, Hash)]
pub struct PointerScrollUpdate {
    pub pointer: PointerInfo,
    pub delta: ScrollDelta,
    pub state: PointerState,
}

/// What a pointer did.
#[derive(Clone, Debug, PartialEq, Eq, Hash)]
pub enum PointerEvent {
    Down(PointerButtonUpdate),
    Up(PointerButtonUpdate),
    Move(PointerUpdate),
    Cancel(PointerInfo),
    Enter(PointerInfo),
    Leave(PointerInfo),
    Scroll(PointerScrollUpdate),
}

/// A [`PointerEvent`] with its lists as sequences.
pub enum PointerEventView {
    Down(PointerButtonUpdate),
    Up(PointerButtonUpdate),
    Move(PointerUpdateView),
    Cancel(PointerInfo),
    Enter(PointerInfo),
    Leave(PointerInfo),
    Scroll(PointerScrollUpdate),
}

impl View for PointerEvent {
    type V = PointerEventView;

    open spec fn view(&self) -> PointerEventView {
        match *self {
            PointerEvent::Down(u) => PointerEventView::Down(u),
            PointerEvent::Up(u) => PointerEventView::Up(u),
            PointerEvent::Move(u) => PointerEventView::Move(u@),
            PointerEvent::Cancel(p) => PointerEventView::Cancel(p),
            PointerEvent::Enter(p) => PointerEventView::Enter(p),
            PointerEvent::Leave(p) => PointerEventView::Leave(p),
            PointerEvent::Scroll(u) => PointerEventView::Scroll(u),
        }
    }
}

impl PointerEventView {
    /// The pointer that the event is about.
    pub open spec fn pointer(self) -> PointerInfo {
        match self {
            PointerEventView::Down(u) => u.pointer,
            PointerEventView::Up(u) => u.pointer,
            PointerEventView::Move(u) => u.pointer,
            PointerEventView::Cancel(p) => p,
            PointerEventView::Enter(p) => p,
            PointerEventView::Leave(p) => p,
            PointerEventView::Scroll(u) => u.pointer,
        }
    }

    /// The pointer state that the event carries, if it carries one.
    pub open spec fn state(self) -> Option<PointerState> {
        match self {
            PointerEventView::Down(u) => Some(u.state),
            PointerEventView::Up(u) => Some(u.state),
            PointerEventView::Move(u) => Some(u.current),
            PointerEventView::Scroll(u) => Some(u.state),
            _ => None,
        }
    }
}

} // verus!
