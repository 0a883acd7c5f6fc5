//! The reducer: one per window, it turns each window event into at most one
//! event of the model and keeps what it needs to know between events.

use crate::clock::nanos_since;
use crate::keyboard::Modifiers;
use crate::pointer::{
    PointerButtonUpdate, PointerButtons, PointerEvent, PointerEventView, PointerInfo,
    PointerScrollUpdate, PointerState, PointerUpdate, PointerUpdateView, ScrollDelta,
};
use crate::tap::{advanced, lemma_stamped_keeps_state, stamped, TapCounter, TapState};
use crate::ui_event::{UiEvent, UiEventView};
use crate::units::{lemma_scaled_by_unit, scaled, PhysicalPoint, Point, ScaleFactor, UNIT};
use crate::window::{
    touch_pressure, ElementState, MouseScrollDelta, Touch, TouchPhase, WindowEvent,
};
use std::time::Instant;
use vstd::prelude::*;

verus! {

/// What a reducer knows between two events.
pub struct ReducerView {
    /// The state of the primary pointer, the mouse cursor.
    pub primary: PointerState,
    /// The clusters of the tap counter, oldest first.
    pub taps: Seq<TapState>,
    /// The scale factor of the window, once it is known.
    pub scale_factor: Option<ScaleFactor>,
}

/// The scale factor in thousandths that positions are converted with: that
/// of the window, and 1.0 while it is not known.
pub open spec fn active_scale(scale_factor: Option<ScaleFactor>) -> int {
    match scale_factor {
        Some(scale) => scale.value(),
        None => UNIT as int,
    }
}

/// The logical position of `physical` in a window with `scale_factor`.
pub open spec fn logical_at(physical: PhysicalPoint, scale_factor: Option<ScaleFactor>) -> Point {
    Point {
        x: scaled(physical.x as int, active_scale(scale_factor)) as i64,
        y: scaled(physical.y as int, active_scale(scale_factor)) as i64,
    }
}

/// The time of an event that comes while the clock reads `now`: the
/// reading, or the time of the event before where the reading is behind it.
pub open spec fn time_at(s: ReducerView, now: u64) -> u64 {
    if now < s.primary.time {
        s.primary.time
    } else {
        now
    }
}

/// The state of the primary pointer after `event` came at the reading `now`:
/// it has the time of the event; a change of modifiers puts the new
/// modifiers in, a move of the cursor the new logical position, a press or
/// release of a known mouse button adds the button to the held ones or takes
/// it out. The repeat count and the pressure stay as they are.
pub open spec fn primary_after(s: ReducerView, now: u64, event: WindowEvent) -> PointerState {
    let p = PointerState { time: time_at(s, now), ..s.primary };
    match event {
        WindowEvent::ModifiersChanged(modifiers) => PointerState { modifiers, ..p },
        WindowEvent::CursorMoved { position } => PointerState {
            position: logical_at(position, s.scale_factor),
            ..p
        },
        WindowEvent::MouseInput { state, button } => match button.pointer_button() {
            Some(b) => PointerState { buttons: p.buttons.with(b, state is Pressed), ..p },
            None => p,
        },
        _ => p,
    }
}

/// The state of a touch contact that is seen at `time`: at the logical
/// position of the contact, with the modifiers that are held, no buttons, no
/// repeat count yet and the pressure of the contact.
pub open spec fn touch_state(s: ReducerView, time: u64, touch: Touch) -> PointerState {
    PointerState {
        time,
        position: logical_at(touch.location, s.scale_factor),
        buttons: PointerButtons::new(),
        modifiers: s.primary.modifiers,
        count: 0,
        pressure: touch_pressure(touch.phase, touch.force),
    }
}

/// The event of the model that `event` makes at the reading `now`, before
/// the tap counter has seen it; `None` where it makes none.
pub open spec fn normalized(s: ReducerView, now: u64, event: WindowEvent) -> Option<
    UiEventView,
> {
    let mouse = PointerInfo::primary_mouse();
    let state = primary_after(s, now, event);
    match event {
        WindowEvent::ModifiersChanged(_) => None,
        WindowEvent::KeyboardInput { event: key } => Some(
            UiEventView::Keyboard(key.with_modifiers(s.primary.modifiers)),
        ),
        WindowEvent::CursorEntered => Some(UiEventView::Pointer(PointerEventView::Enter(mouse))),
        WindowEvent::CursorLeft => Some(UiEventView::Pointer(PointerEventView::Leave(mouse))),
        WindowEvent::CursorMoved { .. } => Some(
            UiEventView::Pointer(
                PointerEventView::Move(
                    PointerUpdateView {
                        pointer: mouse,
                        current: state,
                        coalesced: Seq::empty(),
                        predicted: Seq::empty(),
                    },
                ),
            ),
        ),
        WindowEvent::MouseInput { state: ElementState::Pressed, button } => Some(
            UiEventView::Pointer(
                PointerEventView::Down(
                    PointerButtonUpdate { button: button.pointer_button(), pointer: mouse, state },
                ),
            ),
        ),
        WindowEvent::MouseInput { state: ElementState::Released, button } => Some(
            UiEventView::Pointer(
                PointerEventView::Up(
                    PointerButtonUpdate { button: button.pointer_button(), pointer: mouse, state },
                ),
            ),
        ),
        WindowEvent::MouseWheel { delta } => Some(
            UiEventView::Pointer(
                PointerEventView::Scroll(
                    PointerScrollUpdate {
                        pointer: mouse,
                        delta: match delta {
                            MouseScrollDelta::LineDelta(x, y) => ScrollDelta::LineDelta(x, y),
                            MouseScrollDelta::PixelDelta(p) => ScrollDelta::PixelDelta(
                                logical_at(p, s.scale_factor).x,
                                logical_at(p, s.scale_factor).y,
                            ),
                        },
                        state,
                    },
                ),
            ),
        ),
        WindowEvent::Touch(touch) => {
            let pointer = PointerInfo::touch(touch.id);
            let state = touch_state(s, time_at(s, now), touch);
            Some(
                UiEventView::Pointer(
                    match touch.phase {
                        TouchPhase::Started => PointerEventView::Down(
                            PointerButtonUpdate { button: None, pointer, state },
                        ),
                        TouchPhase::Moved => PointerEventView::Move(
                            PointerUpdateView {
                                pointer,
                                current: state,
                                coalesced: Seq::empty(),
                                predicted: Seq::empty(),
                            },
                        ),
                        TouchPhase::Ended => PointerEventView::Up(
                            PointerButtonUpdate { button: None, pointer, state },
                        ),
                        TouchPhase::Cancelled => PointerEventView::Cancel(pointer),
                    },
                ),
            )
        },
        WindowEvent::ScaleFactorChanged { .. } => None,
        WindowEvent::Other => None,
    }
}

/// The event that the reducer hands out for `event` at the reading `now`:
/// the [`normalized`] event, a pointer event with the repeat count that the
/// tap counter gives it.
pub open spec fn emitted(s: ReducerView, now: u64, event: WindowEvent) -> Option<UiEventView> {
    match normalized(s, now, event) {
        Some(UiEventView::Pointer(e)) => Some(UiEventView::Pointer(stamped(s.taps, e))),
        other => other,
    }
}

/// What the reducer knows after `event` came at the reading `now`.
pub open spec fn next(s: ReducerView, now: u64, event: WindowEvent) -> ReducerView {
    ReducerView {
        primary: primary_after(s, now, event),
        taps: match normalized(s, now, event) {
            Some(UiEventView::Pointer(e)) => advanced(s.taps, e),
            _ => s.taps,
        },
        scale_factor: match event {
            WindowEvent::ScaleFactorChanged { scale_factor } => Some(scale_factor),
            _ => s.scale_factor,
        },
    }
}

/// An optional event with its lists as sequences.
pub open spec fn view_of(event: Option<UiEvent>) -> Option<UiEventView> {
    match event {
        Some(e) => Some(e@),
        None => None,
    }
}

/// Turns the events of one window into events of the model.
#[derive(Debug)]
pub struct WindowEventReducer {
    /// The mouse cursor as of the last event.
    primary_state: PointerState,
    /// The clusters of taps and clicks that are alive.
    counter: TapCounter,
    /// The clock reading at the first event, from which time is counted.
    first_instant: Option<Instant>,
    /// The scale factor of the window, once it is known.
    scale_factor: Option<ScaleFactor>,
}

impl View for WindowEventReducer {
    type V = ReducerView;

    closed spec fn view(&self) -> ReducerView {
        ReducerView {
            primary: self.primary_state,
            taps: self.counter@,
            scale_factor: self.scale_factor,
        }
    }
}

impl Default for WindowEventReducer {
    fn default() -> (r: Self)
        ensures
            r@ == WindowEventReducer::initial(),
            r.epoch() is None,
    {
        WindowEventReducer::new()
    }
}

impl WindowEventReducer {
    /// What a new reducer knows: the primary pointer at the origin at time
    /// 0 with nothing held, no clusters, no scale factor.
    pub open spec fn initial() -> ReducerView {
        ReducerView {
            primary: PointerState {
                time: 0,
                position: Point { x: 0, y: 0 },
                buttons: PointerButtons::new(),
                modifiers: Modifiers { shift: false, ctrl: false, alt: false, meta: false },
                count: 0,
                pressure: 0,
            },
            taps: Seq::empty(),
            scale_factor: None,
        }
    }

    /// The clock reading that event times are counted from, once the first
    /// event has come to [`reduce`](Self::reduce).
    pub closed spec fn epoch(&self) -> Option<Instant> {
        self.first_instant
    }

    /// A reducer that has seen no event.
    pub fn new() -> (r: WindowEventReducer)
        ensures
            r@ == WindowEventReducer::initial(),
            r.epoch() is None,
    {
        WindowEventReducer {
            primary_state: PointerState {
                time: 0,
                position: Point { x: 0, y: 0 },
                buttons: PointerButtons::new(),
                modifiers: Modifiers { shift: false, ctrl: false, alt: false, meta: false },
                count: 0,
                pressure: 0,
            },
            counter: TapCounter::new(),
            first_instant: None,
            scale_factor: None,
        }
    }

    /// The state of the primary pointer.
    pub fn primary_state(&self) -> (r: PointerState)
        ensures
            r == self@.primary,
    {
        self.primary_state
    }

    /// The tap counter.
    pub fn counter(&self) -> (r: &TapCounter)
        ensures
            r@ == self@.taps,
    {
        &self.counter
    }

    /// The scale factor of the window, once it is known.
    pub fn scale_factor(&self) -> (r: Option<ScaleFactor>)
        ensures
            r == self@.scale_factor,
    {
        self.scale_factor
    }

    /// Sets the scale factor of the window.
    pub fn set_scale_factor(&mut self, scale_factor: ScaleFactor)
        ensures
            final(self)@ == (ReducerView { scale_factor: Some(scale_factor), ..old(self)@ }),
            final(self).epoch() == old(self).epoch(),
    {
        self.scale_factor = Some(scale_factor);
    }

    /// The logical position of `physical` in the window.
    fn to_logical(&self, physical: PhysicalPoint) -> (r: Point)
        ensures
            r == logical_at(physical, self@.scale_factor),
    {
        let scale = match self.scale_factor {
            Some(scale) => scale,
            None => ScaleFactor::one(),
        };
        physical.to_logical(scale)
    }

    /// Processes a window event that comes while the clock reads `now`
    /// nanoseconds. A reading behind the time of the event before counts as
    /// that time.
    pub fn reduce_at(&mut self, now: u64, window_event: &WindowEvent) -> (r: Option<UiEvent>)
        ensures
            view_of(r) == emitted(old(self)@, now, *window_event),
            final(self)@ == next(old(self)@, now, *window_event),
            final(self)@.primary.time == time_at(old(self)@, now),
            r matches Some(e) ==> (e@.time() matches Some(t) ==> t == final(self)@.primary.time),
            final(self).epoch() == old(self).epoch(),
    {
        proof {
            lemma_emitted_time(self@, now, *window_event);
        }
        let time = if now < self.primary_state.time {
            self.primary_state.time
        } else {
            now
        };
        self.primary_state.time = time;
        match window_event {
            WindowEvent::ModifiersChanged(modifiers) => {
                self.primary_state.modifiers = *modifiers;
                None
            },
            WindowEvent::KeyboardInput { event } => Some(
                UiEvent::Keyboard(event.attach(self.primary_state.modifiers)),
            ),
            WindowEvent::CursorEntered => Some(
                UiEvent::Pointer(
                    self.counter.attach_count(PointerEvent::Enter(PointerInfo::primary_mouse())),
                ),
            ),
            WindowEvent::CursorLeft => Some(
                UiEvent::Pointer(
                    self.counter.attach_count(PointerEvent::Leave(PointerInfo::primary_mouse())),
                ),
            ),
            WindowEvent::CursorMoved { position } => {
                self.primary_state.position = self.to_logical(*position);
                Some(
                    UiEvent::Pointer(
                        self.counter.attach_count(
                            PointerEvent::Move(
                                PointerUpdate {
                                    pointer: PointerInfo::primary_mouse(),
                                    current: self.primary_state,
                                    coalesced: Vec::new(),
                                    predicted: Vec::new(),
                                },
                            ),
                        ),
                    ),
                )
            },
            WindowEvent::MouseInput { state: ElementState::Pressed, button } => {
                let button = button.pointer_button();
                if let Some(b) = button {
                    self.primary_state.buttons.insert(b);
                }
                Some(
                    UiEvent::Pointer(
                        self.counter.attach_count(
                            PointerEvent::Down(
                                PointerButtonUpdate {
                                    pointer: PointerInfo::primary_mouse(),
                                    button,
                                    state: self.primary_state,
                                },
                            ),
                        ),
                    ),
                )
            },
            WindowEvent::MouseInput { state: ElementState::Released, button } => {
                let button = button.pointer_button();
                if let Some(b) = button {
                    self.primary_state.buttons.remove(b);
                }
                Some(
                    UiEvent::Pointer(
                        self.counter.attach_count(
                            PointerEvent::Up(
                                PointerButtonUpdate {
                                    pointer: PointerInfo::primary_mouse(),
                                    button,
                                    state: self.primary_state,
                                },
                            ),
                        ),
                    ),
                )
            },
            WindowEvent::MouseWheel { delta } => {
                let delta = match *delta {
                    MouseScrollDelta::LineDelta(x, y) => ScrollDelta::LineDelta(x, y),
                    MouseScrollDelta::PixelDelta(p) => {
                        let logical = self.to_logical(p);
                        ScrollDelta::PixelDelta(logical.x, logical.y)
                    },
                };
                Some(
                    UiEvent::Pointer(
                        self.counter.attach_count(
                            PointerEvent::Scroll(
                                PointerScrollUpdate {
                                    pointer: PointerInfo::primary_mouse(),
                                    delta,
                                    state: self.primary_state,
                                },
                            ),
                        ),
                    ),
                )
            },
            WindowEvent::Touch(touch) => {
                let pointer = PointerInfo::touch(touch.id);
                let state = PointerState {
                    time,
                    position: self.to_logical(touch.location),
                    buttons: PointerButtons::new(),
                    modifiers: self.primary_state.modifiers,
                    count: 0,
                    pressure: touch.pressure(),
                };
                Some(
                    UiEvent::Pointer(
                        self.counter.attach_count(
                            match touch.phase {
                                TouchPhase::Started => PointerEvent::Down(
                                    PointerButtonUpdate { pointer, button: None, state },
                                ),
                                TouchPhase::Moved => PointerEvent::Move(
                                    PointerUpdate {
                                        pointer,
                                        current: state,
                                        coalesced: Vec::new(),
                                        predicted: Vec::new(),
                                    },
                                ),
                                TouchPhase::Cancelled => PointerEvent::Cancel(pointer),
                                TouchPhase::Ended => PointerEvent::Up(
                                    PointerButtonUpdate { pointer, button: None, state },
                                ),
                            },
                        ),
                    ),
                )
            },
            WindowEvent::ScaleFactorChanged { scale_factor } => {
                self.scale_factor = Some(*scale_factor);
                None
            },
            WindowEvent::Other => None,
        }
    }

    /// Processes a window event. Its time is the time that has passed since
    /// the first event came to this function, by the monotonic clock of the
    /// machine; should the clock ever read less than at the event before,
    /// the time of that event is kept.
    pub fn reduce(&mut self, window_event: &WindowEvent) -> (r: Option<UiEvent>)
        ensures
            final(self)@.primary.time >= old(self)@.primary.time,
            r matches Some(e) ==> (e@.time() matches Some(t) ==> t == final(self)@.primary.time),
            view_of(r) == emitted(old(self)@, final(self)@.primary.time, *window_event),
            final(self)@ == next(old(self)@, final(self)@.primary.time, *window_event),
            final(self).epoch() is Some,
            old(self).epoch() is Some ==> final(self).epoch() == old(self).epoch(),
    {
        let now = nanos_since(&mut self.first_instant);
        self.reduce_at(now, window_event)
    }
}

/// What the reducer knows after the events of `inputs` came in their order,
/// each at its clock reading, where it knew `s` before.
pub open spec fn after_all(s: ReducerView, inputs: Seq<(u64, WindowEvent)>) -> ReducerView
    decreases inputs.len(),
{
    if inputs.len() == 0 {
        s
    } else {
        next(after_all(s, inputs.drop_last()), inputs.last().0, inputs.last().1)
    }
}

/// The event that the reducer hands out for the event at place `i` of
/// `inputs`, after those before it, where it knew `s` at the start.
pub open spec fn output(s: ReducerView, inputs: Seq<(u64, WindowEvent)>, i: int) -> Option<
    UiEventView,
> {
    emitted(after_all(s, inputs.take(i)), inputs[i].0, inputs[i].1)
}

/// An event never moves the time of the reducer back, and every pointer
/// state that the reducer hands out has the time of the reducer after the
/// event.
pub proof fn lemma_emitted_time(s: ReducerView, now: u64, event: WindowEvent)
    ensures
        next(s, now, event).primary.time == time_at(s, now),
        time_at(s, now) >= s.primary.time,
        time_at(s, now) >= now,
        emitted(s, now, event) matches Some(e) ==> (e.time() matches Some(t) ==> t == time_at(
            s,
            now,
        )),
{
    match normalized(s, now, event) {
        Some(UiEventView::Pointer(e)) => {
            lemma_stamped_keeps_state(s.taps, e);
        },
        _ => {},
    }
}

/// Time is monotonic: whatever events come to a reducer, at whatever clock
/// readings, of two pointer states that it hands out the later one does not
/// have the earlier time.
pub proof fn lemma_time_never_decreases(
    s: ReducerView,
    inputs: Seq<(u64, WindowEvent)>,
    i: int,
    j: int,
)
    requires
        0 <= i <= j < inputs.len(),
        output(s, inputs, i) matches Some(e) && e.time() is Some,
        output(s, inputs, j) matches Some(e) && e.time() is Some,
    ensures
        output(s, inputs, i).unwrap().time().unwrap() <= output(
            s,
            inputs,
            j,
        ).unwrap().time().unwrap(),
{
    let before_i = after_all(s, inputs.take(i));
    let before_j = after_all(s, inputs.take(j));
    lemma_emitted_time(before_i, inputs[i].0, inputs[i].1);
    lemma_emitted_time(before_j, inputs[j].0, inputs[j].1);
    if i < j {
        // The state before event j is at or after the state that event i left.
        assert(inputs.take(i + 1).drop_last() =~= inputs.take(i));
        assert(inputs.take(i + 1).last() == inputs[i]);
        lemma_after_all_time(s, inputs, i + 1, j);
    }
}

/// The time of the reducer after the first `k` events of `inputs` is not
/// before its time after the first `h`, for `h` up to `k`.
proof fn lemma_after_all_time(s: ReducerView, inputs: Seq<(u64, WindowEvent)>, h: int, k: int)
    requires
        0 <= h <= k <= inputs.len(),
    ensures
        after_all(s, inputs.take(h)).primary.time <= after_all(s, inputs.take(k)).primary.time,
    decreases k - h,
{
    if h < k {
        lemma_after_all_time(s, inputs, h, k - 1);
        assert(inputs.take(k).drop_last() =~= inputs.take(k - 1));
        assert(inputs.take(k).last() == inputs[k - 1]);
        lemma_emitted_time(after_all(s, inputs.take(k - 1)), inputs[k - 1].0, inputs[k - 1].1);
    }
}

/// A wheel delta in lines passes through as it is; one in pixels is
/// converted to logical pixels with the scale factor of the window.
pub proof fn lemma_wheel_delta(s: ReducerView, now: u64, delta: MouseScrollDelta)
    ensures
        emitted(s, now, WindowEvent::MouseWheel { delta }) matches Some(
            UiEventView::Pointer(PointerEventView::Scroll(u)),
        ) && u.delta == match delta {
            MouseScrollDelta::LineDelta(x, y) => ScrollDelta::LineDelta(x, y),
            MouseScrollDelta::PixelDelta(p) => ScrollDelta::PixelDelta(
                scaled(p.x as int, active_scale(s.scale_factor)) as i64,
                scaled(p.y as int, active_scale(s.scale_factor)) as i64,
            ),
        },
{
}

/// While the scale factor of the window is not known, and at the scale
/// factor 1.0, the logical position is the physical position.
pub proof fn lemma_logical_at_unit_scale(physical: PhysicalPoint, scale_factor: Option<ScaleFactor>)
    requires
        active_scale(scale_factor) == UNIT,
    ensures
        logical_at(physical, scale_factor) == (Point {
            x: physical.x as i64,
            y: physical.y as i64,
        }),
{
    lemma_scaled_by_unit(physical.x as int);
    lemma_scaled_by_unit(physical.y as int);
}

} // verus!
