//! Counting taps and clicks: presses that follow one another closely in
//! place and time belong to one cluster and count up.

use crate::pointer::{
    same_pointer, PointerButtonUpdate, PointerEvent, PointerEventView, PointerId, PointerUpdate,
    with_count_all,
};
use crate::units::Point;
use vstd::prelude::*;

verus! {

/// How far from the last press of a cluster, in thousandths of a logical
/// pixel, a press no longer carries the cluster on: 4 logical pixels.
pub const TAP_RADIUS: i64 = 4000;

/// How long after the last release of a cluster, in nanoseconds, a press no
/// longer carries the cluster on: half a second.
pub const TAP_GRACE: u64 = 500_000_000;

/// Whether `a` and `b` are less than [`TAP_RADIUS`] apart in a straight line.
pub open spec fn within_radius(a: Point, b: Point) -> bool {
    (a.x - b.x) * (a.x - b.x) + (a.y - b.y) * (a.y - b.y) < TAP_RADIUS * TAP_RADIUS
}

/// Whether `a` and `b` are less than [`TAP_RADIUS`] apart in a straight line.
pub fn is_within_radius(a: Point, b: Point) -> (r: bool)
    ensures
        r == within_radius(a, b),
{
    let dx: i128 = a.x as i128 - b.x as i128;
    let dy: i128 = a.y as i128 - b.y as i128;
    let radius: i128 = TAP_RADIUS as i128;
    if dx <= -radius || dx >= radius || dy <= -radius || dy >= radius {
        assert(dx * dx + dy * dy >= radius * radius) by (nonlinear_arith)
            requires
                dx <= -radius || dx >= radius || dy <= -radius || dy >= radius,
                radius > 0,
        ;
        false
    } else {
        assert(dx * dx < radius * radius && dy * dy < radius * radius && dx * dx >= 0 && dy * dy
            >= 0) by (nonlinear_arith)
            requires
                -radius < dx < radius,
                -radius < dy < radius,
        ;
        dx * dx + dy * dy < radius * radius
    }
}

/// The repeat count after `count`: one more, and 255 stays 255.
pub open spec fn next_count(count: u8) -> u8 {
    if count < u8::MAX {
        (count + 1) as u8
    } else {
        u8::MAX
    }
}

/// One cluster of taps or clicks.
#[derive(Clone, Copy, Debug, PartialEq, Eq, Hash)]
pub struct TapState {
    /// The pointer that pressed last.
    pub pointer_id: Option<PointerId>,
    /// When the last press went down, in nanoseconds.
    pub down_time: u64,
    /// When the last press went up, in nanoseconds; equal to `down_time`
    /// while it is still down.
    pub up_time: u64,
    /// The repeat count as of the last press.
    pub count: u8,
    /// Where the last press went down, in thousandths of a logical pixel.
    pub x: i64,
    pub y: i64,
}

/// A choice of clusters.
#[derive(Clone, Copy, Debug, PartialEq, Eq, Hash)]
pub enum TapQuery {
    /// Those that a press at `position` at `time` carries on: pressed last
    /// within the radius, and still down or released within the grace period.
    Repeats { position: Point, time: u64 },
    /// Those that the pointer pressed last.
    Pointer(Option<PointerId>),
    /// Those that the pointer pressed last and has not released.
    OpenPress(Option<PointerId>),
    /// Those released and left alone for the whole grace period before
    /// `time`.
    Expired { time: u64 },
}

impl TapState {
    /// The cluster that a press by `pointer_id` at `position` at `time`
    /// leaves, with the repeat count `count`.
    pub open spec fn pressed(
        pointer_id: Option<PointerId>,
        position: Point,
        time: u64,
        count: u8,
    ) -> TapState {
        TapState {
            pointer_id,
            down_time: time,
            up_time: time,
            count,
            x: position.x,
            y: position.y,
        }
    }

    /// This cluster after a release at `time`.
    pub open spec fn released(self, time: u64) -> TapState {
        TapState { up_time: time, ..self }
    }

    /// Where the last press went down.
    pub open spec fn position(self) -> Point {
        Point { x: self.x, y: self.y }
    }

    /// Whether the last press is still down.
    pub open spec fn is_pressed(self) -> bool {
        self.down_time == self.up_time
    }

    /// Whether `time` lies before the end of the grace period, which starts
    /// with the last release, and with the last press while that is down.
    pub open spec fn in_grace(self, time: u64) -> bool {
        self.up_time + TAP_GRACE > time
    }

    /// Whether the cluster is one of those that `query` chooses.
    pub open spec fn matches(self, query: TapQuery) -> bool {
        match query {
            TapQuery::Repeats { position, time } => within_radius(self.position(), position)
                && self.in_grace(time),
            TapQuery::Pointer(id) => self.pointer_id == id,
            TapQuery::OpenPress(id) => self.pointer_id == id && self.is_pressed(),
            TapQuery::Expired { time } => !self.is_pressed() && !self.in_grace(time),
        }
    }

    /// Whether `time` lies before the end of the grace period, which starts
    /// with the last release, and with the last press while that is down.
    pub fn is_in_grace(&self, time: u64) -> (r: bool)
        ensures
            r == self.in_grace(time),
    {
        time < self.up_time || time - self.up_time < TAP_GRACE
    }

    /// Whether the cluster is one of those that `query` chooses.
    pub fn is_match(&self, query: &TapQuery) -> (r: bool)
        ensures
            r == self.matches(*query),
    {
        match query {
            TapQuery::Repeats { position, time } => is_within_radius(
                Point { x: self.x, y: self.y },
                *position,
            ) && self.is_in_grace(*time),
            TapQuery::Pointer(id) => same_pointer(self.pointer_id, *id),
            TapQuery::OpenPress(id) => same_pointer(self.pointer_id, *id) && self.down_time
                == self.up_time,
            TapQuery::Expired { time } => self.down_time != self.up_time && !self.is_in_grace(
                *time,
            ),
        }
    }
}

/// Whether `i` is the place of the first cluster of `taps` that `query`
/// chooses.
pub open spec fn is_first_match(taps: Seq<TapState>, query: TapQuery, i: int) -> bool {
    &&& 0 <= i < taps.len()
    &&& taps[i].matches(query)
    &&& forall|j: int| 0 <= j < i ==> !(#[trigger] taps[j]).matches(query)
}

/// The place of the first cluster of `taps` that `query` chooses, if it
/// chooses any.
pub open spec fn first_match(taps: Seq<TapState>, query: TapQuery) -> Option<int> {
    if exists|i: int| is_first_match(taps, query, i) {
        Some(choose|i: int| is_first_match(taps, query, i))
    } else {
        None
    }
}

/// The test that the clusters pass which `query` does not choose.
pub open spec fn outside(query: TapQuery) -> spec_fn(TapState) -> bool {
    |t: TapState| !t.matches(query)
}

/// The clusters of `taps` that `query` does not choose, in their order.
pub open spec fn without(taps: Seq<TapState>, query: TapQuery) -> Seq<TapState> {
    taps.filter(outside(query))
}

/// The repeat count of a press at `position` at `time`: the next count of
/// the first cluster that the press carries on, or 1 where there is none.
pub open spec fn press_count(taps: Seq<TapState>, position: Point, time: u64) -> u8 {
    match first_match(taps, TapQuery::Repeats { position, time }) {
        Some(i) => next_count(taps[i].count),
        None => 1,
    }
}

/// The clusters after a press by `pointer_id` at `position` at `time`: the
/// first cluster that the press carries on is replaced by the press, or the
/// press is added at the end; then the expired clusters are dropped.
pub open spec fn after_press(
    taps: Seq<TapState>,
    pointer_id: Option<PointerId>,
    position: Point,
    time: u64,
) -> Seq<TapState> {
    let fresh = TapState::pressed(pointer_id, position, time, press_count(taps, position, time));
    let marked = match first_match(taps, TapQuery::Repeats { position, time }) {
        Some(i) => taps.update(i, fresh),
        None => taps.push(fresh),
    };
    without(marked, TapQuery::Expired { time })
}

/// The event that the counter hands back for `event` while it holds `taps`:
/// a press gets its [`press_count`]; a release gets the count of the first
/// cluster of its pointer; a move gets, in every state it carries, the count
/// of the first cluster that its pointer holds pressed; anything else, and a
/// release or move that finds no such cluster, comes back as it is.
pub open spec fn stamped(taps: Seq<TapState>, event: PointerEventView) -> PointerEventView {
    match event {
        PointerEventView::Down(u) => PointerEventView::Down(
            PointerButtonUpdate {
                state: u.state.counted(press_count(taps, u.state.position, u.state.time)),
                ..u
            },
        ),
        PointerEventView::Up(u) => match first_match(
            taps,
            TapQuery::Pointer(u.pointer.pointer_id),
        ) {
            Some(i) => PointerEventView::Up(
                PointerButtonUpdate { state: u.state.counted(taps[i].count), ..u },
            ),
            None => event,
        },
        PointerEventView::Move(u) => match first_match(
            taps,
            TapQuery::OpenPress(u.pointer.pointer_id),
        ) {
            Some(i) => PointerEventView::Move(u.counted(taps[i].count)),
            None => event,
        },
        _ => event,
    }
}

/// The clusters that the counter holds after `event` where it held `taps`
/// before: see [`after_press`] for a press; a release puts the release time
/// into the first cluster of its pointer; a cancel or a leave drops every
/// cluster of its pointer; anything else leaves them alone.
pub open spec fn advanced(taps: Seq<TapState>, event: PointerEventView) -> Seq<TapState> {
    match event {
        PointerEventView::Down(u) => after_press(
            taps,
            u.pointer.pointer_id,
            u.state.position,
            u.state.time,
        ),
        PointerEventView::Up(u) => match first_match(
            taps,
            TapQuery::Pointer(u.pointer.pointer_id),
        ) {
            Some(i) => taps.update(i, taps[i].released(u.state.time)),
            None => taps,
        },
        PointerEventView::Cancel(p) => without(taps, TapQuery::Pointer(p.pointer_id)),
        PointerEventView::Leave(p) => without(taps, TapQuery::Pointer(p.pointer_id)),
        _ => taps,
    }
}

/// No two places are the first match of one query.
pub proof fn lemma_first_match_unique(taps: Seq<TapState>, query: TapQuery, i: int, j: int)
    requires
        is_first_match(taps, query, i),
        is_first_match(taps, query, j),
    ensures
        i == j,
{
    if i < j {
        assert(!taps[i].matches(query));
    } else if j < i {
        assert(!taps[j].matches(query));
    }
}

/// The counter changes nothing of an event but repeat counts: the event that
/// comes back is of the same kind and about the same pointer, and a state
/// that it carries differs from the one that went in by its count at most.
pub proof fn lemma_stamped_keeps_state(taps: Seq<TapState>, event: PointerEventView)
    ensures
        stamped(taps, event).pointer() == event.pointer(),
        stamped(taps, event).state() is Some <==> event.state() is Some,
        event.state() matches Some(state) ==> stamped(taps, event).state() == Some(
            state.counted(stamped(taps, event).state().unwrap().count),
        ),
{
}

/// A press always counts: its repeat count is 1 at least.
pub proof fn lemma_press_count_positive(taps: Seq<TapState>, position: Point, time: u64)
    ensures
        press_count(taps, position, time) >= 1,
{
}

/// The cluster of a press is among the clusters after the press: a cluster
/// whose press is down does not expire, whatever the time.
pub proof fn lemma_press_is_kept(
    taps: Seq<TapState>,
    pointer_id: Option<PointerId>,
    position: Point,
    time: u64,
)
    ensures
        after_press(taps, pointer_id, position, time).contains(
            TapState::pressed(pointer_id, position, time, press_count(taps, position, time)),
        ),
{
    let fresh = TapState::pressed(pointer_id, position, time, press_count(taps, position, time));
    let expired = TapQuery::Expired { time };
    match first_match(taps, TapQuery::Repeats { position, time }) {
        Some(i) => {
            let marked = taps.update(i, fresh);
            assert(marked[i] == fresh);
            marked.lemma_filter_contains(outside(expired), i);
        },
        None => {
            let marked = taps.push(fresh);
            assert(marked[taps.len() as int] == fresh);
            marked.lemma_filter_contains(outside(expired), taps.len() as int);
        },
    }
}

/// After a cancel or a leave no cluster of the pointer is left, and the
/// clusters of other pointers are all there, in their order.
pub proof fn lemma_without_pointer(taps: Seq<TapState>, pointer_id: Option<PointerId>)
    ensures
        forall|i: int|
            0 <= i < without(taps, TapQuery::Pointer(pointer_id)).len() ==> (#[trigger] without(
                taps,
                TapQuery::Pointer(pointer_id),
            )[i]).pointer_id != pointer_id,
        first_match(without(taps, TapQuery::Pointer(pointer_id)), TapQuery::Pointer(pointer_id))
            is None,
        first_match(
            without(taps, TapQuery::Pointer(pointer_id)),
            TapQuery::OpenPress(pointer_id),
        ) is None,
{
    let query = TapQuery::Pointer(pointer_id);
    let rest = without(taps, query);
    assert forall|i: int| 0 <= i < rest.len() implies (#[trigger] rest[i]).pointer_id
        != pointer_id by {
        taps.lemma_filter_pred(outside(query), i);
    }
}

/// An event adds one cluster at most.
pub proof fn lemma_advanced_len(taps: Seq<TapState>, event: PointerEventView)
    ensures
        advanced(taps, event).len() <= taps.len() + 1,
{
    match event {
        PointerEventView::Down(u) => {
            let position = u.state.position;
            let time = u.state.time;
            let fresh = TapState::pressed(
                u.pointer.pointer_id,
                position,
                time,
                press_count(taps, position, time),
            );
            let marked = match first_match(taps, TapQuery::Repeats { position, time }) {
                Some(i) => taps.update(i, fresh),
                None => taps.push(fresh),
            };
            marked.lemma_filter_len(outside(TapQuery::Expired { time }));
        },
        PointerEventView::Cancel(p) => {
            taps.lemma_filter_len(outside(TapQuery::Pointer(p.pointer_id)));
        },
        PointerEventView::Leave(p) => {
            taps.lemma_filter_len(outside(TapQuery::Pointer(p.pointer_id)));
        },
        _ => {},
    }
}

/// The tap and click counter: the clusters that are alive, oldest first.
#[derive(Debug)]
pub struct TapCounter {
    taps: Vec<TapState>,
}

impl View for TapCounter {
    type V = Seq<TapState>;

    closed spec fn view(&self) -> Seq<TapState> {
        self.taps@
    }
}

impl Default for TapCounter {
    fn default() -> (r: Self)
        ensures
            r@ == Seq::<TapState>::empty(),
    {
        TapCounter::new()
    }
}

impl TapCounter {
    /// A counter without clusters.
    pub fn new() -> (r: TapCounter)
        ensures
            r@ == Seq::<TapState>::empty(),
    {
        TapCounter { taps: Vec::new() }
    }

    /// The clusters that are alive, oldest first.
    pub fn clusters(&self) -> (r: &Vec<TapState>)
        ensures
            r@ == self@,
    {
        &self.taps
    }

    /// The place of the first cluster that `query` chooses.
    fn find(&self, query: &TapQuery) -> (r: Option<usize>)
        ensures
            r is Some <==> first_match(self@, *query) is Some,
            r matches Some(i) ==> first_match(self@, *query) == Some(i as int) && is_first_match(
                self@,
                *query,
                i as int,
            ),
    {
        let mut i: usize = 0;
        while i < self.taps.len()
            invariant
                i <= self.taps.len(),
                forall|j: int| 0 <= j < i ==> !(#[trigger] self.taps@[j]).matches(*query),
            decreases self.taps.len() - i,
        {
            if self.taps[i].is_match(query) {
                proof {
                    assert(is_first_match(self@, *query, i as int));
                    let c = choose|c: int| is_first_match(self@, *query, c);
                    lemma_first_match_unique(self@, *query, i as int, c);
                }
                return Some(i);
            }
            i = i + 1;
        }
        None
    }

    /// Drops every cluster that `query` chooses.
    fn remove_all(&mut self, query: &TapQuery)
        ensures
            final(self)@ == without(old(self)@, *query),
    {
        let mut kept: Vec<TapState> = Vec::new();
        let mut i: usize = 0;
        proof {
            reveal(Seq::filter);
        }
        assert(self.taps@.take(0).filter(outside(*query)) =~= Seq::<TapState>::empty());
        while i < self.taps.len()
            invariant
                i <= self.taps.len(),
                kept@ == without(self.taps@.take(i as int), *query),
            decreases self.taps.len() - i,
        {
            let t = self.taps[i];
            proof {
                assert(self.taps@.take(i + 1) =~= self.taps@.take(i as int).push(t));
                self.taps@.take(i as int).lemma_filter_push(t, outside(*query));
            }
            if !t.is_match(query) {
                kept.push(t);
            }
            i = i + 1;
        }
        assert(self.taps@.take(i as int) =~= self.taps@);
        self.taps = kept;
    }

    /// Drops every cluster that was released and then left alone for the
    /// whole grace period before `time`. A cluster whose press is still down
    /// stays.
    pub fn clear_expired(&mut self, time: u64)
        ensures
            final(self)@ == without(old(self)@, TapQuery::Expired { time }),
    {
        self.remove_all(&TapQuery::Expired { time });
    }

    /// Gives `event` its repeat count and follows what it does to the
    /// clusters.
    pub fn attach_count(&mut self, event: PointerEvent) -> (r: PointerEvent)
        ensures
            r@ == stamped(old(self)@, event@),
            final(self)@ == advanced(old(self)@, event@),
    {
        match event {
            PointerEvent::Down(u) => {
                let position = u.state.position;
                let time = u.state.time;
                let count = match self.find(&TapQuery::Repeats { position, time }) {
                    Some(i) => {
                        let prior = self.taps[i].count;
                        let count = if prior < u8::MAX {
                            prior + 1
                        } else {
                            u8::MAX
                        };
                        self.taps.set(
                            i,
                            TapState {
                                pointer_id: u.pointer.pointer_id,
                                down_time: time,
                                up_time: time,
                                count,
                                x: position.x,
                                y: position.y,
                            },
                        );
                        count
                    },
                    None => {
                        self.taps.push(
                            TapState {
                                pointer_id: u.pointer.pointer_id,
                                down_time: time,
                                up_time: time,
                                count: 1,
                                x: position.x,
                                y: position.y,
                            },
                        );
                        1
                    },
                };
                self.clear_expired(time);
                PointerEvent::Down(
                    PointerButtonUpdate {
                        button: u.button,
                        pointer: u.pointer,
                        state: u.state.with_count(count),
                    },
                )
            },
            PointerEvent::Up(u) => {
                match self.find(&TapQuery::Pointer(u.pointer.pointer_id)) {
                    Some(i) => {
                        let tap = self.taps[i];
                        self.taps.set(i, TapState { up_time: u.state.time, ..tap });
                        PointerEvent::Up(
                            PointerButtonUpdate {
                                button: u.button,
                                pointer: u.pointer,
                                state: u.state.with_count(tap.count),
                            },
                        )
                    },
                    None => PointerEvent::Up(u),
                }
            },
            PointerEvent::Move(u) => {
                match self.find(&TapQuery::OpenPress(u.pointer.pointer_id)) {
                    Some(i) => {
                        let count = self.taps[i].count;
                        PointerEvent::Move(
                            PointerUpdate {
                                pointer: u.pointer,
                                current: u.current.with_count(count),
                                coalesced: with_count_all(&u.coalesced, count),
                                predicted: with_count_all(&u.predicted, count),
                            },
                        )
                    },
                    None => PointerEvent::Move(u),
                }
            },
            PointerEvent::Cancel(p) => {
                self.remove_all(&TapQuery::Pointer(p.pointer_id));
                PointerEvent::Cancel(p)
            },
            PointerEvent::Leave(p) => {
                self.remove_all(&TapQuery::Pointer(p.pointer_id));
                PointerEvent::Leave(p)
            },
            PointerEvent::Enter(p) => PointerEvent::Enter(p),
            PointerEvent::Scroll(u) => PointerEvent::Scroll(u),
        }
    }
}

} // verus!
