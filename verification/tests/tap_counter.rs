use ui_events_winit::pointer::{
    PointerButtonUpdate, PointerButtons, PointerEvent, PointerId, PointerInfo,
    PointerScrollUpdate, PointerState, PointerType, PointerUpdate, ScrollDelta,
};
use ui_events_winit::tap::{TapCounter, TapState, TAP_RADIUS, TAP_GRACE};
use ui_events_winit::units::Point;
use ui_events_winit::Modifiers;

const MS: u64 = 1_000_000;

fn pointer(id: u64) -> PointerInfo {
    PointerInfo {
        pointer_id: Some(PointerId(id)),
        persistent_device_id: None,
        pointer_type: PointerType::Touch,
    }
}

/// A state at `(x, y)` thousandths of a pixel at `time` nanoseconds.
fn state(x: i64, y: i64, time: u64) -> PointerState {
    PointerState {
        time,
        position: Point { x, y },
        buttons: PointerButtons::default(),
        modifiers: Modifiers::default(),
        count: 0,
        pressure: 0,
    }
}

fn down(id: u64, x: i64, y: i64, time: u64) -> PointerEvent {
    PointerEvent::Down(PointerButtonUpdate {
        button: None,
        pointer: pointer(id),
        state: state(x, y, time),
    })
}

fn up(id: u64, x: i64, y: i64, time: u64) -> PointerEvent {
    PointerEvent::Up(PointerButtonUpdate {
        button: None,
        pointer: pointer(id),
        state: state(x, y, time),
    })
}

fn moved(id: u64, x: i64, y: i64, time: u64) -> PointerEvent {
    PointerEvent::Move(PointerUpdate {
        pointer: pointer(id),
        current: state(x, y, time),
        coalesced: vec![],
        predicted: vec![],
    })
}

fn count_of(event: &PointerEvent) -> u8 {
    match event {
        PointerEvent::Down(u) | PointerEvent::Up(u) => u.state.count,
        PointerEvent::Move(u) => u.current.count,
        PointerEvent::Scroll(u) => u.state.count,
        _ => panic!("the event carries no state"),
    }
}

#[test]
fn dummy_test_until_we_have_a_real_test() {}

#[test]
fn a_new_counter_is_empty() {
    assert!(TapCounter::new().clusters().is_empty());
    assert!(TapCounter::default().clusters().is_empty());
}

#[test]
fn first_press_counts_one_and_opens_a_cluster() {
    let mut counter = TapCounter::new();
    let out = counter.attach_count(down(3, 10_000, 10_000, 7 * MS));
    assert_eq!(
        out,
        PointerEvent::Down(PointerButtonUpdate {
            button: None,
            pointer: pointer(3),
            state: PointerState { count: 1, ..state(10_000, 10_000, 7 * MS) },
        })
    );
    assert_eq!(
        counter.clusters(),
        &vec![TapState {
            pointer_id: Some(PointerId(3)),
            down_time: 7 * MS,
            up_time: 7 * MS,
            count: 1,
            x: 10_000,
            y: 10_000,
        }]
    );
}

#[test]
fn fast_repeat_at_the_same_spot_counts_up() {
    let mut counter = TapCounter::new();
    assert_eq!(count_of(&counter.attach_count(down(1, 10_000, 10_000, 0))), 1);
    assert_eq!(count_of(&counter.attach_count(up(1, 10_000, 10_000, 50 * MS))), 1);
    assert_eq!(count_of(&counter.attach_count(down(1, 10_000, 10_000, 300 * MS))), 2);
    assert_eq!(count_of(&counter.attach_count(up(1, 10_000, 10_000, 350 * MS))), 2);
    assert_eq!(
        counter.clusters(),
        &vec![TapState {
            pointer_id: Some(PointerId(1)),
            down_time: 300 * MS,
            up_time: 350 * MS,
            count: 2,
            x: 10_000,
            y: 10_000,
        }]
    );
}

#[test]
fn press_after_the_grace_period_starts_again() {
    let mut counter = TapCounter::new();
    counter.attach_count(down(1, 10_000, 10_000, 0));
    counter.attach_count(up(1, 10_000, 10_000, 50 * MS));
    counter.attach_count(down(1, 10_000, 10_000, 300 * MS));
    counter.attach_count(up(1, 10_000, 10_000, 350 * MS));
    // The grace period of the release at 350 ms ends at 850 ms.
    let out = counter.attach_count(down(1, 10_000, 10_000, 850 * MS));
    assert_eq!(count_of(&out), 1);
    // The old cluster has expired and is gone.
    assert_eq!(
        counter.clusters(),
        &vec![TapState {
            pointer_id: Some(PointerId(1)),
            down_time: 850 * MS,
            up_time: 850 * MS,
            count: 1,
            x: 10_000,
            y: 10_000,
        }]
    );
}

#[test]
fn press_inside_the_grace_period_carries_on() {
    let mut counter = TapCounter::new();
    counter.attach_count(down(1, 10_000, 10_000, 0));
    counter.attach_count(up(1, 10_000, 10_000, 50 * MS));
    counter.attach_count(down(1, 10_000, 10_000, 300 * MS));
    counter.attach_count(up(1, 10_000, 10_000, 350 * MS));
    // 821 ms is 471 ms after the release at 350 ms.
    assert_eq!(count_of(&counter.attach_count(down(1, 10_000, 10_000, 821 * MS))), 3);
    counter.attach_count(up(1, 10_000, 10_000, 830 * MS));
    // One nanosecond before the grace period of the release at 830 ms ends.
    let last = 830 * MS + TAP_GRACE - 1;
    assert_eq!(count_of(&counter.attach_count(down(1, 10_000, 10_000, last))), 4);
}

#[test]
fn press_far_away_starts_again() {
    let mut counter = TapCounter::new();
    assert_eq!(count_of(&counter.attach_count(down(1, 10_000, 10_000, 0))), 1);
    counter.attach_count(up(1, 10_000, 10_000, 50 * MS));
    assert_eq!(count_of(&counter.attach_count(down(1, 20_000, 10_000, 100 * MS))), 1);
    // Both clusters are alive: the first has not expired yet.
    assert_eq!(counter.clusters().len(), 2);
    assert_eq!(counter.clusters()[0].x, 10_000);
    assert_eq!(counter.clusters()[1].x, 20_000);
}

#[test]
fn the_radius_itself_is_too_far() {
    assert_eq!(TAP_RADIUS, 4_000);
    let mut counter = TapCounter::new();
    counter.attach_count(down(1, 0, 0, 0));
    counter.attach_count(up(1, 0, 0, MS));
    // 3.999 pixels to the right: inside.
    assert_eq!(count_of(&counter.attach_count(down(1, 3_999, 0, 2 * MS))), 2);
    counter.attach_count(up(1, 3_999, 0, 3 * MS));
    // 4 pixels up from there: not inside.
    assert_eq!(count_of(&counter.attach_count(down(1, 3_999, -4_000, 4 * MS))), 1);
}

#[test]
fn distance_is_measured_in_a_straight_line() {
    let mut counter = TapCounter::new();
    counter.attach_count(down(1, 0, 0, 0));
    counter.attach_count(up(1, 0, 0, MS));
    // 3 pixels across and 3 down are about 4.24 pixels away.
    assert_eq!(count_of(&counter.attach_count(down(1, 3_000, 3_000, 2 * MS))), 1);
    counter.attach_count(up(1, 3_000, 3_000, 3 * MS));
    // 2.8 across and 2.8 down from the first press are about 3.96 pixels away
    // from it, and it is the first cluster that is asked first.
    assert_eq!(count_of(&counter.attach_count(down(1, 2_800, 2_800, 4 * MS))), 2);
    assert_eq!(counter.clusters()[0].count, 2);
    assert_eq!(counter.clusters()[0].x, 2_800);
    assert_eq!(counter.clusters()[1].count, 1);
}

#[test]
fn far_apart_coordinates_do_not_overflow() {
    let mut counter = TapCounter::new();
    counter.attach_count(down(1, i64::MIN, i64::MIN, 0));
    counter.attach_count(up(1, i64::MIN, i64::MIN, MS));
    assert_eq!(count_of(&counter.attach_count(down(1, i64::MAX, i64::MAX, 2 * MS))), 1);
    counter.attach_count(up(1, i64::MAX, i64::MAX, 3 * MS));
    assert_eq!(count_of(&counter.attach_count(down(1, i64::MAX - 1, i64::MAX, 4 * MS))), 2);
}

#[test]
fn times_near_the_end_of_the_range_do_not_overflow() {
    let mut counter = TapCounter::new();
    counter.attach_count(down(1, 0, 0, u64::MAX - 10));
    counter.attach_count(up(1, 0, 0, u64::MAX - 5));
    assert_eq!(count_of(&counter.attach_count(down(1, 0, 0, u64::MAX))), 2);
}

#[test]
fn a_press_still_down_is_carried_on_at_any_later_time() {
    let mut counter = TapCounter::new();
    counter.attach_count(down(1, 0, 0, 0));
    // No release: the grace period is counted from the press.
    assert_eq!(count_of(&counter.attach_count(down(2, 0, 0, TAP_GRACE - 1))), 2);
    assert_eq!(counter.clusters()[0].pointer_id, Some(PointerId(2)));
    assert_eq!(count_of(&counter.attach_count(down(2, 0, 0, 3 * TAP_GRACE))), 1);
    // The cluster that is still pressed does not expire.
    assert_eq!(counter.clusters().len(), 2);
}

#[test]
fn move_while_pressed_takes_the_count_of_the_press() {
    let mut counter = TapCounter::new();
    assert_eq!(count_of(&counter.attach_count(down(1, 5_000, 5_000, 0))), 1);
    let out = counter.attach_count(moved(1, 5_000, 6_000, 10 * MS));
    assert_eq!(
        out,
        PointerEvent::Move(PointerUpdate {
            pointer: pointer(1),
            current: PointerState { count: 1, ..state(5_000, 6_000, 10 * MS) },
            coalesced: vec![],
            predicted: vec![],
        })
    );
    counter.attach_count(up(1, 5_000, 6_000, 20 * MS));
    let hover = moved(1, 5_000, 7_000, 30 * MS);
    assert_eq!(counter.attach_count(hover.clone()), hover);
}

#[test]
fn move_of_another_pointer_is_left_alone() {
    let mut counter = TapCounter::new();
    counter.attach_count(down(1, 5_000, 5_000, 0));
    let other = moved(2, 5_000, 5_000, MS);
    assert_eq!(counter.attach_count(other.clone()), other);
}

#[test]
fn move_gives_the_count_to_every_state_it_carries() {
    let mut counter = TapCounter::new();
    counter.attach_count(down(1, 0, 0, 0));
    counter.attach_count(up(1, 0, 0, MS));
    counter.attach_count(down(1, 0, 0, 2 * MS));
    let out = counter.attach_count(PointerEvent::Move(PointerUpdate {
        pointer: pointer(1),
        current: state(3, 3, 5 * MS),
        coalesced: vec![state(1, 1, 3 * MS), state(2, 2, 4 * MS)],
        predicted: vec![PointerState { count: 9, ..state(4, 4, 6 * MS) }],
    }));
    assert_eq!(
        out,
        PointerEvent::Move(PointerUpdate {
            pointer: pointer(1),
            current: PointerState { count: 2, ..state(3, 3, 5 * MS) },
            coalesced: vec![
                PointerState { count: 2, ..state(1, 1, 3 * MS) },
                PointerState { count: 2, ..state(2, 2, 4 * MS) },
            ],
            predicted: vec![PointerState { count: 2, ..state(4, 4, 6 * MS) }],
        })
    );
}

#[test]
fn release_at_the_time_of_the_press_leaves_the_press_open() {
    let mut counter = TapCounter::new();
    counter.attach_count(down(1, 0, 0, 5 * MS));
    counter.attach_count(up(1, 0, 0, 5 * MS));
    assert_eq!(count_of(&counter.attach_count(moved(1, 0, 0, 6 * MS))), 1);
}

#[test]
fn release_takes_the_count_and_marks_the_cluster() {
    let mut counter = TapCounter::new();
    counter.attach_count(down(1, 0, 0, 0));
    let out = counter.attach_count(PointerEvent::Up(PointerButtonUpdate {
        button: None,
        pointer: pointer(1),
        state: PointerState { count: 77, ..state(900_000, 0, 40 * MS) },
    }));
    assert_eq!(count_of(&out), 1);
    assert_eq!(counter.clusters()[0].up_time, 40 * MS);
    assert_eq!(counter.clusters()[0].down_time, 0);
    assert_eq!(counter.clusters()[0].x, 0);
}

#[test]
fn release_without_a_cluster_comes_back_as_it_is() {
    let mut counter = TapCounter::new();
    counter.attach_count(down(1, 0, 0, 0));
    let stray = PointerEvent::Up(PointerButtonUpdate {
        button: None,
        pointer: pointer(2),
        state: PointerState { count: 5, ..state(0, 0, MS) },
    });
    assert_eq!(counter.attach_count(stray.clone()), stray);
    assert_eq!(counter.clusters()[0].up_time, 0);
}

#[test]
fn release_marks_the_first_cluster_of_the_pointer() {
    let mut counter = TapCounter::new();
    counter.attach_count(down(1, 0, 0, 0));
    counter.attach_count(up(1, 0, 0, MS));
    counter.attach_count(down(1, 50_000, 0, 2 * MS));
    assert_eq!(counter.clusters().len(), 2);
    // Both clusters are of pointer 1; the release goes to the older one.
    assert_eq!(count_of(&counter.attach_count(up(1, 50_000, 0, 3 * MS))), 1);
    assert_eq!(counter.clusters()[0].up_time, 3 * MS);
    assert_eq!(counter.clusters()[1].up_time, 2 * MS);
}

#[test]
fn cancel_clears_the_cluster() {
    let mut counter = TapCounter::new();
    assert_eq!(count_of(&counter.attach_count(down(1, 10_000, 10_000, 0))), 1);
    let cancel = PointerEvent::Cancel(pointer(1));
    assert_eq!(counter.attach_count(cancel.clone()), cancel);
    assert!(counter.clusters().is_empty());
    assert_eq!(count_of(&counter.attach_count(down(1, 10_000, 10_000, MS))), 1);
}

#[test]
fn leave_clears_the_clusters_of_its_pointer_only() {
    let mut counter = TapCounter::new();
    counter.attach_count(down(1, 0, 0, 0));
    counter.attach_count(down(2, 50_000, 0, MS));
    counter.attach_count(down(1, 90_000, 0, 2 * MS));
    let leave = PointerEvent::Leave(pointer(1));
    assert_eq!(counter.attach_count(leave.clone()), leave);
    assert_eq!(counter.clusters().len(), 1);
    assert_eq!(counter.clusters()[0].pointer_id, Some(PointerId(2)));
}

#[test]
fn enter_and_scroll_pass_through() {
    let mut counter = TapCounter::new();
    counter.attach_count(down(1, 0, 0, 0));
    let before = counter.clusters().clone();
    let enter = PointerEvent::Enter(pointer(1));
    assert_eq!(counter.attach_count(enter.clone()), enter);
    let scroll = PointerEvent::Scroll(PointerScrollUpdate {
        pointer: pointer(1),
        delta: ScrollDelta::LineDelta(1_000, -2_000),
        state: state(0, 0, MS),
    });
    assert_eq!(counter.attach_count(scroll.clone()), scroll);
    assert_eq!(counter.clusters(), &before);
}

#[test]
fn clear_expired_drops_what_was_released_long_ago() {
    let mut counter = TapCounter::new();
    counter.attach_count(down(1, 0, 0, 0));
    counter.attach_count(up(1, 0, 0, 10 * MS));
    counter.attach_count(down(2, 50_000, 0, 20 * MS));
    counter.attach_count(up(2, 50_000, 0, 30 * MS));
    counter.attach_count(down(3, 90_000, 0, 40 * MS));
    assert_eq!(counter.clusters().len(), 3);
    // One nanosecond before the grace period of the first release ends.
    counter.clear_expired(10 * MS + TAP_GRACE - 1);
    assert_eq!(counter.clusters().len(), 3);
    counter.clear_expired(10 * MS + TAP_GRACE);
    assert_eq!(counter.clusters().len(), 2);
    assert_eq!(counter.clusters()[0].pointer_id, Some(PointerId(2)));
    // The cluster of pointer 3 is still pressed and stays whatever the time.
    counter.clear_expired(u64::MAX);
    assert_eq!(counter.clusters().len(), 1);
    assert_eq!(counter.clusters()[0].pointer_id, Some(PointerId(3)));
}

#[test]
fn the_count_stops_at_255() {
    let mut counter = TapCounter::new();
    let mut time = 0;
    for n in 1..=300u32 {
        let out = counter.attach_count(down(1, 0, 0, time));
        let expected = if n < 255 { n as u8 } else { 255 };
        assert_eq!(count_of(&out), expected);
        counter.attach_count(up(1, 0, 0, time + MS));
        time += 2 * MS;
    }
    assert_eq!(counter.clusters().len(), 1);
}

#[test]
fn a_pointer_without_identity_has_clusters_of_its_own() {
    let nobody = PointerInfo {
        pointer_id: None,
        persistent_device_id: None,
        pointer_type: PointerType::Unknown,
    };
    let mut counter = TapCounter::new();
    counter.attach_count(PointerEvent::Down(PointerButtonUpdate {
        button: None,
        pointer: nobody,
        state: state(0, 0, 0),
    }));
    let out = counter.attach_count(PointerEvent::Move(PointerUpdate {
        pointer: nobody,
        current: state(1_000, 0, MS),
        coalesced: vec![],
        predicted: vec![],
    }));
    assert_eq!(count_of(&out), 1);
    assert_eq!(count_of(&counter.attach_count(moved(0, 1_000, 0, 2 * MS))), 0);
    counter.attach_count(PointerEvent::Cancel(nobody));
    assert!(counter.clusters().is_empty());
}
