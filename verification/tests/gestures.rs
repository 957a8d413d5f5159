use mnemon::gestures::{abs_difference, CompletedGesture, GestureDirection, GestureState};
use mnemon::touch_gesture::{
    gesture_of, use_touch_gesture, GestureType, SwipeDirection, TouchGesture,
};

fn drag(points: &[(i32, i32)]) -> GestureState {
    let mut g = GestureState::default();
    g.start(points[0].0, points[0].1);
    for p in &points[1..] {
        g.update(p.0, p.1);
    }
    g
}

#[test]
fn a_drag_locks_to_one_axis() {
    let g = drag(&[(100, 100), (110, 100)]);
    assert_eq!(g.locked_direction, None);
    let g = drag(&[(100, 100), (121, 100)]);
    assert_eq!(g.locked_direction, Some(GestureDirection::Horizontal));
    let g = drag(&[(100, 100), (100, 79)]);
    assert_eq!(g.locked_direction, Some(GestureDirection::Vertical));
    let g = drag(&[(100, 100), (130, 120)]);
    assert_eq!(g.locked_direction, Some(GestureDirection::Vertical));
    let g = drag(&[(100, 100), (131, 120)]);
    assert_eq!(g.locked_direction, Some(GestureDirection::Horizontal));
    let g = drag(&[(100, 100), (121, 100), (121, 300)]);
    assert_eq!(g.locked_direction, Some(GestureDirection::Horizontal));
    let g = drag(&[(100, 100), (120, 120)]);
    assert_eq!(g.locked_direction, None);
}

#[test]
fn a_long_drag_is_a_swipe() {
    assert_eq!(drag(&[(200, 100), (149, 100)]).complete(), CompletedGesture::SwipeLeft);
    assert_eq!(drag(&[(200, 100), (150, 100)]).complete(), CompletedGesture::Cancel);
    assert_eq!(drag(&[(200, 100), (251, 100)]).complete(), CompletedGesture::SwipeRight);
    assert_eq!(drag(&[(200, 100), (250, 100)]).complete(), CompletedGesture::Cancel);
    assert_eq!(drag(&[(200, 100), (200, 49)]).complete(), CompletedGesture::SwipeUp);
    assert_eq!(drag(&[(200, 100), (200, 151)]).complete(), CompletedGesture::SwipeDown);
    assert_eq!(drag(&[(200, 100), (200, 150)]).complete(), CompletedGesture::Cancel);
    assert_eq!(drag(&[(200, 100), (230, 100), (200, 400)]).complete(), CompletedGesture::Cancel);
    assert_eq!(drag(&[(200, 100), (205, 105)]).complete(), CompletedGesture::Cancel);
}

#[test]
fn no_drag_is_no_swipe() {
    let mut g = GestureState::default();
    assert_eq!(g.complete(), CompletedGesture::Cancel);
    g.update(500, 500);
    assert_eq!(g, GestureState::default());
    let mut g = drag(&[(0, 0), (100, 0)]);
    assert_eq!(g.get_delta(), (100, 0));
    g.reset();
    assert!(!g.is_tracking);
    assert_eq!(g.locked_direction, None);
    assert_eq!(g.complete(), CompletedGesture::Cancel);
}

#[test]
fn far_apart_positions_do_not_overflow() {
    let g = drag(&[(i32::MIN, i32::MAX), (i32::MAX, i32::MIN)]);
    assert_eq!(g.get_delta(), (4294967295, -4294967295));
    assert_eq!(g.locked_direction, Some(GestureDirection::Vertical));
    assert_eq!(g.complete(), CompletedGesture::SwipeUp);
    assert_eq!(abs_difference(i32::MIN, i32::MAX), 4294967295);
    assert_eq!(abs_difference(3, 3), 0);
}

fn touch(points: &[(i32, i32)], lock: i32) -> TouchGesture {
    let mut t = use_touch_gesture();
    t.on_touch_start(points[0].0, points[0].1);
    for p in &points[1..] {
        t.on_touch_move(p.0, p.1, lock);
    }
    t
}

#[test]
fn a_touch_locks_to_the_longer_side() {
    assert_eq!(touch(&[(0, 0), (20, 0)], 20).gesture_locked, None);
    assert_eq!(touch(&[(0, 0), (21, 20)], 20).gesture_locked, Some(GestureType::Horizontal));
    assert_eq!(touch(&[(0, 0), (21, 21)], 20).gesture_locked, Some(GestureType::Vertical));
    assert_eq!(touch(&[(0, 0), (-5, -30)], 20).gesture_locked, Some(GestureType::Vertical));
    assert_eq!(
        touch(&[(0, 0), (-5, -30), (-300, -30)], 20).gesture_locked,
        Some(GestureType::Vertical)
    );
}

#[test]
fn a_touch_ends_in_a_swipe_or_in_nothing() {
    let mut t = touch(&[(100, 100), (40, 100)], 20);
    assert!(t.is_touching());
    assert_eq!(t.on_touch_end(50), Some(SwipeDirection::Left));
    assert!(!t.is_touching());
    assert_eq!(t.gesture_locked, None);
    assert_eq!(t.on_touch_end(50), None);

    assert_eq!(touch(&[(100, 100), (160, 100)], 20).on_touch_end(50), Some(SwipeDirection::Right));
    assert_eq!(touch(&[(100, 100), (150, 100)], 20).on_touch_end(50), None);
    assert_eq!(touch(&[(100, 100), (100, 40)], 20).on_touch_end(50), Some(SwipeDirection::Up));
    assert_eq!(touch(&[(100, 100), (100, 160)], 20).on_touch_end(50), Some(SwipeDirection::Down));
    assert_eq!(touch(&[(100, 100), (100, 160)], 100).on_touch_end(50), Some(SwipeDirection::Down));
    assert_eq!(touch(&[(100, 100), (100, 30)], 100).on_touch_end(50), Some(SwipeDirection::Up));
    assert_eq!(touch(&[(100, 100), (170, 160)], 100).on_touch_end(50), None);
    assert_eq!(touch(&[(100, 100), (160, 160)], 100).on_touch_end(50), None);
    let mut t = TouchGesture::new();
    assert_eq!(t.on_touch_end(0), None);
    let mut t = touch(&[(0, 0), (10, 0)], 5);
    t.reset();
    assert!(!t.is_touching());
}

#[test]
fn swipes_stand_for_gestures() {
    assert_eq!(gesture_of(Some(SwipeDirection::Left)), CompletedGesture::SwipeLeft);
    assert_eq!(gesture_of(Some(SwipeDirection::Right)), CompletedGesture::SwipeRight);
    assert_eq!(gesture_of(Some(SwipeDirection::Up)), CompletedGesture::SwipeUp);
    assert_eq!(gesture_of(Some(SwipeDirection::Down)), CompletedGesture::SwipeDown);
    assert_eq!(gesture_of(None), CompletedGesture::Cancel);
}
