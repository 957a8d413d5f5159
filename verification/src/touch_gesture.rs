//! A touch on the screen, read as a swipe in one of four directions.
//!
//! Positions and thresholds are whole pixels. The thresholds are the
//! caller's to choose.

use vstd::prelude::*;

use crate::gestures::{abs_difference, distance, CompletedGesture};

verus! {

/// The orientation that a touch is tied to.
#[derive(Clone, Copy, Debug, PartialEq, Eq, Structural)]
pub enum GestureType {
    Horizontal,
    Vertical,
}

/// The direction of a swipe.
#[derive(Clone, Copy, Debug, PartialEq, Eq, Structural)]
pub enum SwipeDirection {
    Left,
    Right,
    Up,
    Down,
}

/// A touch as far as it has come.
#[derive(Clone, Copy, Debug, PartialEq, Eq)]
pub struct TouchGesture {
    pub touch_start_x: i32,
    pub touch_start_y: i32,
    pub touch_current_x: i32,
    pub touch_current_y: i32,
    /// Whether a finger is on the screen.
    pub is_touching: bool,
    /// The orientation the touch is tied to, once it has moved far enough.
    pub gesture_locked: Option<GestureType>,
}

/// The swipe that a movement of `delta` pixels comes to along an axis whose
/// directions are `back` (towards smaller positions) and `forth`: a swipe
/// only if it went more than `threshold` pixels.
pub open spec fn swipe_of(delta: int, threshold: int, back: SwipeDirection, forth: SwipeDirection) -> Option<
    SwipeDirection,
> {
    if delta < -threshold {
        Some(back)
    } else if delta > threshold {
        Some(forth)
    } else {
        None
    }
}

impl TouchGesture {
    /// How far the touch has moved sideways, to the right counted positive.
    pub open spec fn dx(self) -> int {
        self.touch_current_x - self.touch_start_x
    }

    /// How far the touch has moved vertically, downwards counted positive.
    pub open spec fn dy(self) -> int {
        self.touch_current_y - self.touch_start_y
    }

    /// The touch after the finger has moved to `(x, y)`.
    pub open spec fn moved(self, x: i32, y: i32, lock_threshold: i32) -> TouchGesture {
        let dx = distance(x as int, self.touch_start_x as int);
        let dy = distance(y as int, self.touch_start_y as int);
        let lock = if self.gesture_locked is None && (dx > lock_threshold || dy > lock_threshold) {
            if dx > dy {
                Some(GestureType::Horizontal)
            } else {
                Some(GestureType::Vertical)
            }
        } else {
            self.gesture_locked
        };
        TouchGesture { touch_current_x: x, touch_current_y: y, gesture_locked: lock, ..self }
    }

    /// The swipe that the touch comes to when the finger is lifted. A touch
    /// tied to an orientation swipes along it. One that is not tied swipes
    /// up or down only, and only if it moved further vertically than
    /// sideways.
    pub open spec fn swipe(self, swipe_threshold: i32) -> Option<SwipeDirection> {
        if !self.is_touching {
            None
        } else {
            match self.gesture_locked {
                Some(GestureType::Horizontal) => swipe_of(
                    self.dx(),
                    swipe_threshold as int,
                    SwipeDirection::Left,
                    SwipeDirection::Right,
                ),
                Some(GestureType::Vertical) => swipe_of(
                    self.dy(),
                    swipe_threshold as int,
                    SwipeDirection::Up,
                    SwipeDirection::Down,
                ),
                None => if distance(self.dy(), 0) > distance(self.dx(), 0) {
                    swipe_of(
                        self.dy(),
                        swipe_threshold as int,
                        SwipeDirection::Up,
                        SwipeDirection::Down,
                    )
                } else {
                    None
                },
            }
        }
    }

    /// The touch with the finger lifted.
    pub open spec fn lifted(self) -> TouchGesture {
        TouchGesture { is_touching: false, gesture_locked: None, ..self }
    }

    /// No touch.
    pub fn new() -> (t: Self)
        ensures
            t == (TouchGesture {
                touch_start_x: 0,
                touch_start_y: 0,
                touch_current_x: 0,
                touch_current_y: 0,
                is_touching: false,
                gesture_locked: None,
            }),
    {
        TouchGesture {
            touch_start_x: 0,
            touch_start_y: 0,
            touch_current_x: 0,
            touch_current_y: 0,
            is_touching: false,
            gesture_locked: None,
        }
    }

    /// A finger has come down at `(x, y)`.
    pub fn on_touch_start(&mut self, x: i32, y: i32)
        ensures
            *final(self) == (TouchGesture {
                touch_start_x: x,
                touch_start_y: y,
                touch_current_x: x,
                touch_current_y: y,
                is_touching: true,
                gesture_locked: None,
            }),
    {
        self.touch_start_x = x;
        self.touch_start_y = y;
        self.touch_current_x = x;
        self.touch_current_y = y;
        self.is_touching = true;
        self.gesture_locked = None;
    }

    /// The finger has moved to `(x, y)`. Once the touch has moved more than
    /// `lock_threshold` pixels along either axis it is tied to the
    /// orientation along which it has moved further, for good.
    pub fn on_touch_move(&mut self, x: i32, y: i32, lock_threshold: i32)
        ensures
            *final(self) == old(self).moved(x, y, lock_threshold),
    {
        self.touch_current_x = x;
        self.touch_current_y = y;
        if self.gesture_locked.is_none() {
            let dx = abs_difference(self.touch_current_x, self.touch_start_x);
            let dy = abs_difference(self.touch_current_y, self.touch_start_y);
            if dx > lock_threshold as i64 || dy > lock_threshold as i64 {
                if dx > dy {
                    self.gesture_locked = Some(GestureType::Horizontal);
                } else {
                    self.gesture_locked = Some(GestureType::Vertical);
                }
            }
        }
    }

    /// The finger has been lifted, or the touch was called off. The result
    /// is the swipe that the touch came to, if it moved more than
    /// `swipe_threshold` pixels. Without a finger on the screen nothing
    /// changes.
    pub fn on_touch_end(&mut self, swipe_threshold: i32) -> (r: Option<SwipeDirection>)
        ensures
            r == old(self).swipe(swipe_threshold),
            *final(self) == if old(self).is_touching {
                old(self).lifted()
            } else {
                *old(self)
            },
    {
        if !self.is_touching {
            return None;
        }
        let dx = self.touch_current_x as i64 - self.touch_start_x as i64;
        let dy = self.touch_current_y as i64 - self.touch_start_y as i64;
        let threshold = swipe_threshold as i64;
        let direction = match self.gesture_locked {
            Some(GestureType::Horizontal) => along(
                dx,
                threshold,
                SwipeDirection::Left,
                SwipeDirection::Right,
            ),
            Some(GestureType::Vertical) => along(
                dy,
                threshold,
                SwipeDirection::Up,
                SwipeDirection::Down,
            ),
            None => {
                let ax = if dx < 0 {
                    -dx
                } else {
                    dx
                };
                let ay = if dy < 0 {
                    -dy
                } else {
                    dy
                };
                if ay > ax {
                    along(dy, threshold, SwipeDirection::Up, SwipeDirection::Down)
                } else {
                    None
                }
            },
        };
        self.reset();
        direction
    }

    /// Forgets the touch.
    pub fn reset(&mut self)
        ensures
            *final(self) == old(self).lifted(),
    {
        self.is_touching = false;
        self.gesture_locked = None;
    }

    /// Whether a finger is on the screen.
    pub fn is_touching(&self) -> (b: bool)
        ensures
            b == self.is_touching,
    {
        self.is_touching
    }
}

/// The gesture that a swipe, or none, stands for.
pub fn gesture_of(swipe: Option<SwipeDirection>) -> (g: CompletedGesture)
    ensures
        g == match swipe {
            Some(SwipeDirection::Left) => CompletedGesture::SwipeLeft,
            Some(SwipeDirection::Right) => CompletedGesture::SwipeRight,
            Some(SwipeDirection::Up) => CompletedGesture::SwipeUp,
            Some(SwipeDirection::Down) => CompletedGesture::SwipeDown,
            None => CompletedGesture::Cancel,
        },
{
    match swipe {
        Some(SwipeDirection::Left) => CompletedGesture::SwipeLeft,
        Some(SwipeDirection::Right) => CompletedGesture::SwipeRight,
        Some(SwipeDirection::Up) => CompletedGesture::SwipeUp,
        Some(SwipeDirection::Down) => CompletedGesture::SwipeDown,
        None => CompletedGesture::Cancel,
    }
}

/// No touch: what a component starts with.
pub fn use_touch_gesture() -> (t: TouchGesture)
    ensures
        t == (TouchGesture {
            touch_start_x: 0,
            touch_start_y: 0,
            touch_current_x: 0,
            touch_current_y: 0,
            is_touching: false,
            gesture_locked: None,
        }),
{
    TouchGesture::new()
}

/// The swipe that a movement of `delta` pixels comes to.
fn along(delta: i64, threshold: i64, back: SwipeDirection, forth: SwipeDirection) -> (r: Option<
    SwipeDirection,
>)
    requires
        threshold > i64::MIN,
    ensures
        r == swipe_of(delta as int, threshold as int, back, forth),
{
    if delta < -threshold {
        Some(back)
    } else if delta > threshold {
        Some(forth)
    } else {
        None
    }
}

} // verus!
