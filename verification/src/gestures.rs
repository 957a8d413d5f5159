//! A drag on the screen, read as a swipe along one axis.
//!
//! Positions are whole pixels. A drag is tied to one axis as soon as it has
//! moved far enough, and counts as a swipe only if it ends far enough from
//! where it began along that axis.

use vstd::prelude::*;

use crate::constants::{GESTURE_LOCK_THRESHOLD, SWIPE_THRESHOLD};

verus! {

/// The axis that a drag is tied to.
#[derive(Clone, Copy, Debug, PartialEq, Eq, Structural)]
pub enum GestureDirection {
    Horizontal,
    Vertical,
}

/// What a drag came to when the finger was lifted.
#[derive(Clone, Copy, Debug, PartialEq, Eq, Structural)]
pub enum CompletedGesture {
    SwipeLeft,
    SwipeRight,
    SwipeUp,
    SwipeDown,
    /// No swipe: the drag was too short, or none was under way.
    Cancel,
}

/// A drag as far as it has come.
#[derive(Clone, Copy, Debug, PartialEq, Eq)]
pub struct GestureState {
    pub start_x: i32,
    pub start_y: i32,
    pub current_x: i32,
    pub current_y: i32,
    /// The axis the drag is tied to, once it has moved far enough.
    pub locked_direction: Option<GestureDirection>,
    /// Whether a drag is under way.
    pub is_tracking: bool,
}

/// The distance between two pixel positions.
pub open spec fn distance(a: int, b: int) -> int {
    if a >= b {
        a - b
    } else {
        b - a
    }
}

/// The axis of a drag that has moved `dx` pixels sideways and `dy` pixels up
/// or down (both as distances): horizontal if `dx` is more than one and a
/// half times `dy`, else vertical.
pub open spec fn axis_of(dx: int, dy: int) -> GestureDirection {
    if 2 * dx > 3 * dy {
        GestureDirection::Horizontal
    } else {
        GestureDirection::Vertical
    }
}

/// The swipe that a movement of `delta` pixels along an axis comes to:
/// `back` if it went more than `threshold` pixels towards smaller positions,
/// `forth` if it went more than `threshold` pixels towards larger ones, else
/// none.
pub open spec fn swipe_along(
    delta: int,
    threshold: int,
    back: CompletedGesture,
    forth: CompletedGesture,
) -> CompletedGesture {
    if delta < -threshold {
        back
    } else if delta > threshold {
        forth
    } else {
        CompletedGesture::Cancel
    }
}

impl Default for GestureState {
    fn default() -> (g: Self)
        ensures
            g == (GestureState {
                start_x: 0,
                start_y: 0,
                current_x: 0,
                current_y: 0,
                locked_direction: None,
                is_tracking: false,
            }),
    {
        GestureState {
            start_x: 0,
            start_y: 0,
            current_x: 0,
            current_y: 0,
            locked_direction: None,
            is_tracking: false,
        }
    }
}

impl GestureState {
    /// How far the drag has moved sideways, to the right counted positive.
    pub open spec fn dx(self) -> int {
        self.current_x - self.start_x
    }

    /// How far the drag has moved vertically, downwards counted positive.
    pub open spec fn dy(self) -> int {
        self.current_y - self.start_y
    }

    /// The drag after the finger has moved to `(x, y)`.
    pub open spec fn updated(self, x: i32, y: i32) -> GestureState {
        if !self.is_tracking {
            self
        } else {
            let dx = distance(x as int, self.start_x as int);
            let dy = distance(y as int, self.start_y as int);
            let lock = if self.locked_direction is None && (dx > GESTURE_LOCK_THRESHOLD || dy
                > GESTURE_LOCK_THRESHOLD) {
                Some(axis_of(dx, dy))
            } else {
                self.locked_direction
            };
            GestureState { current_x: x, current_y: y, locked_direction: lock, ..self }
        }
    }

    /// What the drag comes to if the finger is lifted now.
    pub open spec fn completed(self) -> CompletedGesture {
        if !self.is_tracking {
            CompletedGesture::Cancel
        } else {
            match self.locked_direction {
                Some(GestureDirection::Horizontal) => swipe_along(
                    self.dx(),
                    SWIPE_THRESHOLD as int,
                    CompletedGesture::SwipeLeft,
                    CompletedGesture::SwipeRight,
                ),
                Some(GestureDirection::Vertical) => swipe_along(
                    self.dy(),
                    SWIPE_THRESHOLD as int,
                    CompletedGesture::SwipeUp,
                    CompletedGesture::SwipeDown,
                ),
                None => CompletedGesture::Cancel,
            }
        }
    }

    /// Begins a drag at `(x, y)`.
    pub fn start(&mut self, x: i32, y: i32)
        ensures
            *final(self) == (GestureState {
                start_x: x,
                start_y: y,
                current_x: x,
                current_y: y,
                locked_direction: None,
                is_tracking: true,
            }),
    {
        self.start_x = x;
        self.start_y = y;
        self.current_x = x;
        self.current_y = y;
        self.locked_direction = None;
        self.is_tracking = true;
    }

    /// Follows the finger to `(x, y)`. Once the drag has moved more than the
    /// lock threshold along either axis it is tied to one axis for good.
    /// Without a drag under way nothing changes.
    pub fn update(&mut self, x: i32, y: i32)
        ensures
            *final(self) == old(self).updated(x, y),
    {
        if !self.is_tracking {
            return ;
        }
        self.current_x = x;
        self.current_y = y;
        let dx = abs_difference(self.current_x, self.start_x);
        let dy = abs_difference(self.current_y, self.start_y);
        let lock = GESTURE_LOCK_THRESHOLD as i64;
        if self.locked_direction.is_none() && (dx > lock || dy > lock) {
            self.locked_direction = Some(
                if 2 * dx > 3 * dy {
                    GestureDirection::Horizontal
                } else {
                    GestureDirection::Vertical
                },
            );
        }
    }

    /// What the drag comes to when the finger is lifted: a swipe along the
    /// axis it is tied to if it ended more than the swipe threshold from its
    /// start, else `Cancel`.
    pub fn complete(&self) -> (g: CompletedGesture)
        ensures
            g == self.completed(),
    {
        if !self.is_tracking {
            return CompletedGesture::Cancel;
        }
        let (dx, dy) = self.get_delta();
        let threshold = SWIPE_THRESHOLD as i64;
        match self.locked_direction {
            Some(GestureDirection::Horizontal) => {
                if dx < -threshold {
                    CompletedGesture::SwipeLeft
                } else if dx > threshold {
                    CompletedGesture::SwipeRight
                } else {
                    CompletedGesture::Cancel
                }
            },
            Some(GestureDirection::Vertical) => {
                if dy < -threshold {
                    CompletedGesture::SwipeUp
                } else if dy > threshold {
                    CompletedGesture::SwipeDown
                } else {
                    CompletedGesture::Cancel
                }
            },
            None => CompletedGesture::Cancel,
        }
    }

    /// Ends the drag.
    pub fn reset(&mut self)
        ensures
            *final(self) == (GestureState {
                is_tracking: false,
                locked_direction: None,
                ..*old(self)
            }),
    {
        self.is_tracking = false;
        self.locked_direction = None;
    }

    /// How far the drag has moved: sideways, then vertically.
    pub fn get_delta(&self) -> (d: (i64, i64))
        ensures
            d.0 == self.dx(),
            d.1 == self.dy(),
    {
        (self.current_x as i64 - self.start_x as i64, self.current_y as i64 - self.start_y as i64)
    }
}

/// The distance between two pixel positions.
pub fn abs_difference(a: i32, b: i32) -> (d: i64)
    ensures
        d == distance(a as int, b as int),
{
    if a >= b {
        a as i64 - b as i64
    } else {
        b as i64 - a as i64
    }
}

} // verus!
