//! The slideshow: which mnemon is shown, and when it moves on.
//!
//! The controller waits for nothing itself. The caller runs the timers and
//! reports each event; the controller answers with the new state and with
//! what the caller is to do next. A wait that was overtaken is recognised by
//! the version it was started with.

use vstd::prelude::*;

use crate::gestures::CompletedGesture;
use crate::types::{bump, next_version, Direction};

verus! {

/// The position that follows `current` among `total` mnemons: one further,
/// and from the last back to the first.
pub open spec fn position_after(current: usize, total: usize) -> usize
    recommends
        total > 0,
{
    ((current + 1) % (total as int)) as usize
}

/// The position that comes before `current` among `total` mnemons: one back,
/// and from the first to the last.
pub open spec fn position_before(current: usize, total: usize) -> usize
    recommends
        total > 0,
{
    if current == 0 {
        (total - 1) as usize
    } else {
        (current - 1) as usize
    }
}

/// The position that a step in `direction` leads to.
pub open spec fn position_towards(direction: Direction, current: usize, total: usize) -> usize {
    match direction {
        Direction::Forward => position_after(current, total),
        Direction::Backward => position_before(current, total),
    }
}

/// What became of a tick of the automatic cycle.
#[derive(Clone, Copy, Debug, PartialEq, Eq, Structural)]
pub enum TickOutcome {
    /// The wait was overtaken: its version is no longer the current one. The
    /// caller drops this wait.
    Stale,
    /// Nothing moves this time. The caller waits another interval.
    Skipped,
    /// A transition to the next mnemon has begun. The caller runs it, then
    /// waits another interval.
    Advanced,
}

/// What became of a completed gesture.
#[derive(Clone, Copy, Debug, PartialEq, Eq, Structural)]
pub enum GestureOutcome {
    /// The gesture asked for nothing, or for what could not be done now.
    Ignored,
    /// A transition has begun.
    Navigated,
    /// The details were opened or closed.
    DetailsToggled,
}

/// The place of a slide beside the one that is shown, where three are laid
/// out side by side.
#[derive(Clone, Copy, Debug, PartialEq, Eq, Structural)]
pub enum CarouselPosition {
    Prev,
    Current,
    Next,
}

/// The state of the slideshow.
#[derive(Clone, Copy, Debug, PartialEq, Eq)]
pub struct CarouselController {
    /// The position in the display order of the mnemon that is shown.
    pub current_position: usize,
    /// Whether a transition is running.
    pub is_transitioning: bool,
    /// The direction of the transition that runs, or of the last one.
    pub transition_direction: Direction,
    /// Whether the details of the mnemon are open.
    pub details_open: bool,
    /// Whether the user has paused the slideshow.
    pub paused: bool,
    /// Whether the automatic cycle is held back after a navigation by hand.
    pub manual_nav_suppression: bool,
    /// The version of the automatic cycle's wait that counts.
    pub cycle_version: u64,
    /// The position that the running transition leads to.
    pub target_position: usize,
    /// Whether the running transition was asked for by hand.
    pub manual_transition: bool,
    /// The version of the cooldown that counts.
    pub cooldown_version: u64,
}

impl CarouselController {
    /// Whether a navigation by hand is taken up: not while a transition is
    /// running, and not without mnemons.
    pub open spec fn accepts_navigation(self, total: usize) -> bool {
        !self.is_transitioning && total > 0
    }

    /// Whether a tick of the automatic cycle moves the slideshow on.
    pub open spec fn advances_on_tick(self, version: u64, total: usize) -> bool {
        &&& version == self.cycle_version
        &&& !self.details_open
        &&& !self.paused
        &&& !self.manual_nav_suppression
        &&& !self.is_transitioning
        &&& total > 0
    }

    /// The state after a navigation by hand in `direction`.
    pub open spec fn navigated(self, direction: Direction, total: usize) -> CarouselController {
        if self.accepts_navigation(total) {
            CarouselController {
                is_transitioning: true,
                transition_direction: direction,
                target_position: position_towards(direction, self.current_position, total),
                manual_transition: true,
                manual_nav_suppression: true,
                cycle_version: next_version(self.cycle_version),
                cooldown_version: next_version(self.cooldown_version),
                ..self
            }
        } else {
            self
        }
    }

    /// The state after a tick of the automatic cycle whose wait was started
    /// under `version`.
    pub open spec fn ticked(self, version: u64, total: usize) -> CarouselController {
        if self.advances_on_tick(version, total) {
            CarouselController {
                is_transitioning: true,
                transition_direction: Direction::Forward,
                target_position: position_after(self.current_position, total),
                manual_transition: false,
                ..self
            }
        } else {
            self
        }
    }

    /// The state once the running transition has run its time: the target is
    /// shown.
    pub open spec fn arrived(self) -> CarouselController {
        if self.is_transitioning {
            CarouselController { current_position: self.target_position, ..self }
        } else {
            self
        }
    }

    /// The state once the running transition has settled: the target is
    /// shown, the slideshow is at rest, and after a navigation by hand the
    /// automatic cycle is held back.
    pub open spec fn settled(self) -> CarouselController {
        if self.is_transitioning {
            CarouselController {
                current_position: self.target_position,
                is_transitioning: false,
                manual_nav_suppression: self.manual_nav_suppression || self.manual_transition,
                ..self
            }
        } else {
            self
        }
    }

    /// The state once the cooldown started under `version` has run out.
    pub open spec fn cooled_down(self, version: u64) -> CarouselController {
        if version == self.cooldown_version {
            CarouselController { manual_nav_suppression: false, ..self }
        } else {
            self
        }
    }

    /// The state with the details open or closed. Closing them starts the
    /// automatic cycle's wait anew.
    pub open spec fn with_details(self, open: bool) -> CarouselController {
        CarouselController {
            details_open: open,
            cycle_version: if self.details_open && !open {
                next_version(self.cycle_version)
            } else {
                self.cycle_version
            },
            ..self
        }
    }

    /// The state with the mnemon at `position` shown at once: no transition
    /// runs, the automatic cycle is not held back, and its wait starts anew.
    /// A cooldown that is under way no longer counts.
    pub open spec fn shown_at(self, position: usize) -> CarouselController {
        CarouselController {
            current_position: position,
            target_position: position,
            is_transitioning: false,
            manual_transition: false,
            manual_nav_suppression: false,
            cycle_version: next_version(self.cycle_version),
            cooldown_version: next_version(self.cooldown_version),
            ..self
        }
    }

    /// The state after the number of mnemons has changed to `total`: a
    /// position that no longer exists gives way to the first.
    pub open spec fn fitted_to(self, total: usize) -> CarouselController {
        if self.current_position >= total {
            self.shown_at(0)
        } else {
            self
        }
    }

    /// The state after a completed gesture.
    pub open spec fn after_gesture(self, gesture: CompletedGesture, total: usize) -> CarouselController {
        match gesture {
            CompletedGesture::SwipeLeft => self.navigated(Direction::Forward, total),
            CompletedGesture::SwipeRight => self.navigated(Direction::Backward, total),
            CompletedGesture::SwipeUp => if self.details_open {
                self
            } else {
                self.with_details(true)
            },
            CompletedGesture::SwipeDown => if self.details_open {
                self.with_details(false)
            } else {
                self
            },
            CompletedGesture::Cancel => self,
        }
    }

    /// A slideshow at rest on the first mnemon.
    pub fn new() -> (c: Self)
        ensures
            c == (CarouselController {
                current_position: 0,
                is_transitioning: false,
                transition_direction: Direction::Forward,
                details_open: false,
                paused: false,
                manual_nav_suppression: false,
                cycle_version: 0,
                target_position: 0,
                manual_transition: false,
                cooldown_version: 0,
            }),
    {
        CarouselController {
            current_position: 0,
            is_transitioning: false,
            transition_direction: Direction::Forward,
            details_open: false,
            paused: false,
            manual_nav_suppression: false,
            cycle_version: 0,
            target_position: 0,
            manual_transition: false,
            cooldown_version: 0,
        }
    }

    /// A navigation by hand in `direction` among `total` mnemons. It is
    /// refused while a transition runs and when there is no mnemon. Otherwise
    /// a transition to the neighbour begins, the automatic cycle's wait is
    /// overtaken, and the automatic cycle is held back. The result says
    /// whether the navigation was taken up; if so the caller runs the
    /// transition (`complete_transition`, then `settle`).
    pub fn navigate(&mut self, direction: Direction, total: usize) -> (accepted: bool)
        ensures
            accepted == old(self).accepts_navigation(total),
            *final(self) == old(self).navigated(direction, total),
    {
        if self.is_transitioning || total == 0 {
            return false;
        }
        self.target_position = step(direction, self.current_position, total);
        self.is_transitioning = true;
        self.transition_direction = direction;
        self.manual_transition = true;
        self.manual_nav_suppression = true;
        self.cycle_version = bump(self.cycle_version);
        self.cooldown_version = bump(self.cooldown_version);
        true
    }

    /// A navigation by hand to the next mnemon.
    pub fn navigate_next(&mut self, total: usize) -> (accepted: bool)
        ensures
            accepted == old(self).accepts_navigation(total),
            *final(self) == old(self).navigated(Direction::Forward, total),
    {
        self.navigate(Direction::Forward, total)
    }

    /// A navigation by hand to the mnemon before.
    pub fn navigate_prev(&mut self, total: usize) -> (accepted: bool)
        ensures
            accepted == old(self).accepts_navigation(total),
            *final(self) == old(self).navigated(Direction::Backward, total),
    {
        self.navigate(Direction::Backward, total)
    }

    /// A tick of the automatic cycle: the interval that was started under
    /// `version` has passed. A tick whose version is no longer current is
    /// dropped. A tick is skipped while the details are open, the slideshow
    /// is paused, the automatic cycle is held back, a transition runs, or
    /// there is no mnemon. Otherwise a transition to the next mnemon begins.
    pub fn auto_cycle_tick(&mut self, version: u64, total: usize) -> (outcome: TickOutcome)
        ensures
            *final(self) == old(self).ticked(version, total),
            outcome == if version != old(self).cycle_version {
                TickOutcome::Stale
            } else if old(self).advances_on_tick(version, total) {
                TickOutcome::Advanced
            } else {
                TickOutcome::Skipped
            },
    {
        if version != self.cycle_version {
            return TickOutcome::Stale;
        }
        if self.details_open || self.paused || self.manual_nav_suppression || self.is_transitioning
            || total == 0 {
            return TickOutcome::Skipped;
        }
        self.target_position = step(Direction::Forward, self.current_position, total);
        self.is_transitioning = true;
        self.transition_direction = Direction::Forward;
        self.manual_transition = false;
        TickOutcome::Advanced
    }

    /// The running transition has run its time: the target is shown from now
    /// on. Without a running transition nothing changes.
    pub fn complete_transition(&mut self)
        ensures
            *final(self) == old(self).arrived(),
    {
        if self.is_transitioning {
            self.current_position = self.target_position;
        }
    }

    /// The settle delay after the transition has passed: the slideshow is at
    /// rest again. After a navigation by hand the result is the version of
    /// the cooldown that the caller now starts; when it has run out the caller
    /// reports it with `end_cooldown`.
    pub fn settle(&mut self) -> (cooldown: Option<u64>)
        ensures
            *final(self) == old(self).settled(),
            cooldown == if old(self).is_transitioning && old(self).manual_transition {
                Some(old(self).cooldown_version)
            } else {
                None
            },
    {
        if !self.is_transitioning {
            return None;
        }
        self.current_position = self.target_position;
        self.is_transitioning = false;
        if self.manual_transition {
            self.manual_nav_suppression = true;
            Some(self.cooldown_version)
        } else {
            None
        }
    }

    /// The cooldown that was started under `version` has run out. If it is
    /// still the one that counts, the automatic cycle is no longer held back.
    /// A cooldown that a later navigation has overtaken changes nothing.
    pub fn end_cooldown(&mut self, version: u64) -> (ended: bool)
        ensures
            *final(self) == old(self).cooled_down(version),
            ended == (version == old(self).cooldown_version),
    {
        if version == self.cooldown_version {
            self.manual_nav_suppression = false;
            true
        } else {
            false
        }
    }

    /// Shows the mnemon at `position` at once, as after a mnemon was added
    /// or put back: a running transition and a cooldown are given up, and the
    /// automatic cycle's wait is overtaken, so that a full interval follows.
    pub fn jump_to(&mut self, position: usize)
        ensures
            *final(self) == old(self).shown_at(position),
    {
        self.current_position = position;
        self.target_position = position;
        self.is_transitioning = false;
        self.manual_transition = false;
        self.manual_nav_suppression = false;
        self.cycle_version = bump(self.cycle_version);
        self.cooldown_version = bump(self.cooldown_version);
    }

    /// Fits the slideshow to `total` mnemons, as after a mnemon was taken
    /// out: if the position that is shown no longer exists, the first mnemon
    /// is shown instead.
    pub fn fit_to(&mut self, total: usize)
        ensures
            *final(self) == old(self).fitted_to(total),
            total > 0 ==> final(self).current_position < total,
    {
        if self.current_position >= total {
            self.jump_to(0);
        }
    }

    /// The positions of the slides before and after the one that is shown,
    /// among `total` mnemons.
    pub fn neighbours(&self, total: usize) -> (r: (usize, usize))
        requires
            total > 0,
        ensures
            r.0 == position_before(self.current_position, total),
            r.1 == position_after(self.current_position, total),
    {
        (
            step(Direction::Backward, self.current_position, total),
            step(Direction::Forward, self.current_position, total),
        )
    }

    /// Opens or closes the details. Closing them overtakes the automatic
    /// cycle's wait, so that a full interval follows.
    pub fn set_details_open(&mut self, open: bool)
        ensures
            *final(self) == old(self).with_details(open),
    {
        if self.details_open && !open {
            self.cycle_version = bump(self.cycle_version);
        }
        self.details_open = open;
    }

    /// Opens the details if they are closed, and closes them if they are
    /// open.
    pub fn toggle_details(&mut self)
        ensures
            *final(self) == old(self).with_details(!old(self).details_open),
    {
        let open = !self.details_open;
        self.set_details_open(open);
    }

    /// Pauses the slideshow, or lets it run again.
    pub fn set_paused(&mut self, paused: bool)
        ensures
            *final(self) == (CarouselController { paused, ..*old(self) }),
    {
        self.paused = paused;
    }

    /// Pauses the slideshow if it runs, and lets it run again if it is
    /// paused.
    pub fn toggle_paused(&mut self)
        ensures
            *final(self) == (CarouselController { paused: !old(self).paused, ..*old(self) }),
    {
        self.paused = !self.paused;
    }

    /// Acts on a completed gesture: a swipe to the left shows the next
    /// mnemon, one to the right the mnemon before, one upwards opens the
    /// details if they are closed, one downwards closes them if they are open.
    pub fn handle_gesture(&mut self, gesture: CompletedGesture, total: usize) -> (outcome:
        GestureOutcome)
        ensures
            *final(self) == old(self).after_gesture(gesture, total),
            outcome == match gesture {
                CompletedGesture::SwipeLeft | CompletedGesture::SwipeRight => if old(
                    self,
                ).accepts_navigation(total) {
                    GestureOutcome::Navigated
                } else {
                    GestureOutcome::Ignored
                },
                CompletedGesture::SwipeUp => if old(self).details_open {
                    GestureOutcome::Ignored
                } else {
                    GestureOutcome::DetailsToggled
                },
                CompletedGesture::SwipeDown => if old(self).details_open {
                    GestureOutcome::DetailsToggled
                } else {
                    GestureOutcome::Ignored
                },
                CompletedGesture::Cancel => GestureOutcome::Ignored,
            },
    {
        match gesture {
            CompletedGesture::SwipeLeft => {
                if self.navigate(Direction::Forward, total) {
                    GestureOutcome::Navigated
                } else {
                    GestureOutcome::Ignored
                }
            },
            CompletedGesture::SwipeRight => {
                if self.navigate(Direction::Backward, total) {
                    GestureOutcome::Navigated
                } else {
                    GestureOutcome::Ignored
                }
            },
            CompletedGesture::SwipeUp => {
                if self.details_open {
                    GestureOutcome::Ignored
                } else {
                    self.set_details_open(true);
                    GestureOutcome::DetailsToggled
                }
            },
            CompletedGesture::SwipeDown => {
                if self.details_open {
                    self.set_details_open(false);
                    GestureOutcome::DetailsToggled
                } else {
                    GestureOutcome::Ignored
                }
            },
            CompletedGesture::Cancel => GestureOutcome::Ignored,
        }
    }
}

/// The position that a step in `direction` leads to from `current` among
/// `total` mnemons.
pub fn step(direction: Direction, current: usize, total: usize) -> (target: usize)
    requires
        total > 0,
    ensures
        target == position_towards(direction, current, total),
        current < total ==> target < total,
{
    match direction {
        Direction::Forward => {
            let here = current % total;
            assert((current + 1) % (total as int) == (here + 1) % (total as int)) by {
                vstd::arithmetic::div_mod::lemma_add_mod_noop(current as int, 1, total as int);
                vstd::arithmetic::div_mod::lemma_add_mod_noop(here as int, 1, total as int);
                vstd::arithmetic::div_mod::lemma_mod_twice(current as int, total as int);
            }
            (here + 1) % total
        },
        Direction::Backward => {
            if current == 0 {
                total - 1
            } else {
                current - 1
            }
        },
    }
}

/// The position reached from `current` by `steps` steps forward.
pub open spec fn position_after_steps(current: usize, total: usize, steps: nat) -> usize
    decreases steps,
{
    if steps == 0 {
        current
    } else {
        position_after(position_after_steps(current, total, (steps - 1) as nat), total)
    }
}

/// Steps forward add up: from a position among `total` mnemons, `steps` of
/// them lead to the position that many places further round the circle.
pub proof fn lemma_steps_forward(current: usize, total: usize, steps: nat)
    requires
        current < total,
    ensures
        position_after_steps(current, total, steps) == (current + steps) % (total as int),
    decreases steps,
{
    if steps == 0 {
        vstd::arithmetic::div_mod::lemma_small_mod(current as nat, total as nat);
    } else {
        lemma_steps_forward(current, total, (steps - 1) as nat);
        let before = (current + steps - 1) % (total as int);
        vstd::arithmetic::div_mod::lemma_add_mod_noop(current + steps - 1, 1, total as int);
        vstd::arithmetic::div_mod::lemma_mod_twice(current + steps - 1, total as int);
        vstd::arithmetic::div_mod::lemma_add_mod_noop(before, 1, total as int);
    }
}

/// Wraparound: as many steps forward as there are mnemons lead back to where
/// they began, and the step back from the first mnemon leads to the last.
pub proof fn lemma_full_round(current: usize, total: usize)
    requires
        current < total,
    ensures
        position_after_steps(current, total, total as nat) == current,
        position_before(0, total) == total - 1,
        position_before(position_after(current, total), total) == current,
{
    lemma_steps_forward(current, total, total as nat);
    vstd::arithmetic::div_mod::lemma_mod_add_multiples_vanish(current as int, total as int);
    vstd::arithmetic::div_mod::lemma_small_mod(current as nat, total as nat);
    if current + 1 < total {
        vstd::arithmetic::div_mod::lemma_small_mod((current + 1) as nat, total as nat);
    } else {
        vstd::arithmetic::div_mod::lemma_mod_self_0(total as int);
    }
}

/// The position that is shown stays among the mnemons: from a position that
/// exists, a navigation by hand and a step of the automatic cycle both lead
/// to one that exists, when their transition has settled.
pub proof fn lemma_position_stays_in_range(
    c: CarouselController,
    direction: Direction,
    version: u64,
    total: usize,
)
    requires
        c.current_position < total,
        !c.is_transitioning,
    ensures
        c.navigated(direction, total).settled().current_position < total,
        c.ticked(version, total).settled().current_position < total,
{
}

/// Suppression of the automatic cycle: from a navigation by hand on, no tick
/// moves the slideshow, whichever wait it belongs to; not while the
/// transition runs, nor once it has arrived or settled. A wait from before
/// the navigation is stale. Only the cooldown that the navigation itself
/// started lets the automatic cycle go on; one from before changes nothing.
pub proof fn lemma_navigation_holds_back_auto_cycle(
    c: CarouselController,
    direction: Direction,
    total: usize,
    tick_version: u64,
    tick_total: usize,
    cooldown: u64,
)
    requires
        c.accepts_navigation(total),
    ensures
        ({
            let moving = c.navigated(direction, total);
            let shown = moving.arrived();
            let resting = moving.settled();
            &&& moving.cycle_version != c.cycle_version
            &&& moving.ticked(tick_version, tick_total) == moving
            &&& shown.ticked(tick_version, tick_total) == shown
            &&& resting.ticked(tick_version, tick_total) == resting
            &&& resting.current_position == position_towards(direction, c.current_position, total)
            &&& resting.manual_nav_suppression
            &&& cooldown != moving.cooldown_version ==> resting.cooled_down(cooldown) == resting
            &&& cooldown == c.cooldown_version ==> resting.cooled_down(cooldown) == resting
            &&& !resting.cooled_down(moving.cooldown_version).manual_nav_suppression
        }),
{
}

/// While the automatic cycle is held back, a tick changes nothing.
pub proof fn lemma_no_advance_while_held_back(c: CarouselController, version: u64, total: usize)
    requires
        c.manual_nav_suppression,
    ensures
        c.ticked(version, total) == c,
{
}

} // verus!
