//! The head controller: the direction the head will take at the next step,
//! and how the steering keys set it.

use vstd::prelude::*;
use crate::grid::Direction;

verus! {

/// Which of the keys that the game listens to went down since the last
/// frame.
#[derive(Clone, Copy, Debug, PartialEq, Eq)]
pub struct KeysPressed {
    /// Steer up.
    pub w: bool,
    /// Steer down.
    pub s: bool,
    /// Steer left.
    pub a: bool,
    /// Steer right.
    pub d: bool,
    /// Grow by one segment.
    pub space: bool,
}

/// The direction that is pending after the keys were handled, given the one
/// that was pending before. The keys are handled in the order W, S, A, D and
/// the last one that went down wins; with none of them down the direction
/// stays.
pub open spec fn steered(current: Direction, keys: KeysPressed) -> Direction {
    if keys.d {
        Direction::Right
    } else if keys.a {
        Direction::Left
    } else if keys.s {
        Direction::Down
    } else if keys.w {
        Direction::Up
    } else {
        current
    }
}

/// Holds the direction commanded last. The view is that direction.
pub struct HeadController {
    pending: Direction,
}

impl View for HeadController {
    type V = Direction;

    closed spec fn view(&self) -> Direction {
        self.pending
    }
}

impl KeysPressed {
    /// No key went down.
    pub fn none() -> (keys: KeysPressed)
        ensures
            keys == (KeysPressed { w: false, s: false, a: false, d: false, space: false }),
    {
        KeysPressed { w: false, s: false, a: false, d: false, space: false }
    }
}

impl HeadController {
    /// A controller whose pending direction is `direction`.
    pub fn new(direction: Direction) -> (controller: HeadController)
        ensures
            controller@ == direction,
    {
        HeadController { pending: direction }
    }

    /// Replaces the pending direction. Nothing is kept of the one before.
    pub fn set_pending_direction(&mut self, direction: Direction)
        ensures
            final(self)@ == direction,
    {
        self.pending = direction;
    }

    /// The pending direction. Reading leaves it in place, so the snake
    /// keeps its course until it is steered again.
    pub fn take_pending_direction(&self) -> (direction: Direction)
        ensures
            direction == self@,
    {
        self.pending
    }

    /// Handles the steering keys of one frame.
    pub fn steer(&mut self, keys: &KeysPressed)
        ensures
            final(self)@ == steered(old(self)@, *keys),
    {
        if keys.w {
            self.set_pending_direction(Direction::Up);
        }
        if keys.s {
            self.set_pending_direction(Direction::Down);
        }
        if keys.a {
            self.set_pending_direction(Direction::Left);
        }
        if keys.d {
            self.set_pending_direction(Direction::Right);
        }
    }
}

} // verus!
