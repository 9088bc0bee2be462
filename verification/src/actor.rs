//! An actor: a two-by-two block that travels across the surface one cell per
//! tick until a border, a collision or a key press stops it.

use vstd::prelude::*;

use crate::color::{border_color, new_color_by_border, Color};
use crate::direction::Direction;

verus! {

/// Width and height of an actor's footprint, in cells.
pub const FOOTPRINT: u16 = 2;

/// Greatest gap at which another actor in the same row or column still holds
/// a start back.
pub const GUARD_GAP: u16 = 2;

/// A movable block with the position of its top-left cell, the direction it
/// travels in and the colour it carries, if any.
#[derive(Clone, Copy, PartialEq, Eq, Debug)]
pub struct Actor {
    pub x: u16,
    pub y: u16,
    pub direction: Direction,
    pub color: Option<Color>,
}

impl Actor {
    /// The whole footprint lies on a surface of `width` by `height` cells.
    pub open spec fn in_bounds(self, width: u16, height: u16) -> bool {
        self.x + FOOTPRINT <= width && self.y + FOOTPRINT <= height
    }

    /// The actor has room to take one step in its direction.
    pub open spec fn can_advance(self, width: u16, height: u16) -> bool {
        match self.direction {
            Direction::Left => self.x > 0,
            Direction::Right => self.x + FOOTPRINT < width,
            Direction::Up => self.y > 0,
            Direction::Down => self.y + FOOTPRINT < height,
            Direction::Still => false,
        }
    }

    /// The position one step along the actor's direction.
    pub open spec fn step_target(self) -> (int, int) {
        match self.direction {
            Direction::Left => (self.x - 1, self.y as int),
            Direction::Right => (self.x + 1, self.y as int),
            Direction::Up => (self.x as int, self.y - 1),
            Direction::Down => (self.x as int, self.y + 1),
            Direction::Still => (self.x as int, self.y as int),
        }
    }

    /// A step of the actor, if it has room for one, ends flush with the
    /// border it is heading for.
    pub open spec fn reaches_border(self, width: u16, height: u16) -> bool {
        self.can_advance(width, height) && match self.direction {
            Direction::Left => self.x == 1,
            Direction::Right => self.x + 1 + FOOTPRINT == width,
            Direction::Up => self.y == 1,
            Direction::Down => self.y + 1 + FOOTPRINT == height,
            Direction::Still => false,
        }
    }

    /// The actor one autonomous tick later, before pickups and collisions are
    /// looked at: one cell further if there is room, and stopped and
    /// recoloured by the border if that step reaches it.
    pub open spec fn advanced(self, width: u16, height: u16) -> Actor {
        if !self.can_advance(width, height) {
            self
        } else {
            let (x, y) = self.step_target();
            if self.reaches_border(width, height) {
                Actor {
                    x: x as u16,
                    y: y as u16,
                    direction: Direction::Still,
                    color: border_color(self.direction),
                }
            } else {
                Actor { x: x as u16, y: y as u16, direction: self.direction, color: self.color }
            }
        }
    }

    /// The other actor holds back a start in `dir`: it stands in this
    /// actor's row, for a start to the left or right, or in its column, for
    /// a start up or down, and the gap to it is at most `GUARD_GAP`. The gap
    /// is how far the other actor's coordinate on that axis lies ahead in
    /// `dir`; an actor level with this one or behind it is at gap zero and
    /// so holds the start back as well.
    pub open spec fn blocked_by(self, other: Actor, dir: Direction) -> bool {
        match dir {
            Direction::Left => self.y == other.y && self.x - other.x <= GUARD_GAP,
            Direction::Right => self.y == other.y && other.x - self.x <= GUARD_GAP,
            Direction::Up => self.x == other.x && self.y - other.y <= GUARD_GAP,
            Direction::Down => self.x == other.x && other.y - self.y <= GUARD_GAP,
            Direction::Still => true,
        }
    }

    /// A key press may set the actor off in `dir`: there is room towards that
    /// border and the other actor does not block the start.
    pub open spec fn may_start(self, other: Actor, dir: Direction, width: u16, height: u16)
        -> bool {
        let heading = Actor { direction: dir, ..self };
        heading.can_advance(width, height) && !self.blocked_by(other, dir)
    }

    /// The direction the actor has after the key for `dir` was pressed: the
    /// key opposite to its travel stops it, any other key sets it off in
    /// `dir` where `may_start` allows and changes nothing where it does not.
    pub open spec fn steered(self, other: Actor, dir: Direction, width: u16, height: u16)
        -> Direction {
        if self.direction == dir.opposite_spec() {
            Direction::Still
        } else if self.may_start(other, dir, width, height) {
            dir
        } else {
            self.direction
        }
    }

    /// Computes the actor's tentative state for this tick. Nothing is
    /// committed: the caller decides whether the step stands.
    pub fn advance(&self, width: u16, height: u16) -> (next: Actor)
        ensures
            next == self.advanced(width, height),
            self.in_bounds(width, height) ==> next.in_bounds(width, height),
            self.reaches_border(width, height) ==> next.direction == Direction::Still
                && next.color == border_color(self.direction),
            self.direction == Direction::Left && self.x == 1 ==> next.x == 0 && next.direction
                == Direction::Still && next.color == Some(Color::Red),
    {
        let mut next = *self;
        match self.direction {
            Direction::Left => {
                if self.x > 0 {
                    next.x = self.x - 1;
                }
            },
            Direction::Right => {
                if self.x < width.saturating_sub(FOOTPRINT) {
                    next.x = self.x + 1;
                }
            },
            Direction::Up => {
                if self.y > 0 {
                    next.y = self.y - 1;
                }
            },
            Direction::Down => {
                if self.y < height.saturating_sub(FOOTPRINT) {
                    next.y = self.y + 1;
                }
            },
            Direction::Still => {},
        }
        let moved = next.x != self.x || next.y != self.y;
        if moved && next.touches_border(width, height) {
            next.color = new_color_by_border(self.direction);
            next.direction = Direction::Still;
        }
        next
    }

    /// Whether a press of the key for `dir` may set the actor off.
    pub fn can_start(&self, other: &Actor, dir: Direction, width: u16, height: u16) -> (ok: bool)
        ensures
            ok == self.may_start(*other, dir, width, height),
    {
        let same_row = self.y == other.y;
        let same_column = self.x == other.x;
        match dir {
            Direction::Left => self.x > 0 && !(same_row && self.x.saturating_sub(other.x)
                <= GUARD_GAP),
            Direction::Right => self.x < width.saturating_sub(FOOTPRINT) && !(same_row
                && other.x.saturating_sub(self.x) <= GUARD_GAP),
            Direction::Up => self.y > 0 && !(same_column && self.y.saturating_sub(other.y)
                <= GUARD_GAP),
            Direction::Down => self.y < height.saturating_sub(FOOTPRINT) && !(same_column
                && other.y.saturating_sub(self.y) <= GUARD_GAP),
            Direction::Still => false,
        }
    }

    /// Applies a press of the key for `dir`. Only the direction changes.
    pub fn steer(&mut self, other: &Actor, dir: Direction, width: u16, height: u16)
        ensures
            final(self).direction == old(self).steered(*other, dir, width, height),
            final(self).x == old(self).x,
            final(self).y == old(self).y,
            final(self).color == old(self).color,
    {
        if self.direction == dir.opposite() {
            self.direction = Direction::Still;
        } else if self.can_start(other, dir, width, height) {
            self.direction = dir;
        }
    }

    /// The actor, heading in its direction, stands flush with that border.
    fn touches_border(&self, width: u16, height: u16) -> (flush: bool)
        ensures
            flush == match self.direction {
                Direction::Left => self.x == 0,
                Direction::Right => self.x + FOOTPRINT == width,
                Direction::Up => self.y == 0,
                Direction::Down => self.y + FOOTPRINT == height,
                Direction::Still => false,
            },
    {
        match self.direction {
            Direction::Left => self.x == 0,
            Direction::Right => width >= FOOTPRINT && self.x == width - FOOTPRINT,
            Direction::Up => self.y == 0,
            Direction::Down => height >= FOOTPRINT && self.y == height - FOOTPRINT,
            Direction::Still => false,
        }
    }
}

} // verus!
