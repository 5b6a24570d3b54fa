//! The snake itself: heading, body segments, movement, growth,
//! collision, and score, plus the food cell it chases.

use vstd::prelude::*;
use crate::GAME_HEIGHT;
use crate::GAME_WIDTH;

verus! {

/// The snake's current direction of travel.
#[derive(Clone, Copy, Debug, PartialEq, Eq, Structural)]
pub enum Direction {
    Up,
    Down,
    Left,
    Right,
}

/// The direction exactly opposite to `d`.
pub open spec fn opposite(d: Direction) -> Direction {
    match d {
        Direction::Up => Direction::Down,
        Direction::Down => Direction::Up,
        Direction::Left => Direction::Right,
        Direction::Right => Direction::Left,
    }
}

/// The direction a key byte asks for: `w`/`W` up, `s`/`S` down,
/// `a`/`A` left, `d`/`D` right; any other byte asks for none.
pub open spec fn key_direction(key: u8) -> Option<Direction> {
    if key == 119 || key == 87 {
        Some(Direction::Up)
    } else if key == 115 || key == 83 {
        Some(Direction::Down)
    } else if key == 97 || key == 65 {
        Some(Direction::Left)
    } else if key == 100 || key == 68 {
        Some(Direction::Right)
    } else {
        None
    }
}

/// The heading after a key is applied to heading `d`: the requested
/// direction, unless the key requests nothing or requests the exact
/// opposite of `d`, in which case `d` is kept.
pub open spec fn new_heading(d: Direction, key: u8) -> Direction {
    match key_direction(key) {
        Some(nd) => if nd == opposite(d) {
            d
        } else {
            nd
        },
        None => d,
    }
}

/// The snake: body segments, head first, and the current heading.
pub struct Znake {
    pub segments: Vec<(usize, usize)>,
    pub direction: Direction,
}

/// The cell one step from the head of `z` in its current heading.
/// Meaningful when the head's coordinates admit the step without
/// wrapping, which `Znake::wf` guarantees.
pub open spec fn next_pos(z: Znake) -> (usize, usize) {
    let x = z.segments@[0].0;
    let y = z.segments@[0].1;
    match z.direction {
        Direction::Up => (x, (y - 1) as usize),
        Direction::Down => (x, (y + 1) as usize),
        Direction::Left => ((x - 1) as usize, y),
        Direction::Right => ((x + 1) as usize, y),
    }
}

/// True when the head lies on the outer frame (one unit beyond the
/// innermost playable interior on any side) or coincides with another
/// body segment.
pub open spec fn collides(z: Znake) -> bool {
    let head = z.segments@[0];
    head.0 == 1 || head.0 == GAME_WIDTH + 1 || head.1 == 1 || head.1 == GAME_HEIGHT + 1 || exists|
        i: int,
    |
        1 <= i < z.segments@.len() && z.segments@[i] == head
}

/// The score: one point per food eaten, i.e. the segment count minus
/// the initial length of 3, floored at zero.
pub open spec fn score_spec(z: Znake) -> nat {
    if z.segments@.len() >= 3 {
        (z.segments@.len() - 3) as nat
    } else {
        0
    }
}

impl Znake {
    /// Well-formed snake: non-empty, and every segment within the
    /// drawable frame, so one step from the head cannot wrap.
    pub open spec fn wf(self) -> bool {
        self.segments@.len() >= 1 && forall|i: int|
            0 <= i < self.segments@.len() ==> 1 <= (#[trigger] self.segments@[i]).0 <= GAME_WIDTH
                + 1 && 1 <= self.segments@[i].1 <= GAME_HEIGHT + 1
    }

    /// A fresh snake: three segments in a row at mid-board, head at
    /// the right end, heading right.
    pub fn new() -> (r: Znake)
        ensures
            r.segments@ =~= seq![
                (GAME_WIDTH / 2, GAME_HEIGHT / 2),
                ((GAME_WIDTH / 2 - 1) as usize, GAME_HEIGHT / 2),
                ((GAME_WIDTH / 2 - 2) as usize, GAME_HEIGHT / 2),
            ],
            r.direction == Direction::Right,
            r.wf(),
            !collides(r),
    {
        let head: (usize, usize) = (GAME_WIDTH / 2, GAME_HEIGHT / 2);
        let mut segments: Vec<(usize, usize)> = Vec::new();
        segments.push(head);
        segments.push((head.0 - 1, head.1));
        segments.push((head.0 - 2, head.1));
        Znake { segments, direction: Direction::Right }
    }

    /// Applies a direction key: installs the requested heading unless
    /// it is the exact opposite of the current one or the byte is not
    /// a direction key; the body is never touched.
    pub fn change_direction(&mut self, key: u8)
        ensures
            final(self).direction == new_heading(old(self).direction, key),
            final(self).segments@ == old(self).segments@,
    {
        let new_direction = match key {
            119 | 87 => Direction::Up,  // 'w' | 'W'
            115 | 83 => Direction::Down,  // 's' | 'S'
            97 | 65 => Direction::Left,  // 'a' | 'A'
            100 | 68 => Direction::Right,  // 'd' | 'D'
            _ => { return ; },
        };
        let is_opposite = match (&self.direction, &new_direction) {
            (Direction::Up, Direction::Down) => true,
            (Direction::Down, Direction::Up) => true,
            (Direction::Left, Direction::Right) => true,
            (Direction::Right, Direction::Left) => true,
            _ => false,
        };
        if !is_opposite {
            self.direction = new_direction;
        }
    }

    /// The cell the head would move to this tick.
    pub fn next_position(&self) -> (r: (usize, usize))
        requires
            self.wf(),
        ensures
            r == next_pos(*self),
    {
        let (x, y) = self.segments[0];
        match self.direction {
            Direction::Up => (x, y - 1),
            Direction::Down => (x, y + 1),
            Direction::Left => (x - 1, y),
            Direction::Right => (x + 1, y),
        }
    }

    /// A plain (non-eating) step: the next cell becomes the head and
    /// the tail segment is dropped; the length is unchanged.
    pub fn move_znake(&mut self)
        requires
            old(self).wf(),
        ensures
            final(self).segments@ =~= seq![next_pos(*old(self))] + old(self).segments@.drop_last(),
            final(self).direction == old(self).direction,
            final(self).segments@.len() == old(self).segments@.len(),
    {
        let next = self.next_position();
        self.segments.insert(0, next);
        self.segments.pop();
        proof {
            assert(final(self).segments@ =~= seq![next] + old(self).segments@.drop_last());
        }
    }

    /// An eating step: the next cell becomes the head and every old
    /// segment is kept, so the length grows by exactly one.
    pub fn grow(&mut self)
        requires
            old(self).wf(),
        ensures
            final(self).segments@ =~= seq![next_pos(*old(self))] + old(self).segments@,
            final(self).direction == old(self).direction,
            final(self).segments@.len() == old(self).segments@.len() + 1,
    {
        let next = self.next_position();
        self.segments.insert(0, next);
        proof {
            assert(final(self).segments@ =~= seq![next] + old(self).segments@);
        }
    }

    /// Reports whether the head is on the outer frame or on another
    /// segment, exactly as `collides` states.
    pub fn check_collision(&self) -> (r: bool)
        requires
            self.segments@.len() >= 1,
        ensures
            r == collides(*self),
    {
        let head = self.segments[0];
        if head.0 == 1 || head.0 == GAME_WIDTH + 1 || head.1 == 1 || head.1 == GAME_HEIGHT + 1 {
            return true;
        }
        let mut i: usize = 1;
        while i < self.segments.len()
            invariant
                1 <= i <= self.segments@.len(),
                head == self.segments@[0],
                forall|j: int| 1 <= j < i ==> #[trigger] self.segments@[j] != self.segments@[0],
            decreases self.segments@.len() - i,
        {
            let seg = self.segments[i];
            if seg.0 == head.0 && seg.1 == head.1 {
                proof {
                    assert(self.segments@[i as int] =~= (seg.0, seg.1));
                    assert(self.segments@[0] =~= (head.0, head.1));
                }
                return true;
            }
            proof {
                assert(self.segments@[i as int] =~= (seg.0, seg.1));
                assert(self.segments@[0] =~= (head.0, head.1));
            }
            i = i + 1;
        }
        false
    }

    /// The current score: segment count minus the initial 3, floored
    /// at zero.
    pub fn score(&self) -> (r: usize)
        ensures
            r == score_spec(*self),
    {
        if self.segments.len() >= 3 {
            self.segments.len() - 3
        } else {
            0
        }
    }
}

/// The one food cell currently on the board.
pub struct Food {
    pub x: usize,
    pub y: usize,
}

impl Food {
    /// Food sits strictly inside the frame, clear of every colliding
    /// coordinate.
    pub open spec fn wf(self) -> bool {
        2 <= self.x < GAME_WIDTH && 2 <= self.y < GAME_HEIGHT
    }

    /// Places food from a seed (the caller draws it from the clock):
    /// the seed is reduced modulo the interior size with a +2 offset,
    /// which keeps the cell strictly inside the frame.
    pub fn new(seed: usize) -> (r: Food)
        ensures
            r.x == seed % ((GAME_WIDTH - 2) as usize) + 2,
            r.y == (seed / GAME_WIDTH) % ((GAME_HEIGHT - 2) as usize) + 2,
            r.wf(),
    {
        let x = (seed % (GAME_WIDTH - 2)) + 2;
        let y = ((seed / GAME_WIDTH) % (GAME_HEIGHT - 2)) + 2;
        Food { x, y }
    }
}

} // verus!
