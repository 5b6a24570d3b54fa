//! The per-tick decision core of the game loop: key handling, one
//! tick of movement/growth/collision, and the choice of what to draw.
//! The loop around it only polls for a key, draws fresh seeds from
//! the clock, and writes the returned bytes.

use vstd::prelude::*;
use crate::game::collides;
use crate::game::new_heading;
use crate::game::next_pos;
use crate::game::score_spec;
use crate::game::Direction;
use crate::game::Food;
use crate::game::Znake;
use crate::render::frame_bytes;
use crate::render::game_over_bytes;
use crate::render::draw_game_over_screen;
use crate::render::render_frame;
use crate::GAME_HEIGHT;
use crate::GAME_WIDTH;

verus! {

/// The round's phase: still playing, or over with a final score.
#[derive(Clone, Copy, Debug, PartialEq, Eq, Structural)]
pub enum GameState {
    Playing,
    GameOver { score: usize },
}

/// One round of the game: the snake, the food, the phase, and
/// whether the game-over screen has been drawn yet.
pub struct Game {
    pub znake: Znake,
    pub food: Food,
    pub state: GameState,
    pub game_over_shown: bool,
}

/// True when this tick's step lands the head on the food cell.
pub open spec fn eats(g: Game) -> bool {
    next_pos(g.znake).0 == g.food.x && next_pos(g.znake).1 == g.food.y
}

impl Game {
    /// Every reachable round state: a well-formed snake of at least
    /// the initial length, food inside the frame, and, while playing,
    /// a head that has not collided.
    pub open spec fn inv(self) -> bool {
        self.znake.wf() && self.znake.segments@.len() >= 3 && self.food.wf() && (self.state
            is Playing ==> !collides(self.znake))
    }

    /// A fresh round: the initial snake, food placed from `seed`,
    /// playing, nothing drawn yet.
    pub fn new(seed: usize) -> (g: Game)
        ensures
            g.inv(),
            g.znake.segments@ =~= seq![
                (GAME_WIDTH / 2, GAME_HEIGHT / 2),
                ((GAME_WIDTH / 2 - 1) as usize, GAME_HEIGHT / 2),
                ((GAME_WIDTH / 2 - 2) as usize, GAME_HEIGHT / 2),
            ],
            g.znake.direction == Direction::Right,
            g.food.x == seed % ((GAME_WIDTH - 2) as usize) + 2,
            g.food.y == (seed / GAME_WIDTH) % ((GAME_HEIGHT - 2) as usize) + 2,
            g.state is Playing,
            !g.game_over_shown,
    {
        Game {
            znake: Znake::new(),
            food: Food::new(seed),
            state: GameState::Playing,
            game_over_shown: false,
        }
    }

    /// Feeds one key byte to the round. While playing the key may
    /// turn the snake and never asks for a restart; after game over
    /// nothing changes and only ENTER (LF or CR) asks for a restart.
    pub fn handle_key(&mut self, key: u8) -> (restart: bool)
        requires
            old(self).inv(),
        ensures
            final(self).inv(),
            old(self).state is Playing ==> {
                &&& final(self).znake.direction == new_heading(old(self).znake.direction, key)
                &&& final(self).znake.segments@ == old(self).znake.segments@
                &&& final(self).food == old(self).food
                &&& final(self).state == old(self).state
                &&& final(self).game_over_shown == old(self).game_over_shown
                &&& restart == false
            },
            !(old(self).state is Playing) ==> *final(self) == *old(self) && restart == (key == 10
                || key == 13),
    {
        match self.state {
            GameState::Playing => {
                self.znake.change_direction(key);
                false
            },
            GameState::GameOver { score: _ } => { key == 10 || key == 13 },
        }
    }

    /// One tick while playing. The head steps one cell in the current
    /// heading; landing on the food keeps the whole body (the snake
    /// grows by one) and replaces the food from `food_seed`, any
    /// other step drops the tail. If the new head is on the frame or
    /// on the body, the round ends carrying the score computed from
    /// the body as it stands after the step.
    pub fn tick(&mut self, food_seed: usize)
        requires
            old(self).inv(),
            old(self).state is Playing,
        ensures
            final(self).inv(),
            final(self).znake.direction == old(self).znake.direction,
            final(self).game_over_shown == old(self).game_over_shown,
            eats(*old(self)) ==> {
                &&& final(self).znake.segments@ =~= seq![next_pos(old(self).znake)]
                    + old(self).znake.segments@
                &&& final(self).food.x == food_seed % ((GAME_WIDTH - 2) as usize) + 2
                &&& final(self).food.y == (food_seed / GAME_WIDTH) % ((GAME_HEIGHT - 2) as usize)
                    + 2
            },
            !eats(*old(self)) ==> {
                &&& final(self).znake.segments@ =~= seq![next_pos(old(self).znake)]
                    + old(self).znake.segments@.drop_last()
                &&& final(self).food == old(self).food
            },
            final(self).state == if collides(final(self).znake) {
                GameState::GameOver { score: score_spec(final(self).znake) as usize }
            } else {
                GameState::Playing
            },
    {
        proof {
            lemma_step_stays_in_frame(old(self).znake);
        }
        let next = self.znake.next_position();
        if next.0 == self.food.x && next.1 == self.food.y {
            self.znake.grow();
            self.food = Food::new(food_seed);
        } else {
            self.znake.move_znake();
        }
        proof {
            lemma_stepped_wf(old(self).znake, old(self).food, self.znake);
        }
        if self.znake.check_collision() {
            let s = self.znake.score();
            self.state = GameState::GameOver { score: s };
        }
    }

    /// What to draw this tick: while playing, always the full frame;
    /// after game over, the game-over screen exactly once (on the
    /// first call after the transition) and nothing thereafter.
    pub fn render(&mut self) -> (r: Option<Vec<u8>>)
        requires
            old(self).inv(),
        ensures
            final(self).inv(),
            final(self).znake == old(self).znake,
            final(self).food == old(self).food,
            final(self).state == old(self).state,
            old(self).state is Playing ==> {
                &&& final(self).game_over_shown == old(self).game_over_shown
                &&& (r matches Some(v) && v@ == frame_bytes(old(self).znake, old(self).food))
            },
            old(self).state matches GameState::GameOver { score } ==> if !old(
                self).game_over_shown {
                final(self).game_over_shown && (r matches Some(v) && v@ == game_over_bytes(score))
            } else {
                final(self).game_over_shown && r is None
            },
    {
        match self.state {
            GameState::Playing => { Some(render_frame(&self.znake, &self.food)) },
            GameState::GameOver { score } => {
                if !self.game_over_shown {
                    self.game_over_shown = true;
                    Some(draw_game_over_screen(score))
                } else {
                    None
                }
            },
        }
    }
}

/// While playing, the head sits strictly inside the colliding frame,
/// so one step in any heading stays within the drawable coordinates.
pub proof fn lemma_step_stays_in_frame(z: Znake)
    requires
        z.wf(),
        !collides(z),
    ensures
        1 <= next_pos(z).0 <= GAME_WIDTH + 1,
        1 <= next_pos(z).1 <= GAME_HEIGHT + 1,
{
    assert(z.segments@[0].0 != 1 && z.segments@[0].0 != GAME_WIDTH + 1);
    assert(z.segments@[0].1 != 1 && z.segments@[0].1 != GAME_HEIGHT + 1);
}

/// After a step (eating or not) from a playing state, the snake is
/// still well-formed: the new head stayed in the frame and every
/// other segment was already there.
proof fn lemma_stepped_wf(z: Znake, f: Food, stepped: Znake)
    requires
        z.wf(),
        z.segments@.len() >= 3,
        f.wf(),
        !collides(z),
        stepped.segments@ =~= seq![next_pos(z)] + z.segments@ || stepped.segments@ =~= seq![
            next_pos(z),
        ] + z.segments@.drop_last(),
    ensures
        stepped.wf(),
        stepped.segments@.len() >= 3,
{
    lemma_step_stays_in_frame(z);
    assert forall|i: int|
        0 <= i < stepped.segments@.len() implies 1 <= (#[trigger] stepped.segments@[i]).0
        <= GAME_WIDTH + 1 && 1 <= stepped.segments@[i].1 <= GAME_HEIGHT + 1 by {
        if i > 0 {
            assert(stepped.segments@[i] == z.segments@[i - 1]);
        }
    }
}

/// Splits a poll timeout in milliseconds into the whole seconds and
/// remaining microseconds that a bounded wait on the platform needs.
pub fn timeout_parts(timeout_ms: u64) -> (r: (u64, u64))
    ensures
        r.0 == timeout_ms / 1000,
        r.1 == (timeout_ms % 1000) * 1000,
{
    (timeout_ms / 1000, (timeout_ms % 1000) * 1000)
}

} // verus!
