//! The player craft: vertical-only motion with bounds clamping and the
//! edge-triggered fire gate.

use vstd::prelude::*;
use crate::enemy::Enemy;
use crate::geom::{rect_overlap, rect_sums_fit, Rect};
use crate::{coord_ok, travel, travel_dist, COORD_LIMIT, DT_LIMIT, DrawCmd, SpriteId};

verus! {

pub const PLAYER_W: i64 = 80;
pub const PLAYER_H: i64 = 44;
/// Vertical speed in screen units per second.
pub const PLAYER_SPEED: i64 = 500;

/// The single player craft. `can_shoot` is an edge-triggered gate: cleared
/// the frame a shot is fired, set again only when the fire intent is
/// released, so a held input cannot fire automatically.
#[derive(Clone, Copy, PartialEq, Eq, Structural, Debug)]
pub struct Player {
    pub rect: Rect,
    pub can_shoot: bool,
}

/// Vertical offset the player spawns at and returns to on reset.
pub open spec fn initial_y(screen_h: int) -> int {
    screen_h / 2 - 2 * PLAYER_H
}

/// Both or neither of the up and down intents held gives velocity zero;
/// otherwise the held direction wins.
pub open spec fn velocity(up: bool, down: bool) -> int {
    match (up, down) {
        (true, false) => -1,
        (false, true) => 1,
        _ => 0,
    }
}

/// One frame of player motion: integrate the velocity, then clamp the top
/// edge to the screen, top bound first.
pub open spec fn player_step(p: Player, up: bool, down: bool, dt: int, screen_h: int) -> Player {
    let y1 = p.rect.y + velocity(up, down) * travel(dt, PLAYER_SPEED as int);
    let y2 = if y1 < 0 { 0 } else { y1 };
    let y3 = if y2 > screen_h - p.rect.h { screen_h - p.rect.h } else { y2 };
    Player {
        rect: Rect { x: p.rect.x, y: y3 as i64, w: p.rect.w, h: p.rect.h },
        can_shoot: p.can_shoot,
    }
}

/// A reset player: fire gate open, back at the initial vertical offset.
pub open spec fn player_reset(p: Player, screen_h: int) -> Player {
    Player {
        rect: Rect { x: p.rect.x, y: initial_y(screen_h) as i64, w: p.rect.w, h: p.rect.h },
        can_shoot: true,
    }
}

pub open spec fn player_cmd(p: Player) -> DrawCmd {
    DrawCmd { sprite: SpriteId::PlayerShip, x: p.rect.x, y: p.rect.y }
}

/// On a screen at least as tall as the player, a stepped player always lies
/// fully on the screen.
pub proof fn lemma_player_step_in_bounds(p: Player, up: bool, down: bool, dt: int, screen_h: int)
    requires
        coord_ok(p.rect.y as int),
        0 <= dt <= DT_LIMIT,
        0 < p.rect.h <= screen_h <= COORD_LIMIT,
    ensures
        0 <= player_step(p, up, down, dt, screen_h).rect.y,
        player_step(p, up, down, dt, screen_h).rect.y + p.rect.h <= screen_h,
{
    assert(0 <= dt * PLAYER_SPEED <= DT_LIMIT * PLAYER_SPEED) by (nonlinear_arith)
        requires 0 <= dt <= DT_LIMIT,
    ;
    assert(0 <= travel(dt, PLAYER_SPEED as int) <= DT_LIMIT * PLAYER_SPEED);
}

impl Player {
    /// The craft starts at the left edge, at the initial vertical offset,
    /// with the fire gate open.
    pub fn new(screen_h: i64) -> (p: Player)
        requires
            0 <= screen_h <= COORD_LIMIT,
        ensures
            p.rect == (Rect { x: 0, y: initial_y(screen_h as int) as i64, w: PLAYER_W, h: PLAYER_H }),
            p.can_shoot,
    {
        let y: i64 = (((screen_h as u64) / 2) as i64) - 2 * PLAYER_H;
        Player {
            rect: Rect { x: 0, y, w: PLAYER_W, h: PLAYER_H },
            can_shoot: true,
        }
    }

    /// One frame of motion from the sampled intents.
    pub fn update(&mut self, up: bool, down: bool, dt: i64, screen_h: i64)
        requires
            0 <= dt <= DT_LIMIT,
            coord_ok(old(self).rect.y as int),
            0 <= old(self).rect.h <= COORD_LIMIT,
            0 <= screen_h <= COORD_LIMIT,
        ensures
            *final(self) == player_step(*old(self), up, down, dt as int, screen_h as int),
    {
        let step: i64 = travel_dist(dt, PLAYER_SPEED);
        let delta: i64 = match (up, down) {
            (true, false) => -step,
            (false, true) => step,
            _ => 0,
        };

        self.rect.y = self.rect.y + delta;

        if self.rect.y < 0 {
            self.rect.y = 0;
        }

        if self.rect.y > screen_h - self.rect.h {
            self.rect.y = screen_h - self.rect.h;
        }
        proof {
            let dd = travel(dt as int, PLAYER_SPEED as int);
            assert(velocity(up, down) * dd == (
                if up && !down { -dd } else if down && !up { dd } else { 0int }
            )) by {
                assert((-1) * dd == -dd) by (nonlinear_arith);
                assert(1 * dd == dd) by (nonlinear_arith);
                assert(0 * dd == 0) by (nonlinear_arith);
            };
        }
    }

    pub fn draw(&self) -> (c: DrawCmd)
        ensures
            c == player_cmd(*self),
    {
        DrawCmd { sprite: SpriteId::PlayerShip, x: self.rect.x, y: self.rect.y }
    }

    /// Does the enemy's box overlap the player's?
    pub fn is_collision(&self, enemy: &Enemy) -> (r: bool)
        requires
            rect_sums_fit(self.rect),
            rect_sums_fit(enemy.rect),
        ensures
            r == rect_overlap(enemy.rect, self.rect),
    {
        crate::geom::is_collision(&enemy.rect, &self.rect)
    }

    /// Reopen the fire gate and recenter vertically.
    pub fn reset(&mut self, screen_h: i64)
        requires
            0 <= screen_h <= COORD_LIMIT,
        ensures
            *final(self) == player_reset(*old(self), screen_h as int),
    {
        self.can_shoot = true;
        self.rect.y = (((screen_h as u64) / 2) as i64) - 2 * PLAYER_H;
    }
}

} // verus!
