//! Enemies: fixed-size squares advancing from the right edge. A killed
//! enemy stops moving and drawing but stays in its collection until the
//! round resets; `has_given_points` is the one-shot latch that keeps a kill
//! worth exactly one point.

use vstd::prelude::*;
use crate::geom::Rect;
use crate::{coord_ok, travel, travel_dist, DT_LIMIT, DrawCmd, SpriteId};

verus! {

pub const ENEMY_SIZE: i64 = 50;
/// Leftward speed in screen units per second.
pub const ENEMY_SPEED: i64 = 500;

#[derive(Clone, Copy, PartialEq, Eq, Structural, Debug)]
pub struct Enemy {
    pub rect: Rect,
    pub is_alive: bool,
    pub has_given_points: bool,
}

/// An enemy after `dt` milliseconds: only a live enemy advances.
pub open spec fn enemy_moved(e: Enemy, dt: int) -> Enemy {
    if e.is_alive {
        Enemy {
            rect: Rect {
                x: (e.rect.x - travel(dt, ENEMY_SPEED as int)) as i64,
                y: e.rect.y,
                w: e.rect.w,
                h: e.rect.h,
            },
            is_alive: e.is_alive,
            has_given_points: e.has_given_points,
        }
    } else {
        e
    }
}

pub open spec fn enemy_cmd(e: Enemy) -> DrawCmd {
    DrawCmd { sprite: SpriteId::EnemyShip, x: e.rect.x, y: e.rect.y }
}

impl Enemy {
    pub fn new(x: i64, y: i64) -> (e: Enemy)
        ensures
            e.rect == (Rect { x, y, w: ENEMY_SIZE, h: ENEMY_SIZE }),
            e.is_alive,
            !e.has_given_points,
    {
        Enemy {
            rect: Rect { x, y, w: ENEMY_SIZE, h: ENEMY_SIZE },
            is_alive: true,
            has_given_points: false,
        }
    }

    /// One frame of leftward advance; a dead enemy stays put.
    pub fn update(&mut self, dt: i64)
        requires
            0 <= dt <= DT_LIMIT,
            coord_ok(old(self).rect.x as int),
        ensures
            *final(self) == enemy_moved(*old(self), dt as int),
    {
        if self.is_alive {
            self.rect.x = self.rect.x - travel_dist(dt, ENEMY_SPEED);
        }
    }

    /// Only a live enemy is drawn.
    pub fn draw(&self) -> (c: Option<DrawCmd>)
        ensures
            c == (if self.is_alive { Some(enemy_cmd(*self)) } else { None::<DrawCmd> }),
    {
        if self.is_alive {
            Some(DrawCmd { sprite: SpriteId::EnemyShip, x: self.rect.x, y: self.rect.y })
        } else {
            None
        }
    }
}

} // verus!
