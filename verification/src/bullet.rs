//! Bullets: fixed-size squares that fly rightward at a fixed speed.
//! They are never pruned individually; the whole collection is cleared on
//! a round reset.

use vstd::prelude::*;
use crate::geom::{is_collision, rect_overlap, rect_sums_fit, Rect};
use crate::enemy::Enemy;
use crate::{coord_ok, travel, travel_dist, DT_LIMIT, DrawCmd, SpriteId};

verus! {

/// Horizontal speed in screen units per second.
pub const BULLET_SPEED: i64 = 500;
pub const BULLET_SIZE: i64 = 25;

#[derive(Clone, Copy, PartialEq, Eq, Structural, Debug)]
pub struct Bullet {
    pub rect: Rect,
}

/// A bullet after `dt` milliseconds of flight.
pub open spec fn bullet_moved(b: Bullet, dt: int) -> Bullet {
    Bullet {
        rect: Rect {
            x: (b.rect.x + travel(dt, BULLET_SPEED as int)) as i64,
            y: b.rect.y,
            w: b.rect.w,
            h: b.rect.h,
        },
    }
}

pub open spec fn bullet_cmd(b: Bullet) -> DrawCmd {
    DrawCmd { sprite: SpriteId::BulletShot, x: b.rect.x, y: b.rect.y }
}

impl Bullet {
    pub fn new(x: i64, y: i64) -> (b: Bullet)
        ensures
            b.rect == (Rect { x, y, w: BULLET_SIZE, h: BULLET_SIZE }),
    {
        Bullet { rect: Rect { x, y, w: BULLET_SIZE, h: BULLET_SIZE } }
    }

    /// One frame of rightward flight.
    pub fn update(&mut self, dt: i64)
        requires
            0 <= dt <= DT_LIMIT,
            coord_ok(old(self).rect.x as int),
        ensures
            *final(self) == bullet_moved(*old(self), dt as int),
    {
        self.rect.x = self.rect.x + travel_dist(dt, BULLET_SPEED);
    }

    pub fn draw(&self) -> (c: DrawCmd)
        ensures
            c == bullet_cmd(*self),
    {
        DrawCmd { sprite: SpriteId::BulletShot, x: self.rect.x, y: self.rect.y }
    }

    /// Does this bullet overlap the enemy's box?
    pub fn is_collision(&self, enemy: &Enemy) -> (r: bool)
        requires
            rect_sums_fit(self.rect),
            rect_sums_fit(enemy.rect),
        ensures
            r == rect_overlap(enemy.rect, self.rect),
    {
        is_collision(&enemy.rect, &self.rect)
    }
}

} // verus!
