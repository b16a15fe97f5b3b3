//! Core simulation of a single-screen side-scrolling shooter.
//!
//! The library holds the per-frame game logic: the finite game-state machine,
//! the spawn and cooldown timers, the player / bullet / enemy lifecycle, and
//! the collision-and-scoring pass. Positions are integer screen units and a
//! frame's elapsed time is an integer number of milliseconds; rendering,
//! input polling and window management live outside the library, which only
//! consumes input intents and emits abstract draw commands.

use vstd::prelude::*;

pub mod bullet;
pub mod collision;
pub mod enemy;
pub mod exit_button;
pub mod game;
pub mod geom;
pub mod player;
pub mod score;

verus! {

/// Largest magnitude a coordinate may have for the frame arithmetic to be
/// free of overflow (2^60).
pub const COORD_LIMIT: i64 = 0x1000_0000_0000_0000;

/// Largest time step, in milliseconds, a frame may carry (2^40).
pub const DT_LIMIT: i64 = 0x100_0000_0000;

/// Speeds are given in screen units per second; time steps in milliseconds.
pub const TIME_UNITS_PER_SECOND: i64 = 1000;

pub open spec fn coord_ok(v: int) -> bool {
    -COORD_LIMIT <= v <= COORD_LIMIT
}

/// Distance covered in `dt` milliseconds at `speed` units per second.
pub open spec fn travel(dt: int, speed: int) -> int {
    dt * speed / (TIME_UNITS_PER_SECOND as int)
}

/// Computes `travel` for a bounded time step and speed.
pub fn travel_dist(dt: i64, speed: i64) -> (d: i64)
    requires
        0 <= dt <= DT_LIMIT,
        0 <= speed <= TIME_UNITS_PER_SECOND,
    ensures
        d == travel(dt as int, speed as int),
        0 <= d <= DT_LIMIT * TIME_UNITS_PER_SECOND,
{
    proof {
        assert(dt * speed <= DT_LIMIT * TIME_UNITS_PER_SECOND && dt * speed >= 0)
            by (nonlinear_arith)
            requires
                0 <= dt <= DT_LIMIT,
                0 <= speed <= TIME_UNITS_PER_SECOND,
        ;
    }
    let prod: i64 = dt * speed;
    ((prod as u64) / (TIME_UNITS_PER_SECOND as u64)) as i64
}

/// A bounded time step at a bounded speed covers a bounded distance.
pub proof fn lemma_travel_bounds(dt: int, speed: int)
    requires
        0 <= dt <= DT_LIMIT,
        0 <= speed <= TIME_UNITS_PER_SECOND,
    ensures
        0 <= travel(dt, speed) <= DT_LIMIT * TIME_UNITS_PER_SECOND,
{
    assert(0 <= dt * speed <= DT_LIMIT * TIME_UNITS_PER_SECOND) by (nonlinear_arith)
        requires
            0 <= dt <= DT_LIMIT,
            0 <= speed <= TIME_UNITS_PER_SECOND,
    ;
}

/// Index of a loaded sprite in the presentation layer's resource table.
#[derive(Clone, Copy, PartialEq, Eq, Structural, Debug)]
pub enum SpriteId {
    PlayerShip,
    BulletShot,
    EnemyShip,
}

/// One draw call the simulation asks the presentation layer to perform.
#[derive(Clone, Copy, PartialEq, Eq, Structural, Debug)]
pub struct DrawCmd {
    pub sprite: SpriteId,
    pub x: i64,
    pub y: i64,
}

} // verus!
