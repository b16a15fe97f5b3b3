//! The bullet-versus-enemy pass: what one frame's volley does to an enemy,
//! and the law that the kill latch pays each enemy out exactly once.

use vstd::prelude::*;
use crate::bullet::Bullet;
use crate::enemy::{enemy_moved, Enemy};
use crate::geom::rect_overlap;

verus! {

/// Some bullet of the volley overlaps the enemy's box.
pub open spec fn enemy_hit(e: Enemy, bullets: Seq<Bullet>) -> bool {
    exists|k: int| 0 <= k < bullets.len() && rect_overlap(bullets[k].rect, e.rect)
}

/// The enemy after the volley: a hit kills it and closes the scoring latch;
/// its box never moves here.
pub open spec fn enemy_after_hit(e: Enemy, bullets: Seq<Bullet>) -> Enemy {
    if enemy_hit(e, bullets) {
        Enemy { rect: e.rect, is_alive: false, has_given_points: true }
    } else {
        e
    }
}

/// The volley scores on this enemy: it is hit and the latch was still open.
pub open spec fn enemy_gives_point(e: Enemy, bullets: Seq<Bullet>) -> bool {
    enemy_hit(e, bullets) && !e.has_given_points
}

/// One whole frame for an enemy: take the volley, then advance if still alive.
pub open spec fn enemy_frame(e: Enemy, bullets: Seq<Bullet>, dt: int) -> Enemy {
    enemy_moved(enemy_after_hit(e, bullets), dt)
}

/// Points one frame's volley yields over a whole enemy collection.
pub open spec fn count_points(es: Seq<Enemy>, bullets: Seq<Bullet>) -> int
    decreases es.len(),
{
    if es.len() == 0 {
        0
    } else {
        count_points(es.drop_last(), bullets)
            + if enemy_gives_point(es.last(), bullets) { 1int } else { 0int }
    }
}

pub proof fn lemma_count_points_bounds(es: Seq<Enemy>, bullets: Seq<Bullet>)
    ensures
        0 <= count_points(es, bullets) <= es.len(),
    decreases es.len(),
{
    if es.len() > 0 {
        lemma_count_points_bounds(es.drop_last(), bullets);
    }
}

/// An enemy's life over many frames: each frame brings a volley and a time
/// step, applied in order.
pub open spec fn enemy_run(e: Enemy, frames: Seq<(Seq<Bullet>, int)>) -> Enemy
    decreases frames.len(),
{
    if frames.len() == 0 {
        e
    } else {
        enemy_frame(enemy_run(e, frames.drop_last()), frames.last().0, frames.last().1)
    }
}

/// Points the enemy yields over those frames.
pub open spec fn enemy_points(e: Enemy, frames: Seq<(Seq<Bullet>, int)>) -> int
    decreases frames.len(),
{
    if frames.len() == 0 {
        0
    } else {
        enemy_points(e, frames.drop_last())
            + if enemy_gives_point(enemy_run(e, frames.drop_last()), frames.last().0) {
                1int
            } else {
                0int
            }
    }
}

/// However many bullets overlap an enemy, over however many frames, the
/// enemy yields exactly one point — when its latch flips — and the point
/// comes only with the kill: a newly latched enemy is no longer alive.
pub proof fn lemma_enemy_scores_once(e: Enemy, frames: Seq<(Seq<Bullet>, int)>)
    ensures
        enemy_points(e, frames) == if enemy_run(e, frames).has_given_points
            && !e.has_given_points { 1int } else { 0int },
        e.has_given_points ==> enemy_run(e, frames).has_given_points,
        !e.has_given_points && enemy_run(e, frames).has_given_points
            ==> !enemy_run(e, frames).is_alive,
    decreases frames.len(),
{
    if frames.len() > 0 {
        lemma_enemy_scores_once(e, frames.drop_last());
    }
}

} // verus!
