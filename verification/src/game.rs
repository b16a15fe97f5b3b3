//! The top-level driver: the Menu / Playing / GameOver state machine, the
//! two frame-count timers, and the per-frame orchestration of firing,
//! spawning, movement, collision, scoring and the round-over transition.

use vstd::prelude::*;
use vstd::math::max;
use crate::bullet::{bullet_cmd, bullet_moved, Bullet, BULLET_SIZE};
use crate::collision::{
    count_points, enemy_after_hit, enemy_frame, lemma_count_points_bounds,
};
use crate::enemy::{enemy_cmd, Enemy, ENEMY_SIZE};
use crate::geom::{is_collision, rect_overlap, rect_sums_fit, Rect};
use crate::player::{
    initial_y, lemma_player_step_in_bounds, player_cmd, player_reset, player_step, Player,
    PLAYER_H, PLAYER_W,
};
use crate::score::{score_op_step, Score, ScoreOp};
use crate::{coord_ok, DrawCmd, COORD_LIMIT, DT_LIMIT};

verus! {

/// Frames between two shots: a fire action resets the cooldown to this.
pub const BULLET_COOLDOWN_TIME: i64 = 5;
/// Frames between two enemy spawns.
pub const ENEMY_SPAWN_TIME: i64 = 50;
/// An enemy spawns at a vertical offset at least this far from either
/// screen edge.
pub const SPAWN_MARGIN: i64 = 100;

#[derive(Clone, Copy, PartialEq, Eq, Structural, Debug)]
pub enum GameState {
    Menu,
    Playing,
    GameOver,
}

/// Everything the simulation reads during one frame: the elapsed time in
/// milliseconds, the screen bounds, and the sampled input intents.
#[derive(Clone, Copy, PartialEq, Eq, Structural, Debug)]
pub struct FrameCtx {
    pub dt: i64,
    pub screen_w: i64,
    pub screen_h: i64,
    pub move_up: bool,
    pub move_down: bool,
    pub fire_held: bool,
    pub fire_released: bool,
    pub confirm_held: bool,
    pub quit_held: bool,
}

impl FrameCtx {
    /// Bounds under which a frame's arithmetic cannot overflow and the
    /// spawn band `[SPAWN_MARGIN, screen_h - SPAWN_MARGIN]` is non-empty.
    pub open spec fn valid(self) -> bool {
        &&& 0 <= self.dt <= DT_LIMIT
        &&& 0 <= self.screen_w <= COORD_LIMIT
        &&& 2 * SPAWN_MARGIN <= self.screen_h <= COORD_LIMIT
    }

    /// Runtime test of `valid`, for callers outside verified code.
    pub fn check_valid(&self) -> (ok: bool)
        ensures
            ok == self.valid(),
    {
        0 <= self.dt && self.dt <= DT_LIMIT
            && 0 <= self.screen_w && self.screen_w <= COORD_LIMIT
            && 2 * SPAWN_MARGIN <= self.screen_h && self.screen_h <= COORD_LIMIT
    }
}

/// The whole session state. The driver owns the player, both entity
/// collections, the counters and the timers; nothing is shared.
pub struct Game {
    pub state: GameState,
    pub player: Player,
    pub bullets: Vec<Bullet>,
    pub enemies: Vec<Enemy>,
    pub score: Score,
    pub bullet_cooldown_timer: i64,
    pub enemy_spawn_timer: i64,
}

impl Game {
    /// Structural invariant: entity boxes have their fixed sizes, the
    /// player sits at the left edge, the timers are within their periods
    /// and the counters are well-formed.
    pub open spec fn wf(self) -> bool {
        &&& self.player.rect.x == 0
        &&& self.player.rect.w == PLAYER_W
        &&& self.player.rect.h == PLAYER_H
        &&& forall|i: int| 0 <= i < self.bullets@.len()
            ==> (#[trigger] self.bullets@[i]).rect.w == BULLET_SIZE
                && self.bullets@[i].rect.h == BULLET_SIZE
        &&& forall|i: int| 0 <= i < self.enemies@.len()
            ==> (#[trigger] self.enemies@[i]).rect.w == ENEMY_SIZE
                && self.enemies@[i].rect.h == ENEMY_SIZE
        &&& 0 <= self.bullet_cooldown_timer <= BULLET_COOLDOWN_TIME
        &&& 0 <= self.enemy_spawn_timer <= ENEMY_SPAWN_TIME
        &&& self.score.wf()
    }

    /// Machine bounds one frame needs: every coordinate is within
    /// `COORD_LIMIT` and the score has room for this frame's kills.
    pub open spec fn in_bounds(self) -> bool {
        &&& coord_ok(self.player.rect.y as int)
        &&& forall|i: int| 0 <= i < self.bullets@.len()
            ==> coord_ok((#[trigger] self.bullets@[i]).rect.x as int)
                && coord_ok(self.bullets@[i].rect.y as int)
        &&& forall|i: int| 0 <= i < self.enemies@.len()
            ==> coord_ok((#[trigger] self.enemies@[i]).rect.x as int)
                && coord_ok(self.enemies@[i].rect.y as int)
        &&& self.score.score + self.enemies@.len() < i32::MAX
    }

    /// A fresh session: menu state, empty collections, zero counters,
    /// timers at their periods, the player at its spawn offset.
    pub fn new(screen_h: i64) -> (g: Game)
        requires
            0 <= screen_h <= COORD_LIMIT,
        ensures
            g.wf(),
            g.in_bounds(),
            g.state == GameState::Menu,
            g.player == (Player {
                rect: Rect {
                    x: 0,
                    y: initial_y(screen_h as int) as i64,
                    w: PLAYER_W,
                    h: PLAYER_H,
                },
                can_shoot: true,
            }),
            g.bullets@.len() == 0,
            g.enemies@.len() == 0,
            g.score.score == 0 && g.score.high_score == 0,
            g.bullet_cooldown_timer == BULLET_COOLDOWN_TIME,
            g.enemy_spawn_timer == ENEMY_SPAWN_TIME,
    {
        Game {
            state: GameState::Menu,
            player: Player::new(screen_h),
            bullets: Vec::new(),
            enemies: Vec::new(),
            score: Score::new(),
            bullet_cooldown_timer: BULLET_COOLDOWN_TIME,
            enemy_spawn_timer: ENEMY_SPAWN_TIME,
        }
    }
}

/// A frame-count timer ticks down once per frame until it reaches zero.
pub open spec fn tick_timer(t: int) -> int {
    if t > 0 { t - 1 } else { t }
}

/// The fire action happens when the intent is held, the cooldown has just
/// reached zero and the fire gate is open.
pub open spec fn fire_happens(g: Game, ctx: FrameCtx) -> bool {
    ctx.fire_held && tick_timer(g.bullet_cooldown_timer as int) == 0 && g.player.can_shoot
}

/// A new bullet starts at the player's center.
pub open spec fn spawned_bullet(p: Player) -> Bullet {
    Bullet {
        rect: Rect {
            x: (p.rect.x + p.rect.w / 2) as i64,
            y: (p.rect.y + p.rect.h / 2) as i64,
            w: BULLET_SIZE,
            h: BULLET_SIZE,
        },
    }
}

/// The bullet collection after the fire phase, before anything moves.
pub open spec fn bullets_mid(g: Game, ctx: FrameCtx) -> Seq<Bullet> {
    if fire_happens(g, ctx) {
        g.bullets@.push(spawned_bullet(g.player))
    } else {
        g.bullets@
    }
}

pub open spec fn cooldown_after(g: Game, ctx: FrameCtx) -> int {
    if fire_happens(g, ctx) {
        BULLET_COOLDOWN_TIME as int
    } else {
        tick_timer(g.bullet_cooldown_timer as int)
    }
}

/// The fire gate after the frame: closed by a shot, reopened by a release,
/// and a release in the same frame wins.
pub open spec fn can_shoot_after(g: Game, ctx: FrameCtx) -> bool {
    if ctx.fire_released {
        true
    } else if fire_happens(g, ctx) {
        false
    } else {
        g.player.can_shoot
    }
}

/// An enemy spawns the frame the spawn timer ticks down to zero.
pub open spec fn spawn_happens(g: Game) -> bool {
    tick_timer(g.enemy_spawn_timer as int) <= 0
}

/// A new enemy starts at the right edge, at the frame's vertical offset.
pub open spec fn spawned_enemy(ctx: FrameCtx, spawn_y: i64) -> Enemy {
    Enemy {
        rect: Rect { x: ctx.screen_w, y: spawn_y, w: ENEMY_SIZE, h: ENEMY_SIZE },
        is_alive: true,
        has_given_points: false,
    }
}

/// The enemy collection after the spawn phase, before the collision pass.
pub open spec fn enemies_mid(g: Game, ctx: FrameCtx, spawn_y: i64) -> Seq<Enemy> {
    if spawn_happens(g) {
        g.enemies@.push(spawned_enemy(ctx, spawn_y))
    } else {
        g.enemies@
    }
}

pub open spec fn spawn_timer_after(g: Game) -> int {
    if spawn_happens(g) {
        ENEMY_SPAWN_TIME as int
    } else {
        tick_timer(g.enemy_spawn_timer as int)
    }
}

/// Every bullet, the one just fired included, after this frame's flight.
pub open spec fn bullets_after(g: Game, ctx: FrameCtx) -> Seq<Bullet> {
    bullets_mid(g, ctx).map_values(|b: Bullet| bullet_moved(b, ctx.dt as int))
}

/// Every enemy after this frame: volley first, then movement.
pub open spec fn enemies_after(g: Game, ctx: FrameCtx, spawn_y: i64) -> Seq<Enemy> {
    enemies_mid(g, ctx, spawn_y).map_values(
        |e: Enemy| enemy_frame(e, bullets_after(g, ctx), ctx.dt as int),
    )
}

/// Points this frame's volley scores over the whole enemy collection.
pub open spec fn points_scored(g: Game, ctx: FrameCtx, spawn_y: i64) -> int {
    count_points(enemies_mid(g, ctx, spawn_y), bullets_after(g, ctx))
}

/// An enemy ends the round when it has escaped past the left edge by the
/// player's width, or touches the player.
pub open spec fn enemy_triggers(e: Enemy, p: Player) -> bool {
    e.rect.x < 0 - p.rect.w || rect_overlap(p.rect, e.rect)
}

/// The round ends when some enemy, in its end-of-frame position, triggers.
pub open spec fn round_ends(g: Game, ctx: FrameCtx, spawn_y: i64) -> bool {
    exists|k: int| 0 <= k < enemies_mid(g, ctx, spawn_y).len()
        && enemy_triggers(
            #[trigger] enemy_frame(enemies_mid(g, ctx, spawn_y)[k], bullets_after(g, ctx), ctx.dt as int),
            g.player,
        )
}

/// The player after the frame: the fire-gate outcome, then one step of
/// motion against the pre-update box the collision pass also used.
pub open spec fn player_after(g: Game, ctx: FrameCtx) -> Player {
    player_step(
        Player { rect: g.player.rect, can_shoot: can_shoot_after(g, ctx) },
        ctx.move_up,
        ctx.move_down,
        ctx.dt as int,
        ctx.screen_h as int,
    )
}

pub open spec fn bullet_draws(bs: Seq<Bullet>) -> Seq<DrawCmd> {
    bs.map_values(|b: Bullet| bullet_cmd(b))
}

/// Enemies are drawn in collection order, after the volley but before
/// they move; a dead enemy is skipped.
pub open spec fn enemy_draws(es: Seq<Enemy>, bullets: Seq<Bullet>) -> Seq<DrawCmd>
    decreases es.len(),
{
    if es.len() == 0 {
        Seq::empty()
    } else {
        enemy_draws(es.drop_last(), bullets)
            + if enemy_after_hit(es.last(), bullets).is_alive {
                seq![enemy_cmd(enemy_after_hit(es.last(), bullets))]
            } else {
                Seq::empty()
            }
    }
}

/// The draw stream of a Playing frame: bullets at their pre-flight
/// positions, then live enemies before they move, then the player after
/// its update.
pub open spec fn playing_draws(g: Game, ctx: FrameCtx, spawn_y: i64) -> Seq<DrawCmd> {
    bullet_draws(bullets_mid(g, ctx))
        + enemy_draws(enemies_mid(g, ctx, spawn_y), bullets_after(g, ctx))
        + seq![player_cmd(player_after(g, ctx))]
}

/// Everything one Playing frame does to the session.
pub open spec fn playing_post(
    pre: Game,
    post: Game,
    ctx: FrameCtx,
    spawn_y: i64,
    draws: Seq<DrawCmd>,
) -> bool {
    &&& post.state == (if round_ends(pre, ctx, spawn_y) {
        GameState::GameOver
    } else {
        GameState::Playing
    })
    &&& post.player == player_after(pre, ctx)
    &&& post.bullets@ == bullets_after(pre, ctx)
    &&& post.enemies@ == enemies_after(pre, ctx, spawn_y)
    &&& post.score.score as int == pre.score.score + points_scored(pre, ctx, spawn_y)
    &&& post.score.high_score as int == max(
        pre.score.high_score as int,
        pre.score.score + points_scored(pre, ctx, spawn_y),
    )
    &&& post.bullet_cooldown_timer as int == cooldown_after(pre, ctx)
    &&& post.enemy_spawn_timer as int == spawn_timer_after(pre)
    &&& draws == playing_draws(pre, ctx, spawn_y)
}

/// A Menu frame only waits for the confirm intent; nothing updates and
/// only the player is drawn.
pub open spec fn menu_post(pre: Game, post: Game, ctx: FrameCtx, draws: Seq<DrawCmd>) -> bool {
    &&& post.state == (if ctx.confirm_held { GameState::Playing } else { GameState::Menu })
    &&& post.player == pre.player
    &&& post.bullets@ == pre.bullets@
    &&& post.enemies@ == pre.enemies@
    &&& post.score == pre.score
    &&& post.bullet_cooldown_timer == pre.bullet_cooldown_timer
    &&& post.enemy_spawn_timer == pre.enemy_spawn_timer
    &&& draws == seq![player_cmd(pre.player)]
}

/// A GameOver frame clears both collections, resets the player and the
/// timers every frame, and on the confirm intent folds the score into the
/// high score and returns to Playing.
pub open spec fn game_over_post(pre: Game, post: Game, ctx: FrameCtx, draws: Seq<DrawCmd>) -> bool {
    &&& post.state == (if ctx.confirm_held { GameState::Playing } else { GameState::GameOver })
    &&& post.player == player_reset(pre.player, ctx.screen_h as int)
    &&& post.bullets@.len() == 0
    &&& post.enemies@.len() == 0
    &&& post.score@ == (if ctx.confirm_held {
        score_op_step(pre.score@, ScoreOp::Reset)
    } else {
        pre.score@
    })
    &&& post.bullet_cooldown_timer == BULLET_COOLDOWN_TIME
    &&& post.enemy_spawn_timer == ENEMY_SPAWN_TIME
    &&& draws == seq![player_cmd(player_reset(pre.player, ctx.screen_h as int))]
}

/// One whole frame: the quit intent, checked first, freezes the session;
/// otherwise the current state's logic runs.
pub open spec fn frame_post(
    pre: Game,
    post: Game,
    ctx: FrameCtx,
    spawn_y: i64,
    quit: bool,
    draws: Seq<DrawCmd>,
) -> bool {
    &&& quit == ctx.quit_held
    &&& if ctx.quit_held {
        post == pre && draws.len() == 0
    } else {
        match pre.state {
            GameState::Menu => menu_post(pre, post, ctx, draws),
            GameState::Playing => playing_post(pre, post, ctx, spawn_y, draws),
            GameState::GameOver => game_over_post(pre, post, ctx, draws),
        }
    }
}

impl Game {
    /// The input phase of a Playing frame: tick the fire cooldown and fire
    /// if the action lands, apply the fire-gate release, tick the spawn
    /// timer and spawn an enemy if it ran out.
    #[verifier::loop_isolation(false)]
    pub fn fire_and_spawn(&mut self, ctx: &FrameCtx, spawn_y: i64)
        requires
            old(self).wf(),
            coord_ok(old(self).player.rect.y as int),
        ensures
            final(self).bullets@ == bullets_mid(*old(self), *ctx),
            final(self).enemies@ == enemies_mid(*old(self), *ctx, spawn_y),
            final(self).bullet_cooldown_timer as int == cooldown_after(*old(self), *ctx),
            final(self).enemy_spawn_timer as int == spawn_timer_after(*old(self)),
            final(self).player.can_shoot == can_shoot_after(*old(self), *ctx),
            final(self).player.rect == old(self).player.rect,
            final(self).score == old(self).score,
            final(self).state == old(self).state,
    {
        let ghost pre = *old(self);
        if self.bullet_cooldown_timer > 0 {
            self.bullet_cooldown_timer = self.bullet_cooldown_timer - 1;
        }
        if ctx.fire_held {
            if self.bullet_cooldown_timer == 0 && self.player.can_shoot {
                let bx: i64 = self.player.rect.x + (((self.player.rect.w as u64) / 2) as i64);
                let by: i64 = self.player.rect.y + (((self.player.rect.h as u64) / 2) as i64);
                self.bullets.push(Bullet::new(bx, by));
                self.bullet_cooldown_timer = BULLET_COOLDOWN_TIME;
                self.player.can_shoot = false;
            }
        }
        if ctx.fire_released {
            self.player.can_shoot = true;
        }
        proof {
            assert(self.bullets@ =~= bullets_mid(pre, *ctx));
        }

        if self.enemy_spawn_timer > 0 {
            self.enemy_spawn_timer = self.enemy_spawn_timer - 1;
        }
        if self.enemy_spawn_timer <= 0 {
            self.enemies.push(Enemy::new(ctx.screen_w, spawn_y));
            self.enemy_spawn_timer = ENEMY_SPAWN_TIME;
        }
        proof {
            assert(self.enemies@ =~= enemies_mid(pre, *ctx, spawn_y));
        }
    }

    /// Draw every bullet where it is, then advance it; the bullet fired
    /// this frame flies with the rest.
    #[verifier::loop_isolation(false)]
    pub fn advance_bullets(&mut self, dt: i64) -> (cmds: Vec<DrawCmd>)
        requires
            0 <= dt <= DT_LIMIT,
            forall|k: int| 0 <= k < old(self).bullets@.len()
                ==> coord_ok((#[trigger] old(self).bullets@[k]).rect.x as int),
        ensures
            final(self).bullets@ == old(self).bullets@.map_values(
                |b: Bullet| bullet_moved(b, dt as int)),
            cmds@ == bullet_draws(old(self).bullets@),
            final(self).enemies@ == old(self).enemies@,
            final(self).player == old(self).player,
            final(self).score == old(self).score,
            final(self).state == old(self).state,
            final(self).bullet_cooldown_timer == old(self).bullet_cooldown_timer,
            final(self).enemy_spawn_timer == old(self).enemy_spawn_timer,
    {
        let ghost bmid = self.bullets@;
        let mut cmds: Vec<DrawCmd> = Vec::new();
        let mut new_bullets: Vec<Bullet> = Vec::new();
        let mut i: usize = 0;
        while i < self.bullets.len()
            invariant
                i <= bmid.len(),
                self.bullets@ == bmid,
                new_bullets@.len() == i as int,
                cmds@.len() == i as int,
                forall|k: int| 0 <= k < i
                    ==> #[trigger] new_bullets@[k] == bullet_moved(bmid[k], dt as int),
                forall|k: int| 0 <= k < i ==> #[trigger] cmds@[k] == bullet_cmd(bmid[k]),
            decreases bmid.len() - i,
        {
            let mut b = self.bullets[i];
            cmds.push(b.draw());
            b.update(dt);
            new_bullets.push(b);
            i = i + 1;
        }
        self.bullets = new_bullets;
        proof {
            assert(self.bullets@ =~= bmid.map_values(|b: Bullet| bullet_moved(b, dt as int)));
            assert(cmds@ =~= bullet_draws(bmid));
        }
        cmds
    }

    /// The enemy pass, in collection order: every bullet is tested against
    /// the enemy — a hit kills it and, while the latch is open, scores one
    /// point — then a live enemy is drawn, the enemy advances, and the
    /// round ends if it has escaped left or touches the player.
    #[verifier::loop_isolation(false)]
    #[verifier::rlimit(100)]
    pub fn enemy_pass(&mut self, dt: i64) -> (r: (bool, Vec<DrawCmd>))
        requires
            0 <= dt <= DT_LIMIT,
            forall|k: int| 0 <= k < old(self).enemies@.len()
                ==> coord_ok((#[trigger] old(self).enemies@[k]).rect.x as int)
                    && coord_ok(old(self).enemies@[k].rect.y as int)
                    && old(self).enemies@[k].rect.w == ENEMY_SIZE
                    && old(self).enemies@[k].rect.h == ENEMY_SIZE,
            forall|k: int| 0 <= k < old(self).bullets@.len()
                ==> rect_sums_fit((#[trigger] old(self).bullets@[k]).rect),
            rect_sums_fit(old(self).player.rect),
            0 <= old(self).player.rect.w,
            old(self).score.wf(),
            old(self).score.score + old(self).enemies@.len() <= i32::MAX,
        ensures
            final(self).enemies@ == old(self).enemies@.map_values(
                |e: Enemy| enemy_frame(e, old(self).bullets@, dt as int)),
            final(self).score.score as int == old(self).score.score
                + count_points(old(self).enemies@, old(self).bullets@),
            final(self).score.high_score as int == max(
                old(self).score.high_score as int,
                old(self).score.score + count_points(old(self).enemies@, old(self).bullets@),
            ),
            final(self).score.wf(),
            r.0 == exists|k: int| 0 <= k < old(self).enemies@.len()
                && enemy_triggers(
                    #[trigger] enemy_frame(old(self).enemies@[k], old(self).bullets@, dt as int),
                    old(self).player,
                ),
            r.1@ == enemy_draws(old(self).enemies@, old(self).bullets@),
            final(self).bullets@ == old(self).bullets@,
            final(self).player == old(self).player,
            final(self).state == old(self).state,
            final(self).bullet_cooldown_timer == old(self).bullet_cooldown_timer,
            final(self).enemy_spawn_timer == old(self).enemy_spawn_timer,
    {
        let ghost pre = *old(self);
        let ghost bs = self.bullets@;
        let ghost es = self.enemies@;
        let mut cmds: Vec<DrawCmd> = Vec::new();
        let mut new_enemies: Vec<Enemy> = Vec::new();
        let mut round_over = false;
        let mut i: usize = 0;
        while i < self.enemies.len()
            invariant
                i <= es.len(),
                self.bullets@ == bs,
                self.enemies@ == es,
                self.player == pre.player,
                self.bullet_cooldown_timer == pre.bullet_cooldown_timer,
                self.enemy_spawn_timer == pre.enemy_spawn_timer,
                self.state == pre.state,
                new_enemies@.len() == i as int,
                forall|k: int| 0 <= k < i
                    ==> #[trigger] new_enemies@[k] == enemy_frame(es[k], bs, dt as int),
                self.score.score as int
                    == pre.score.score + count_points(es.take(i as int), bs),
                self.score.high_score as int == max(
                    pre.score.high_score as int,
                    pre.score.score + count_points(es.take(i as int), bs),
                ),
                self.score.wf(),
                round_over == exists|k: int| 0 <= k < i
                    && enemy_triggers(#[trigger] enemy_frame(es[k], bs, dt as int), pre.player),
                cmds@ == enemy_draws(es.take(i as int), bs),
            decreases es.len() - i,
        {
            let ghost cnt_i = count_points(es.take(i as int), bs);
            let mut e = self.enemies[i];
            let ghost e0 = es[i as int];
            proof {
                lemma_count_points_bounds(es.take(i as int), bs);
            }

            // The volley: any overlapping bullet kills; the latch pays once.
            let mut j: usize = 0;
            while j < self.bullets.len()
                invariant
                    j <= bs.len(),
                    self.bullets@ == bs,
                    self.enemies@ == es,
                    self.player == pre.player,
                    self.bullet_cooldown_timer == pre.bullet_cooldown_timer,
                    self.enemy_spawn_timer == pre.enemy_spawn_timer,
                    self.state == pre.state,
                    e.rect == e0.rect,
                    e.is_alive == (e0.is_alive && !exists|k: int| 0 <= k < j
                        && rect_overlap((#[trigger] bs[k]).rect, e0.rect)),
                    e.has_given_points == (e0.has_given_points || exists|k: int| 0 <= k < j
                        && rect_overlap((#[trigger] bs[k]).rect, e0.rect)),
                    self.score.score as int == pre.score.score + cnt_i
                        + if e.has_given_points && !e0.has_given_points { 1int } else { 0int },
                    self.score.high_score as int == max(
                        pre.score.high_score as int,
                        pre.score.score + cnt_i
                            + if e.has_given_points && !e0.has_given_points { 1int } else { 0int },
                    ),
                    self.score.wf(),
                decreases bs.len() - j,
            {
                let b = self.bullets[j];
                if is_collision(&b.rect, &e.rect) {
                    e.is_alive = false;
                    if !e.has_given_points {
                        proof {
                            assert(cnt_i <= i as int);
                        }
                        self.score.increment();
                        e.has_given_points = true;
                    }
                }
                j = j + 1;
            }
            proof {
                assert(e == enemy_after_hit(e0, bs));
            }

            // Draw a live enemy where it is, then advance it.
            if let Some(cmd) = e.draw() {
                cmds.push(cmd);
            }
            e.update(dt);
            proof {
                assert(e == enemy_frame(e0, bs, dt as int));
            }

            // The round ends when this enemy escaped left or touches the player.
            let pw: i64 = self.player.rect.w;
            if e.rect.x < 0 - pw || is_collision(&self.player.rect, &e.rect) {
                round_over = true;
            }

            new_enemies.push(e);
            proof {
                assert(es.take(i + 1 as int).drop_last() =~= es.take(i as int));
                assert(es.take(i + 1 as int).last() == e0);
                assert(cmds@ =~= enemy_draws(es.take(i + 1 as int), bs));
            }
            i = i + 1;
        }
        self.enemies = new_enemies;
        proof {
            assert(es.take(es.len() as int) =~= es);
            assert(self.enemies@ =~= es.map_values(|e: Enemy| enemy_frame(e, bs, dt as int)));
        }
        (round_over, cmds)
    }

    /// One Playing frame, with the spawn offset this frame would use if
    /// the spawn timer runs out. The fixed order is: fire cooldown and
    /// fire action, fire-gate release, spawn timer and enemy spawn, bullet
    /// draw-and-move, the enemy pass, and last the player's own move.
    #[verifier::loop_isolation(false)]
    #[verifier::rlimit(100)]
    pub fn playing_frame(&mut self, ctx: &FrameCtx, spawn_y: i64) -> (draws: Vec<DrawCmd>)
        requires
            old(self).wf(),
            old(self).in_bounds(),
            ctx.valid(),
            coord_ok(spawn_y as int),
        ensures
            final(self).wf(),
            playing_post(*old(self), *final(self), *ctx, spawn_y, draws@),
    {
        let ghost pre = *old(self);
        let ghost c = *ctx;

        self.fire_and_spawn(ctx, spawn_y);
        let ghost bmid = self.bullets@;
        let ghost emid = self.enemies@;
        proof {
            assert(forall|k: int| 0 <= k < bmid.len()
                ==> coord_ok((#[trigger] bmid[k]).rect.x as int)
                    && -COORD_LIMIT <= bmid[k].rect.y <= COORD_LIMIT + PLAYER_H
                    && bmid[k].rect.w == BULLET_SIZE && bmid[k].rect.h == BULLET_SIZE);
            assert(forall|k: int| 0 <= k < emid.len()
                ==> coord_ok((#[trigger] emid[k]).rect.x as int)
                    && coord_ok(emid[k].rect.y as int)
                    && emid[k].rect.w == ENEMY_SIZE && emid[k].rect.h == ENEMY_SIZE);
            crate::lemma_travel_bounds(c.dt as int, crate::bullet::BULLET_SPEED as int);
        }

        let mut draws = self.advance_bullets(ctx.dt);
        let ghost bfin = self.bullets@;
        proof {
            assert(bfin =~= bullets_after(pre, c));
            assert(forall|k: int| 0 <= k < bfin.len()
                ==> rect_sums_fit((#[trigger] bfin[k]).rect));
        }

        let (round_over, mut ecmds) = self.enemy_pass(ctx.dt);
        draws.append(&mut ecmds);

        proof {
            assert(self.player == (Player {
                rect: pre.player.rect,
                can_shoot: can_shoot_after(pre, c),
            }));
        }
        self.player.update(ctx.move_up, ctx.move_down, ctx.dt, ctx.screen_h);
        draws.push(self.player.draw());
        proof {
            assert(round_over == round_ends(pre, c, spawn_y));
            assert(draws@ =~= playing_draws(pre, c, spawn_y));
        }

        if round_over {
            self.state = GameState::GameOver;
        } else {
            self.state = GameState::Playing;
        }
        draws
    }

    /// One whole frame with the spawn offset given by the caller: the quit
    /// intent freezes everything, otherwise the current state's logic runs.
    pub fn frame_with_spawn(&mut self, ctx: &FrameCtx, spawn_y: i64) -> (r: (bool, Vec<DrawCmd>))
        requires
            old(self).wf(),
            old(self).in_bounds(),
            ctx.valid(),
            coord_ok(spawn_y as int),
        ensures
            final(self).wf(),
            frame_post(*old(self), *final(self), *ctx, spawn_y, r.0, r.1@),
    {
        let ghost pre = *old(self);
        if ctx.quit_held {
            return (true, Vec::new());
        }
        match self.state {
            GameState::Menu => {
                if ctx.confirm_held {
                    self.state = GameState::Playing;
                }
                let mut draws: Vec<DrawCmd> = Vec::new();
                draws.push(self.player.draw());
                proof {
                    assert(draws@ =~= seq![player_cmd(pre.player)]);
                }
                (false, draws)
            },
            GameState::Playing => {
                let draws = self.playing_frame(ctx, spawn_y);
                (false, draws)
            },
            GameState::GameOver => {
                if ctx.confirm_held {
                    self.state = GameState::Playing;
                    self.score.reset();
                }
                self.player.reset(ctx.screen_h);
                self.bullets = Vec::new();
                self.enemies = Vec::new();
                self.enemy_spawn_timer = ENEMY_SPAWN_TIME;
                self.bullet_cooldown_timer = BULLET_COOLDOWN_TIME;
                let mut draws: Vec<DrawCmd> = Vec::new();
                draws.push(self.player.draw());
                proof {
                    assert(draws@ =~= seq![
                        player_cmd(player_reset(pre.player, ctx.screen_h as int)),
                    ]);
                }
                (false, draws)
            },
        }
    }

    /// One whole frame; when the spawn timer runs out this frame, the new
    /// enemy's vertical offset is drawn uniformly from the spawn band.
    pub fn frame(&mut self, ctx: &FrameCtx) -> (r: (bool, Vec<DrawCmd>))
        requires
            old(self).wf(),
            old(self).in_bounds(),
            ctx.valid(),
        ensures
            final(self).wf(),
            r.0 == ctx.quit_held,
            exists|sy: i64| SPAWN_MARGIN <= sy <= ctx.screen_h - SPAWN_MARGIN
                && #[trigger] frame_post(*old(self), *final(self), *ctx, sy, r.0, r.1@),
    {
        let sy = random_in_range(SPAWN_MARGIN, ctx.screen_h - SPAWN_MARGIN);
        self.frame_with_spawn(ctx, sy)
    }

    /// Runtime test of the frame preconditions, for callers outside
    /// verified code: the structural invariant, the coordinate bounds and
    /// the frame context's own bounds.
    #[verifier::loop_isolation(false)]
    pub fn check_ready(&self, ctx: &FrameCtx) -> (ok: bool)
        ensures
            ok == (self.wf() && self.in_bounds() && ctx.valid()),
    {
        if !(self.player.rect.x == 0 && self.player.rect.w == PLAYER_W
            && self.player.rect.h == PLAYER_H) {
            return false;
        }
        if !(0 <= self.bullet_cooldown_timer
            && self.bullet_cooldown_timer <= BULLET_COOLDOWN_TIME) {
            return false;
        }
        if !(0 <= self.enemy_spawn_timer && self.enemy_spawn_timer <= ENEMY_SPAWN_TIME) {
            return false;
        }
        if !(0 <= self.score.score && self.score.score <= self.score.high_score) {
            return false;
        }
        if !(-COORD_LIMIT <= self.player.rect.y && self.player.rect.y <= COORD_LIMIT) {
            return false;
        }
        if !((self.score.score as i128) + (self.enemies.len() as i128) < (i32::MAX as i128)) {
            return false;
        }
        if !ctx.check_valid() {
            return false;
        }
        let mut i: usize = 0;
        while i < self.bullets.len()
            invariant
                i <= self.bullets@.len(),
                forall|k: int| 0 <= k < i
                    ==> ((#[trigger] self.bullets@[k]).rect.w == BULLET_SIZE
                        && self.bullets@[k].rect.h == BULLET_SIZE
                        && coord_ok(self.bullets@[k].rect.x as int)
                        && coord_ok(self.bullets@[k].rect.y as int)),
            decreases self.bullets@.len() - i,
        {
            let b = self.bullets[i];
            if !(b.rect.w == BULLET_SIZE && b.rect.h == BULLET_SIZE
                && -COORD_LIMIT <= b.rect.x && b.rect.x <= COORD_LIMIT
                && -COORD_LIMIT <= b.rect.y && b.rect.y <= COORD_LIMIT) {
                return false;
            }
            i = i + 1;
        }
        let mut i: usize = 0;
        while i < self.enemies.len()
            invariant
                i <= self.enemies@.len(),
                forall|k: int| 0 <= k < i
                    ==> ((#[trigger] self.enemies@[k]).rect.w == ENEMY_SIZE
                        && self.enemies@[k].rect.h == ENEMY_SIZE
                        && coord_ok(self.enemies@[k].rect.x as int)
                        && coord_ok(self.enemies@[k].rect.y as int)),
            decreases self.enemies@.len() - i,
        {
            let e = self.enemies[i];
            if !(e.rect.w == ENEMY_SIZE && e.rect.h == ENEMY_SIZE
                && -COORD_LIMIT <= e.rect.x && e.rect.x <= COORD_LIMIT
                && -COORD_LIMIT <= e.rect.y && e.rect.y <= COORD_LIMIT) {
                return false;
            }
            i = i + 1;
        }
        true
    }
}

/// Relies on rand's `Rng::gen_range` over the inclusive range `lo..=hi`:
/// the sample always lies inside the range, and a non-empty range cannot
/// make the call panic.
#[verifier::external_body]
fn random_in_range(lo: i64, hi: i64) -> (r: i64)
    requires
        lo <= hi,
    ensures
        lo <= r <= hi,
{
    rand::Rng::gen_range(&mut rand::thread_rng(), lo..=hi)
}

/// Every frame that moves or resets the player leaves it fully on the
/// screen: after a Playing or GameOver frame,
/// `0 <= player.y <= screen_h - PLAYER_H`.
pub proof fn lemma_frame_keeps_player_on_screen(
    pre: Game,
    post: Game,
    ctx: FrameCtx,
    spawn_y: i64,
    quit: bool,
    draws: Seq<DrawCmd>,
)
    requires
        pre.wf(),
        coord_ok(pre.player.rect.y as int),
        ctx.valid(),
        !ctx.quit_held,
        pre.state == GameState::Playing || pre.state == GameState::GameOver,
        frame_post(pre, post, ctx, spawn_y, quit, draws),
    ensures
        0 <= post.player.rect.y,
        post.player.rect.y + PLAYER_H <= ctx.screen_h,
{
    if pre.state == GameState::Playing {
        let moved = Player { rect: pre.player.rect, can_shoot: can_shoot_after(pre, ctx) };
        lemma_player_step_in_bounds(
            moved,
            ctx.move_up,
            ctx.move_down,
            ctx.dt as int,
            ctx.screen_h as int,
        );
    }
}

/// Restarting out of GameOver with the confirm intent returns to Playing
/// with the score zeroed, the high score preserved, both collections empty
/// and the player back at its initial vertical offset.
pub proof fn lemma_restart_round_trip(
    pre: Game,
    post: Game,
    ctx: FrameCtx,
    spawn_y: i64,
    quit: bool,
    draws: Seq<DrawCmd>,
)
    requires
        pre.wf(),
        pre.state == GameState::GameOver,
        ctx.confirm_held,
        !ctx.quit_held,
        frame_post(pre, post, ctx, spawn_y, quit, draws),
    ensures
        post.state == GameState::Playing,
        post.score.score == 0,
        post.score.high_score == pre.score.high_score,
        post.bullets@.len() == 0,
        post.enemies@.len() == 0,
        post.player.rect.y as int == initial_y(ctx.screen_h as int),
        post.player.can_shoot,
{
}

} // verus!
