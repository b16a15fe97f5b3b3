use caveth::bullet::Bullet;
use caveth::enemy::Enemy;
use caveth::game::{FrameCtx, Game, GameState};
use caveth::geom::Rect;
use caveth::SpriteId;

fn idle_ctx() -> FrameCtx {
    FrameCtx {
        dt: 0,
        screen_w: 800,
        screen_h: 500,
        move_up: false,
        move_down: false,
        fire_held: false,
        fire_released: false,
        confirm_held: false,
        quit_held: false,
    }
}

fn playing_game() -> Game {
    let mut g = Game::new(500);
    let mut ctx = idle_ctx();
    ctx.confirm_held = true;
    let (quit, _) = g.frame_with_spawn(&ctx, 150);
    assert!(!quit);
    assert_eq!(g.state, GameState::Playing);
    g
}

#[test]
fn fresh_game_starts_in_menu() {
    let g = Game::new(500);
    assert_eq!(g.state, GameState::Menu);
    assert!(g.bullets.is_empty());
    assert!(g.enemies.is_empty());
    assert_eq!((g.score.score, g.score.high_score), (0, 0));
    assert_eq!(g.bullet_cooldown_timer, 5);
    assert_eq!(g.enemy_spawn_timer, 50);
    assert_eq!(g.player.rect, Rect { x: 0, y: 162, w: 80, h: 44 });
    assert!(g.player.can_shoot);
}

#[test]
fn menu_waits_for_confirm() {
    let mut g = Game::new(500);
    let ctx = idle_ctx();
    let (quit, draws) = g.frame_with_spawn(&ctx, 150);
    assert!(!quit);
    assert_eq!(g.state, GameState::Menu);
    // only the player is drawn in the menu
    assert_eq!(draws.len(), 1);
    assert_eq!(draws[0].sprite, SpriteId::PlayerShip);
}

#[test]
fn quit_intent_freezes_the_frame() {
    let mut g = playing_game();
    g.enemies.push(Enemy::new(400, 150));
    let mut ctx = idle_ctx();
    ctx.quit_held = true;
    ctx.fire_held = true;
    let (quit, draws) = g.frame_with_spawn(&ctx, 150);
    assert!(quit);
    assert!(draws.is_empty());
    assert_eq!(g.state, GameState::Playing);
    assert_eq!(g.enemies.len(), 1);
    assert_eq!(g.enemies[0].rect.x, 400);
    assert!(g.bullets.is_empty());
}

#[test]
fn fire_lands_on_the_fifth_frame_of_the_hold() {
    let mut g = playing_game();
    let mut ctx = idle_ctx();
    ctx.fire_held = true;
    // cooldown starts at 5: four frames of holding fire give no bullet
    for frame in 1..=4 {
        g.frame_with_spawn(&ctx, 150);
        assert!(g.bullets.is_empty(), "no bullet may exist after frame {}", frame);
    }
    // the fifth frame fires exactly one bullet, at the player's center
    g.frame_with_spawn(&ctx, 150);
    assert_eq!(g.bullets.len(), 1);
    assert_eq!(g.bullets[0].rect, Rect { x: 40, y: 184, w: 25, h: 25 });
    assert_eq!(g.bullet_cooldown_timer, 5);
    assert!(!g.player.can_shoot);
}

#[test]
fn held_fire_does_not_autofire() {
    let mut g = playing_game();
    let mut ctx = idle_ctx();
    ctx.fire_held = true;
    for _ in 0..20 {
        g.frame_with_spawn(&ctx, 150);
    }
    // a held intent cannot fire a second time: can_shoot stays false
    assert_eq!(g.bullets.len(), 1);
    // release, then hold again: the second shot comes
    let mut release = idle_ctx();
    release.fire_released = true;
    g.frame_with_spawn(&release, 150);
    assert!(g.player.can_shoot);
    g.frame_with_spawn(&ctx, 150);
    assert_eq!(g.bullets.len(), 2);
}

#[test]
fn enemy_spawns_on_the_fiftieth_frame() {
    let mut g = playing_game();
    let ctx = idle_ctx();
    for frame in 1..=49 {
        g.frame_with_spawn(&ctx, 150);
        assert!(g.enemies.is_empty(), "no enemy may exist after frame {}", frame);
    }
    assert_eq!(g.enemy_spawn_timer, 1);
    g.frame_with_spawn(&ctx, 150);
    assert_eq!(g.enemies.len(), 1);
    assert_eq!(g.enemies[0].rect, Rect { x: 800, y: 150, w: 50, h: 50 });
    assert!(g.enemies[0].is_alive);
    // the timer is back at its period right after the spawn
    assert_eq!(g.enemy_spawn_timer, 50);
}

#[test]
fn kill_scores_exactly_once_whatever_the_overlap() {
    let mut g = playing_game();
    // two bullets already overlap the enemy; nothing moves at dt == 0
    g.bullets.push(Bullet::new(210, 210));
    g.bullets.push(Bullet::new(215, 215));
    g.enemies.push(Enemy::new(200, 200));
    let ctx = idle_ctx();
    g.frame_with_spawn(&ctx, 150);
    assert_eq!(g.score.score, 1);
    assert_eq!(g.score.high_score, 1);
    assert_eq!(g.enemies.len(), 1);
    assert!(!g.enemies[0].is_alive);
    assert!(g.enemies[0].has_given_points);
    // the dead enemy still overlaps both bullets next frame: no second point
    g.frame_with_spawn(&ctx, 150);
    g.frame_with_spawn(&ctx, 150);
    assert_eq!(g.score.score, 1);
}

#[test]
fn dead_enemy_stays_in_the_collection_and_still_ends_the_round() {
    let mut g = playing_game();
    g.bullets.push(Bullet::new(210, 210));
    g.enemies.push(Enemy::new(200, 200));
    let ctx = idle_ctx();
    g.frame_with_spawn(&ctx, 150);
    assert_eq!(g.enemies.len(), 1);
    assert!(!g.enemies[0].is_alive);
    assert_eq!(g.state, GameState::Playing);
    // the player moves onto the dead enemy's box: the round still ends
    g.player.rect.y = 200;
    g.enemies[0].rect.x = 60;
    g.frame_with_spawn(&ctx, 150);
    assert_eq!(g.state, GameState::GameOver);
}

#[test]
fn contact_with_player_ends_the_round() {
    let mut g = playing_game();
    g.player.rect.y = 100;
    // prime the spawn timer so the next frame spawns at the right edge
    g.enemy_spawn_timer = 1;
    let ctx = idle_ctx();
    g.frame_with_spawn(&ctx, 100);
    assert_eq!(g.enemies.len(), 1);
    assert_eq!(g.enemies[0].rect, Rect { x: 800, y: 100, w: 50, h: 50 });

    // 100 ms frames at 500 units/s: the enemy advances 50 per frame
    let mut moving = idle_ctx();
    moving.dt = 100;
    let mut frames = 0;
    while g.state == GameState::Playing {
        g.frame_with_spawn(&moving, 100);
        frames += 1;
        assert!(frames < 50, "the round must end");
    }
    // from x == 800 it takes 15 frames to reach x == 50 <= 80: first overlap
    assert_eq!(frames, 15);
    assert_eq!(g.enemies[0].rect.x, 50);

    // a confirm returns to Playing with both collections cleared
    let mut confirm = idle_ctx();
    confirm.confirm_held = true;
    g.frame_with_spawn(&confirm, 100);
    assert_eq!(g.state, GameState::Playing);
    assert!(g.bullets.is_empty());
    assert!(g.enemies.is_empty());
}

#[test]
fn escape_past_the_left_edge_ends_the_round() {
    let mut g = playing_game();
    g.enemies.push(Enemy::new(-30, 400));
    let mut ctx = idle_ctx();
    ctx.dt = 200;
    // 200 ms: the enemy advances 100, to x == -130 < -80
    g.frame_with_spawn(&ctx, 150);
    assert_eq!(g.state, GameState::GameOver);
}

#[test]
fn restart_preserves_high_score_and_recenters_player() {
    let mut g = playing_game();
    g.score.increment();
    g.score.increment();
    g.score.increment();
    g.player.rect.y = 10;
    g.player.can_shoot = false;
    g.bullets.push(Bullet::new(100, 100));
    g.enemies.push(Enemy::new(-200, 100));
    g.state = GameState::GameOver;

    // a GameOver frame without confirm already clears the field
    let ctx = idle_ctx();
    let (_, draws) = g.frame_with_spawn(&ctx, 150);
    assert_eq!(g.state, GameState::GameOver);
    assert!(g.bullets.is_empty());
    assert!(g.enemies.is_empty());
    assert_eq!((g.score.score, g.score.high_score), (3, 3));
    assert_eq!(draws.len(), 1);

    // confirm: back to Playing, score folded and zeroed, player recentered
    let mut confirm = idle_ctx();
    confirm.confirm_held = true;
    g.frame_with_spawn(&confirm, 150);
    assert_eq!(g.state, GameState::Playing);
    assert_eq!((g.score.score, g.score.high_score), (0, 3));
    assert_eq!(g.player.rect.y, 162);
    assert!(g.player.can_shoot);
    assert_eq!(g.bullet_cooldown_timer, 5);
    assert_eq!(g.enemy_spawn_timer, 50);
}

#[test]
fn playing_frame_draw_order_is_bullets_enemies_player() {
    let mut g = playing_game();
    g.bullets.push(Bullet::new(100, 100));
    g.enemies.push(Enemy::new(600, 200));
    g.enemies.push(Enemy::new(700, 300));
    g.enemies[1].is_alive = false;
    let mut ctx = idle_ctx();
    ctx.dt = 16;
    let (_, draws) = g.frame_with_spawn(&ctx, 150);
    // bullet at its pre-flight position, the live enemy pre-advance, the
    // player after its (zero) move; the dead enemy is skipped
    assert_eq!(draws.len(), 3);
    assert_eq!(draws[0].sprite, SpriteId::BulletShot);
    assert_eq!((draws[0].x, draws[0].y), (100, 100));
    assert_eq!(draws[1].sprite, SpriteId::EnemyShip);
    assert_eq!((draws[1].x, draws[1].y), (600, 200));
    assert_eq!(draws[2].sprite, SpriteId::PlayerShip);
    // and the entities did move
    assert_eq!(g.bullets[0].rect.x, 108);
    assert_eq!(g.enemies[0].rect.x, 592);
    assert_eq!(g.enemies[1].rect.x, 700);
}

#[test]
fn bullets_off_screen_are_never_pruned() {
    let mut g = playing_game();
    g.bullets.push(Bullet::new(790, 200));
    let mut ctx = idle_ctx();
    ctx.dt = 1000;
    // 1000 ms at 500 units/s: 500 units per frame, far past the right edge
    for _ in 0..5 {
        g.frame_with_spawn(&ctx, 150);
    }
    assert_eq!(g.bullets.len(), 1);
    assert_eq!(g.bullets[0].rect.x, 790 + 5 * 500);
}

#[test]
fn menu_frames_tick_nothing() {
    let mut g = Game::new(500);
    let ctx = idle_ctx();
    for _ in 0..10 {
        g.frame_with_spawn(&ctx, 150);
    }
    assert_eq!(g.state, GameState::Menu);
    assert_eq!(g.bullet_cooldown_timer, 5);
    assert_eq!(g.enemy_spawn_timer, 50);
    assert!(g.enemies.is_empty());
}

#[test]
fn sub_threshold_time_steps_round_down() {
    let mut g = playing_game();
    g.bullets.push(Bullet::new(100, 100));
    let mut ctx = idle_ctx();
    // 1 ms at 500 units/s covers half a unit: integer units round to zero
    ctx.dt = 1;
    g.frame_with_spawn(&ctx, 150);
    assert_eq!(g.bullets[0].rect.x, 100);
    ctx.dt = 2;
    g.frame_with_spawn(&ctx, 150);
    assert_eq!(g.bullets[0].rect.x, 101);
}

#[test]
fn random_spawn_offset_stays_in_the_band() {
    for _ in 0..20 {
        let mut g = playing_game();
        g.enemy_spawn_timer = 1;
        let ctx = idle_ctx();
        let (quit, _) = g.frame(&ctx);
        assert!(!quit);
        assert_eq!(g.enemies.len(), 1);
        let y = g.enemies[0].rect.y;
        assert!(100 <= y && y <= 400, "spawn offset {} outside the band", y);
        assert_eq!(g.enemies[0].rect.x, 800);
    }
}

#[test]
fn check_ready_accepts_sound_states_and_rejects_others() {
    let g = playing_game();
    let ctx = idle_ctx();
    assert!(g.check_ready(&ctx));

    let mut bad_ctx = idle_ctx();
    bad_ctx.dt = -1;
    assert!(!g.check_ready(&bad_ctx));

    let mut short = idle_ctx();
    short.screen_h = 150;
    assert!(!g.check_ready(&short));

    let mut broken = playing_game();
    broken.bullets.push(Bullet {
        rect: Rect { x: 0, y: 0, w: 30, h: 25 },
    });
    assert!(!broken.check_ready(&ctx));

    let mut skewed = playing_game();
    skewed.score.score = 7;
    skewed.score.high_score = 2;
    assert!(!skewed.check_ready(&ctx));
}
