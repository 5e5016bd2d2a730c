//! Collision resolution, the explosion lifecycle, and end-to-end scenarios.

use invaders_core::collision::enemy_laser_hit_player;
use invaders_core::collision::player_laser_hit_enemy;
use invaders_core::enemy::EnemyPlugin;
use invaders_core::explosion::animate_explosion;
use invaders_core::explosion::explosion_to_spawn;
use invaders_core::player::laser_movement;
use invaders_core::player::player_fire;
use invaders_core::player::player_spawn;
use invaders_core::sim::InputState;
use invaders_core::sim::tick;
use invaders_core::texture::Size;
use invaders_core::texture::get_size;
use invaders_core::world::Actor;
use invaders_core::world::Config;
use invaders_core::world::Materials;
use invaders_core::world::Origin;
use invaders_core::world::Projectile;
use invaders_core::world::World;

fn cfg(unit: i64) -> Config {
    Config {
        half_w: 320 * unit,
        half_h: 400 * unit,
        margin: 100 * unit,
        dt_num: 1,
        dt_den: 60,
        scale: 500,
        speed: 500 * unit,
        fire_x_offset: 31 * unit,
        fire_y_offset: 15 * unit,
        enemy_fire_y_offset: 15 * unit,
        player_y_offset: 50 * unit,
        enemy_cap: 1,
        enemy_spawn_period: 1000,
        enemy_fire_period: 900,
        explosion_period: 50,
        respawn_delay: 2000,
        materials: Materials {
            player: Some(Size { w: 50 * unit, h: 50 * unit }),
            player_laser: Some(Size { w: 50 * unit, h: 50 * unit }),
            enemy: Some(Size { w: 50 * unit, h: 50 * unit }),
            enemy_laser: Some(Size { w: 50 * unit, h: 50 * unit }),
            explosion_frames: 16,
        },
    }
}

fn enemy_at(x: i64, y: i64, c: &Config) -> Actor {
    Actor {
        x,
        y,
        z: 10,
        scale_x: c.scale,
        scale_y: c.scale,
        asset: c.materials.enemy,
        speed: c.speed,
    }
}

fn laser_at(x: i64, y: i64, origin: Origin, c: &Config) -> Projectile {
    Projectile {
        x,
        y,
        z: 0,
        scale_x: c.scale,
        scale_y: if matches!(origin, Origin::FromEnemy) { -c.scale } else { c.scale },
        asset: c.materials.player_laser,
        speed: c.speed,
        origin,
    }
}

#[test]
fn footprint_defaults_to_unit_square() {
    let s = get_size(None);
    assert_eq!((s.w, s.h), (1, 1));
    let s = get_size(Some(Size { w: 93, h: 84 }));
    assert_eq!((s.w, s.h), (93, 84));
}

#[test]
fn hit_resolution_removes_enemy_shot_and_counter() {
    // The enemy's 50x50 footprint scaled by 0.5 gives a 25x25 box at the
    // origin; a shot with the same box centered there overlaps it.
    let c = cfg(1);
    let mut w = World::new(c);
    w.enemies.push(enemy_at(0, 0, &c));
    w.active_enemies = 1;
    w.projectiles.push(laser_at(0, 0, Origin::FromPlayer, &c));
    player_laser_hit_enemy(&mut w);
    assert_eq!(w.enemies.len(), 0);
    assert_eq!(w.active_enemies, 0);
    assert_eq!(w.projectiles.len(), 0);
    assert_eq!(w.effects.len(), 1);
    assert_eq!((w.effects[0].x, w.effects[0].y), (0, 0));
}

#[test]
fn boxes_touching_edge_to_edge_do_not_collide() {
    // Effective boxes are 25 wide: centers 25 apart touch but do not
    // overlap; centers 24 apart overlap.
    let c = cfg(1);
    let mut w = World::new(c);
    w.enemies.push(enemy_at(0, 0, &c));
    w.active_enemies = 1;
    w.projectiles.push(laser_at(25, 0, Origin::FromPlayer, &c));
    player_laser_hit_enemy(&mut w);
    assert_eq!(w.enemies.len(), 1);
    assert_eq!(w.projectiles.len(), 1);
    w.projectiles[0].x = 24;
    player_laser_hit_enemy(&mut w);
    assert_eq!(w.enemies.len(), 0);
    assert_eq!(w.projectiles.len(), 0);
}

#[test]
fn collision_dedup_two_shots_one_kill() {
    // Two simultaneous overlapping shots: one enemy destroy, one effect,
    // both shots removed, the counter falls by exactly one.
    let c = cfg(1);
    let mut w = World::new(c);
    w.enemies.push(enemy_at(0, 0, &c));
    w.active_enemies = 1;
    w.projectiles.push(laser_at(0, 0, Origin::FromPlayer, &c));
    w.projectiles.push(laser_at(10, 0, Origin::FromPlayer, &c));
    player_laser_hit_enemy(&mut w);
    assert_eq!(w.enemies.len(), 0);
    assert_eq!(w.active_enemies, 0);
    assert_eq!(w.effects.len(), 1);
    assert_eq!(w.projectiles.len(), 0);
}

#[test]
fn enemy_shot_flip_scale_still_collides() {
    // The downward shot's negative y-scale must not shrink or invert its
    // collision box: |scale| is what counts.
    let c = cfg(1);
    let mut w = World::new(c);
    player_spawn(&mut w);
    let p = *w.player.as_ref().unwrap();
    w.projectiles.push(laser_at(p.x, p.y, Origin::FromEnemy, &c));
    assert!(w.projectiles[0].scale_y < 0);
    enemy_laser_hit_player(&mut w, 7777);
    assert!(w.player.is_none());
    assert!(!w.player_state.on);
    assert_eq!(w.player_state.last_shot, 7777);
    assert_eq!(w.projectiles.len(), 0);
    assert_eq!(w.effects.len(), 1);
    assert_eq!((w.effects[0].x, w.effects[0].y), (p.x, p.y));
    // Respawn is due only once the configured delay has passed.
    assert!(!w.player_state.respawn_due(7777 + 1999, c.respawn_delay));
    assert!(w.player_state.respawn_due(7777 + 2000, c.respawn_delay));
}

#[test]
fn player_shots_ignore_player_and_enemy_shots_ignore_enemies() {
    let c = cfg(1);
    let mut w = World::new(c);
    player_spawn(&mut w);
    let p = *w.player.as_ref().unwrap();
    // A player-origin shot over the player: no friendly fire.
    w.projectiles.push(laser_at(p.x, p.y, Origin::FromPlayer, &c));
    enemy_laser_hit_player(&mut w, 1);
    assert!(w.player.is_some());
    assert_eq!(w.projectiles.len(), 1);
    // An enemy-origin shot over an enemy: no friendly fire either.
    w.projectiles.clear();
    w.enemies.push(enemy_at(0, 0, &c));
    w.active_enemies = 1;
    w.projectiles.push(laser_at(0, 0, Origin::FromEnemy, &c));
    player_laser_hit_enemy(&mut w);
    assert_eq!(w.enemies.len(), 1);
    assert_eq!(w.projectiles.len(), 1);
}

#[test]
fn explosion_spawns_from_effect_and_advances_per_interval() {
    let c = cfg(1);
    let mut w = World::new(c);
    w.enemies.push(enemy_at(3, 4, &c));
    w.active_enemies = 1;
    w.projectiles.push(laser_at(3, 4, Origin::FromPlayer, &c));
    player_laser_hit_enemy(&mut w);
    explosion_to_spawn(&mut w);
    assert_eq!(w.effects.len(), 0);
    assert_eq!(w.explosions.len(), 1);
    assert_eq!((w.explosions[0].x, w.explosions[0].y), (3, 4));
    assert_eq!(w.explosions[0].frame, 0);
    // One frame per 50 ms interval; removed exactly at frame 16,
    // never before.
    for i in 1..16 {
        animate_explosion(&mut w, 50);
        assert_eq!(w.explosions.len(), 1, "gone too early at interval {}", i);
        assert_eq!(w.explosions[0].frame, i);
    }
    animate_explosion(&mut w, 50);
    assert_eq!(w.explosions.len(), 0);
}

#[test]
fn explosion_remainder_time_accumulates() {
    let c = cfg(1);
    let mut w = World::new(c);
    w.effects.push(invaders_core::world::PendingEffect { x: 0, y: 0, z: 0 });
    explosion_to_spawn(&mut w);
    animate_explosion(&mut w, 49);
    assert_eq!(w.explosions[0].frame, 0);
    assert_eq!(w.explosions[0].timer.acc, 49);
    animate_explosion(&mut w, 1);
    assert_eq!(w.explosions[0].frame, 1);
    assert_eq!(w.explosions[0].timer.acc, 0);
    // A large elapsed slice advances several frames at once and retires
    // the entity the moment the final frame is reached.
    animate_explosion(&mut w, 50 * 14);
    assert_eq!(w.explosions[0].frame, 15);
    animate_explosion(&mut w, 50);
    assert_eq!(w.explosions.len(), 0);
}

#[test]
fn scenario_player_volley_crosses_field_and_is_culled() {
    // Field height 800, player at y = -350 fires; the two shots spawn at
    // y = -335, x = +-31 from the player, and are culled one tick after
    // their y-coordinate exceeds 400. In sub-units of 1/60 world unit the
    // step is exactly 500 per tick: gone on tick 89.
    let c = cfg(60);
    let mut w = World::new(c);
    player_spawn(&mut w);
    assert_eq!(w.player.as_ref().unwrap().y, -350 * 60);
    player_fire(&mut w, true, false);
    assert_eq!(w.projectiles.len(), 2);
    assert_eq!(w.projectiles[0].y, -335 * 60);
    assert_eq!(w.projectiles[0].x, 31 * 60);
    assert_eq!(w.projectiles[1].x, -31 * 60);
    for _ in 0..88 {
        laser_movement(&mut w);
    }
    assert_eq!(w.projectiles.len(), 2);
    assert_eq!(w.projectiles[0].y, -20100 + 88 * 500);
    assert!(w.projectiles[0].y <= c.half_h);
    laser_movement(&mut w);
    assert_eq!(w.projectiles.len(), 0);
}

#[test]
fn scenario_overlap_kill_decrements_and_emits_effect() {
    // Enemy at the origin with a 50x50 footprint scaled 0.5; a player shot
    // with a 25x25 box centered at the origin overlaps it: both entities
    // are removed, the counter falls by one, one effect appears at (0,0).
    let c = cfg(1);
    let mut w = World::new(c);
    w.enemies.push(enemy_at(0, 0, &c));
    w.active_enemies = 1;
    w.projectiles.push(laser_at(0, 0, Origin::FromPlayer, &c));
    let before = w.active_enemies;
    player_laser_hit_enemy(&mut w);
    assert_eq!(w.enemies.len(), 0);
    assert_eq!(w.active_enemies, before - 1);
    assert_eq!(w.projectiles.len(), 0);
    assert_eq!(w.effects.len(), 1);
    assert_eq!((w.effects[0].x, w.effects[0].y), (0, 0));
}

#[test]
fn tick_applies_movement_before_collision() {
    // An enemy shot 1900 sub-units above the player overlaps nothing at
    // rest (the boxes close at 1500), but after its 500 sub-unit movement
    // step the gap is 1400: the same tick must resolve the hit, since
    // movement precedes collision.
    let c = cfg(60);
    let mut w = World::new(c);
    player_spawn(&mut w);
    let p = *w.player.as_ref().unwrap();
    w.projectiles.push(laser_at(p.x, p.y + 1900, Origin::FromEnemy, &c));
    let mut plugin = EnemyPlugin::new(&c);
    let idle = InputState { left: false, right: false, fire: false, fire_just_released: false };
    tick(&mut w, &mut plugin, idle, 16, 16);
    assert!(w.player.is_none());
    assert_eq!(w.projectiles.len(), 0);
    assert_eq!(w.explosions.len(), 1);
    assert_eq!((w.explosions[0].x, w.explosions[0].y), (p.x, p.y));
}

#[test]
fn tick_consumes_effects_and_respects_cap() {
    let c = cfg(60);
    let mut w = World::new(c);
    let mut plugin = EnemyPlugin::new(&c);
    player_spawn(&mut w);
    let input = InputState { left: false, right: false, fire: true, fire_just_released: false };
    for i in 0..120 {
        tick(&mut w, &mut plugin, input, 16, 16 * (i + 1));
        assert!(w.active_enemies <= c.enemy_cap);
        assert_eq!(w.effects.len(), 0);
    }
}
