//! Movement, spawn-rate limiting, fire edge-triggering and timers.

use invaders_core::enemy::EnemyPlugin;
use invaders_core::enemy::enemy_fire;
use invaders_core::enemy::enemy_laser_movement;
use invaders_core::enemy::enemy_spawn;
use invaders_core::player::PlayerPlugin;
use invaders_core::player::laser_movement;
use invaders_core::player::player_fire;
use invaders_core::player::player_movement;
use invaders_core::player::player_spawn;
use invaders_core::texture::Size;
use invaders_core::world::Actor;
use invaders_core::world::Config;
use invaders_core::world::Materials;
use invaders_core::world::Origin;
use invaders_core::world::Projectile;
use invaders_core::world::Timer;
use invaders_core::world::World;
use invaders_core::world::sat_add_i64;

/// A configuration in sub-units of `unit` per world unit, over the
/// reference 640x800 field: speed 500, scale 0.5, margin 100, offsets
/// 31/15/15, player 50 units above the bottom edge.
fn cfg(unit: i64) -> Config {
    Config {
        half_w: 320 * unit,
        half_h: 400 * unit,
        margin: 100 * unit,
        dt_num: 1,
        dt_den: 60,
        scale: 500,
        speed: 500 * unit,
        fire_x_offset: 31 * unit,
        fire_y_offset: 15 * unit,
        enemy_fire_y_offset: 15 * unit,
        player_y_offset: 50 * unit,
        enemy_cap: 1,
        enemy_spawn_period: 1000,
        enemy_fire_period: 900,
        explosion_period: 50,
        respawn_delay: 2000,
        materials: Materials {
            player: Some(Size { w: 50 * unit, h: 50 * unit }),
            player_laser: Some(Size { w: 50 * unit, h: 50 * unit }),
            enemy: Some(Size { w: 50 * unit, h: 50 * unit }),
            enemy_laser: Some(Size { w: 50 * unit, h: 50 * unit }),
            explosion_frames: 16,
        },
    }
}

fn laser(x: i64, y: i64, origin: Origin, c: &Config) -> Projectile {
    Projectile {
        x,
        y,
        z: 0,
        scale_x: c.scale,
        scale_y: c.scale,
        asset: c.materials.player_laser,
        speed: c.speed,
        origin,
    }
}

#[test]
fn movement_advances_by_speed_times_dt() {
    // unit 60: one tick moves a projectile by exactly 500 sub-units.
    let c = cfg(60);
    let mut w = World::new(c);
    w.projectiles.push(laser(7, 1200, Origin::FromPlayer, &c));
    laser_movement(&mut w);
    assert_eq!(w.projectiles.len(), 1);
    assert_eq!(w.projectiles[0].y, 1700);
    assert_eq!(w.projectiles[0].x, 7);

    w.projectiles.push(laser(0, 600, Origin::FromEnemy, &c));
    enemy_laser_movement(&mut w);
    assert_eq!(w.projectiles.len(), 2);
    assert_eq!(w.projectiles[0].y, 1700); // player shot untouched
    assert_eq!(w.projectiles[1].y, 100); // enemy shot moved down
}

#[test]
fn movement_culls_on_either_side_of_bound() {
    // half_h = 24000; step = 500.
    let c = cfg(60);
    let mut w = World::new(c);
    // Ends at exactly the bound: retained.
    w.projectiles.push(laser(0, 23500, Origin::FromPlayer, &c));
    // Ends one past the bound: removed.
    w.projectiles.push(laser(0, 23501, Origin::FromPlayer, &c));
    laser_movement(&mut w);
    assert_eq!(w.projectiles.len(), 1);
    assert_eq!(w.projectiles[0].y, 24000);
}

#[test]
fn enemy_laser_never_culled_by_one_sided_bound() {
    let c = cfg(60);
    let mut w = World::new(c);
    w.projectiles.push(laser(0, -23900, Origin::FromEnemy, &c));
    for _ in 0..10 {
        enemy_laser_movement(&mut w);
    }
    assert_eq!(w.projectiles.len(), 1);
    assert_eq!(w.projectiles[0].y, -28900);
}

#[test]
fn enemy_spawn_respects_cap() {
    let c = cfg(1);
    let mut w = World::new(c);
    // Below the cap: exactly one enemy appears, counter rises by one.
    enemy_spawn(&mut w);
    assert_eq!(w.enemies.len(), 1);
    assert_eq!(w.active_enemies, 1);
    // At the cap: a no-op.
    enemy_spawn(&mut w);
    assert_eq!(w.enemies.len(), 1);
    assert_eq!(w.active_enemies, 1);
}

#[test]
fn enemy_spawn_position_is_inside_inset_field() {
    let c = cfg(1);
    for _ in 0..50 {
        let mut w = World::new(c);
        enemy_spawn(&mut w);
        let e = &w.enemies[0];
        assert!(e.x >= -(c.half_w - c.margin) && e.x < c.half_w - c.margin);
        assert!(e.y >= -(c.half_h - c.margin) && e.y < c.half_h - c.margin);
        assert_eq!(e.scale_x, c.scale);
        assert_eq!(e.scale_y, c.scale);
    }
}

#[test]
fn fire_edge_trigger_fires_once_while_held() {
    let c = cfg(60);
    let mut w = World::new(c);
    player_spawn(&mut w);
    // Holding fire across five invocations: exactly one volley of two.
    for _ in 0..5 {
        player_fire(&mut w, true, false);
    }
    assert_eq!(w.projectiles.len(), 2);
    assert!(!w.player_ready_fire);
    // A release re-arms; the next press fires again.
    player_fire(&mut w, false, true);
    assert!(w.player_ready_fire);
    player_fire(&mut w, true, false);
    assert_eq!(w.projectiles.len(), 4);
}

#[test]
fn player_fire_spawns_symmetric_offset_shots() {
    let c = cfg(60);
    let mut w = World::new(c);
    player_spawn(&mut w);
    // Player spawns at (0, -21000): 50 units above the bottom edge.
    player_fire(&mut w, true, false);
    assert_eq!(w.projectiles.len(), 2);
    assert_eq!(w.projectiles[0].x, 31 * 60);
    assert_eq!(w.projectiles[1].x, -31 * 60);
    assert_eq!(w.projectiles[0].y, -21000 + 15 * 60);
    assert_eq!(w.projectiles[1].y, -21000 + 15 * 60);
    assert!(matches!(w.projectiles[0].origin, Origin::FromPlayer));
}

#[test]
fn player_fire_without_player_is_noop() {
    let c = cfg(60);
    let mut w = World::new(c);
    player_fire(&mut w, true, false);
    assert_eq!(w.projectiles.len(), 0);
    player_movement(&mut w, true, false);
    assert!(w.player.is_none());
}

#[test]
fn player_movement_direction() {
    let c = cfg(60);
    // step = 500 sub-units per tick.
    let mut w = World::new(c);
    player_spawn(&mut w);
    player_movement(&mut w, true, false);
    assert_eq!(w.player.as_ref().unwrap().x, -500);
    player_movement(&mut w, false, true);
    assert_eq!(w.player.as_ref().unwrap().x, 0);
    // Both or neither: no movement.
    player_movement(&mut w, true, true);
    assert_eq!(w.player.as_ref().unwrap().x, 0);
    player_movement(&mut w, false, false);
    assert_eq!(w.player.as_ref().unwrap().x, 0);
    // No vertical movement.
    assert_eq!(w.player.as_ref().unwrap().y, -21000);
}

#[test]
fn enemy_fire_one_shot_per_enemy_below_enemy() {
    let c = cfg(1);
    let mut w = World::new(c);
    w.enemies.push(Actor {
        x: 40,
        y: 80,
        z: 10,
        scale_x: c.scale,
        scale_y: c.scale,
        asset: c.materials.enemy,
        speed: c.speed,
    });
    w.enemies.push(Actor {
        x: -10,
        y: 20,
        z: 10,
        scale_x: c.scale,
        scale_y: c.scale,
        asset: c.materials.enemy,
        speed: c.speed,
    });
    w.active_enemies = 2;
    enemy_fire(&mut w);
    assert_eq!(w.projectiles.len(), 2);
    assert_eq!((w.projectiles[0].x, w.projectiles[0].y), (40, 80 - 15));
    assert_eq!((w.projectiles[1].x, w.projectiles[1].y), (-10, 20 - 15));
    assert!(matches!(w.projectiles[0].origin, Origin::FromEnemy));
    // The downward shot carries the sprite flip in its y-scale.
    assert_eq!(w.projectiles[0].scale_y, -c.scale);
    assert_eq!(w.projectiles[0].speed, c.speed);
}

#[test]
fn timer_advance_counts_whole_periods_and_keeps_remainder() {
    let mut t = Timer::new(1000);
    assert_eq!(t.advance(999), 0);
    assert_eq!(t.acc, 999);
    assert_eq!(t.advance(1), 1);
    assert_eq!(t.acc, 0);
    assert_eq!(t.advance(2500), 2);
    assert_eq!(t.acc, 500);
}

#[test]
fn enemy_plugin_cadences() {
    let c = cfg(1);
    let mut w = World::new(c);
    let mut plugin = EnemyPlugin::new(&c);
    // 500 ms: neither cadence crossed, no spawn yet.
    plugin.run(&mut w, 500);
    assert_eq!(w.enemies.len(), 0);
    // Another 500 ms: spawn cadence (1000 ms) crosses once; the fire
    // cadence (900 ms) crossed at 900 ms, so the new enemy fires.
    plugin.run(&mut w, 500);
    assert_eq!(w.enemies.len(), 1);
    assert_eq!(w.active_enemies, 1);
    assert_eq!(w.projectiles.len(), 1);
}

#[test]
fn player_plugin_moves_shots_before_firing() {
    let c = cfg(60);
    let mut w = World::new(c);
    PlayerPlugin::startup(&mut w);
    assert!(w.player_state.on);
    PlayerPlugin::run(&mut w, false, true, true, false);
    // The avatar moved right by one step before firing; the fresh shots
    // stand at their spawn positions, since projectile movement precedes
    // the fire controller within a tick.
    assert_eq!(w.player.as_ref().unwrap().x, 500);
    assert_eq!(w.projectiles.len(), 2);
    assert_eq!(w.projectiles[0].x, 500 + 1860);
    assert_eq!(w.projectiles[0].y, -21000 + 900);
    // A shot already in flight does advance in the same tick.
    PlayerPlugin::run(&mut w, false, false, false, false);
    assert_eq!(w.projectiles[0].y, -21000 + 900 + 500);
}

#[test]
fn saturating_addition_is_exact_in_range() {
    assert_eq!(sat_add_i64(3, 4), 7);
    assert_eq!(sat_add_i64(3, -4), -1);
    assert_eq!(sat_add_i64(i64::MAX, 1), i64::MAX);
    assert_eq!(sat_add_i64(i64::MIN, -1), i64::MIN);
}
