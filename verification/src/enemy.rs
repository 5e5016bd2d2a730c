//! Enemy controllers: rate-limited random spawning under the enemy cap,
//! the per-enemy fire controller, and movement-and-culling of enemy shots.

use vstd::prelude::*;
use crate::world::Actor;
use crate::world::Config;
use crate::world::Origin;
use crate::world::Projectile;
use crate::world::Timer;
use crate::world::World;
use crate::world::move_pass;
use crate::world::movement_pass;
use crate::world::sat_add64;
use crate::world::sat_add_i64;

verus! {

/// Relies on rand's thread_rng and Rng::gen_range: a uniform draw from a
/// non-empty half-open integer range lies within that range.
#[verifier::external_body]
fn random_in_range(lo: i64, hi: i64) -> (r: i64)
    requires
        lo < hi,
    ensures
        lo <= r < hi,
{
    rand::Rng::gen_range(&mut rand::thread_rng(), lo..hi)
}

/// Whether (x, y) lies in the spawn rectangle: the play field inset by the
/// configured margin from its half-extents, half-open on the upper sides.
pub open spec fn in_spawn_rect(x: i64, y: i64, c: Config) -> bool {
    &&& -(c.half_w - c.margin) <= x < c.half_w - c.margin
    &&& -(c.half_h - c.margin) <= y < c.half_h - c.margin
}

/// An enemy as the spawn controller creates it at (x, y).
pub open spec fn spawned_enemy(x: i64, y: i64, c: Config) -> Actor {
    Actor {
        x,
        y,
        z: 10,
        scale_x: c.scale,
        scale_y: c.scale,
        asset: c.materials.enemy,
        speed: c.speed,
    }
}

/// Enemy spawn controller: when the live-enemy count is below the cap,
/// spawns one enemy at a uniformly random position in the inset spawn
/// rectangle and increments the count; otherwise a no-op.
pub fn enemy_spawn(w: &mut World)
    requires
        old(w).wf(),
    ensures
        final(w).wf(),
        old(w).active_enemies >= old(w).cfg.enemy_cap ==> *final(w) == *old(w),
        old(w).active_enemies < old(w).cfg.enemy_cap ==> {
            &&& final(w).active_enemies == old(w).active_enemies + 1
            &&& exists|x: i64, y: i64|
                #![auto]
                in_spawn_rect(x, y, old(w).cfg) && final(w).enemies@ == old(w).enemies@.push(
                    spawned_enemy(x, y, old(w).cfg),
                )
            &&& *final(w) == (World {
                enemies: final(w).enemies,
                active_enemies: final(w).active_enemies,
                ..*old(w)
            })
        },
{
    if w.active_enemies < w.cfg.enemy_cap {
        let w_span = w.cfg.half_w - w.cfg.margin;
        let h_span = w.cfg.half_h - w.cfg.margin;
        let x = random_in_range(-w_span, w_span);
        let y = random_in_range(-h_span, h_span);
        let e = Actor {
            x,
            y,
            z: 10,
            scale_x: w.cfg.scale,
            scale_y: w.cfg.scale,
            asset: w.cfg.materials.enemy,
            speed: w.cfg.speed,
        };
        w.enemies.push(e);
        w.active_enemies = w.active_enemies + 1;
        proof {
            assert(in_spawn_rect(x, y, old(w).cfg));
            assert(e == spawned_enemy(x, y, old(w).cfg));
        }
    }
}

/// The shot an enemy fires: spawned at the enemy's x, a fixed offset below
/// its y, moving downward, with the sprite flipped by a negative y-scale.
pub open spec fn enemy_laser_of(e: Actor, c: Config) -> Projectile {
    Projectile {
        x: e.x,
        y: sat_add64(e.y as int, -(c.enemy_fire_y_offset as int)),
        z: 0,
        scale_x: c.scale,
        scale_y: (-(c.scale as int)) as i64,
        asset: c.materials.enemy_laser,
        speed: c.speed,
        origin: Origin::FromEnemy,
    }
}

/// The volley one fire-controller invocation appends: one shot per live
/// enemy, in the enemies' stored order.
pub open spec fn enemy_volley(es: Seq<Actor>, c: Config) -> Seq<Projectile>
    decreases es.len(),
{
    if es.len() == 0 {
        Seq::empty()
    } else {
        enemy_volley(es.drop_last(), c).push(enemy_laser_of(es.last(), c))
    }
}

/// Enemy fire controller: every live enemy fires one downward shot, with no
/// per-enemy cooldown beyond the controller's shared cadence.
pub fn enemy_fire(w: &mut World)
    requires
        old(w).wf(),
    ensures
        final(w).wf(),
        final(w).projectiles@ == old(w).projectiles@ + enemy_volley(old(w).enemies@, old(w).cfg),
        *final(w) == (World { projectiles: final(w).projectiles, ..*old(w) }),
{
    let n = w.enemies.len();
    let mut i: usize = 0;
    proof {
        assert(w.enemies@.take(0) =~= Seq::<Actor>::empty());
        assert(w.projectiles@ + enemy_volley(w.enemies@.take(0), w.cfg) =~= w.projectiles@);
    }
    while i < n
        invariant
            *w == (World { projectiles: w.projectiles, ..*old(w) }),
            w.wf(),
            n == w.enemies@.len(),
            i <= n,
            w.projectiles@ == old(w).projectiles@ + enemy_volley(
                w.enemies@.take(i as int),
                w.cfg,
            ),
        decreases n - i,
    {
        let e = w.enemies[i];
        let laser = Projectile {
            x: e.x,
            y: sat_add_i64(e.y, -w.cfg.enemy_fire_y_offset),
            z: 0,
            scale_x: w.cfg.scale,
            scale_y: -w.cfg.scale,
            asset: w.cfg.materials.enemy_laser,
            speed: w.cfg.speed,
            origin: Origin::FromEnemy,
        };
        proof {
            assert(laser == enemy_laser_of(e, w.cfg));
            assert(w.enemies@.take(i as int + 1).drop_last() =~= w.enemies@.take(i as int));
            assert(w.enemies@.take(i as int + 1).last() == e);
            assert((old(w).projectiles@ + enemy_volley(w.enemies@.take(i as int), w.cfg)).push(
                laser,
            ) =~= old(w).projectiles@ + enemy_volley(w.enemies@.take(i as int + 1), w.cfg));
        }
        w.projectiles.push(laser);
        i = i + 1;
    }
    proof {
        assert(w.enemies@.take(n as int) =~= w.enemies@);
    }
}

/// Whether an actor is one the spawn controller could have created: a
/// spawned enemy at some position inside the inset spawn rectangle.
pub open spec fn in_rect_enemy(a: Actor, c: Config) -> bool {
    exists|x: i64, y: i64| in_spawn_rect(x, y, c) && a == spawned_enemy(x, y, c)
}

/// How many enemies `n` invocations of the spawn controller create: one per
/// invocation while the count is below the cap, none once it reaches it.
pub open spec fn spawned_count(active: int, cap: int, n: int) -> int {
    if active >= cap {
        0
    } else if n <= cap - active {
        n
    } else {
        cap - active
    }
}

/// The shots `n` invocations of the fire controller append over a fixed
/// enemy list: `n` whole volleys, in invocation order.
pub open spec fn volleys_of(es: Seq<Actor>, n: int, c: Config) -> Seq<Projectile>
    decreases n,
{
    if n <= 0 {
        Seq::empty()
    } else {
        volleys_of(es, n - 1, c) + enemy_volley(es, c)
    }
}

/// The enemy controllers and their independent cadence accumulators: shot
/// movement runs every tick; the spawn and fire controllers run once per
/// crossing of their own fixed real-time cadences.
pub struct EnemyPlugin {
    pub spawn_timer: Timer,
    pub fire_timer: Timer,
}

impl EnemyPlugin {
    pub open spec fn wf(self) -> bool {
        self.spawn_timer.wf() && self.fire_timer.wf()
    }

    /// Fresh cadence accumulators at the configured spawn and fire periods.
    pub fn new(c: &Config) -> (r: EnemyPlugin)
        requires
            c.wf(),
        ensures
            r.wf(),
            r.spawn_timer == (Timer { period: c.enemy_spawn_period, acc: 0u64 }),
            r.fire_timer == (Timer { period: c.enemy_fire_period, acc: 0u64 }),
    {
        EnemyPlugin {
            spawn_timer: Timer::new(c.enemy_spawn_period),
            fire_timer: Timer::new(c.enemy_fire_period),
        }
    }

    /// One tick of the enemy systems: the shot movement pass, then the spawn
    /// controller once per elapsed spawn cadence, then the fire controller
    /// once per elapsed fire cadence. The enemy list keeps its old members
    /// and gains one spawned in-rectangle enemy per spawn crossing while the
    /// count is below the cap; the projectile list is the moved shots with
    /// one whole volley appended per fire crossing; nothing of the player's
    /// state, the effects or the explosions changes.
    pub fn run(&mut self, w: &mut World, delta: u64)
        requires
            old(self).wf(),
            old(w).wf(),
            old(self).spawn_timer.acc + delta <= u64::MAX,
            old(self).fire_timer.acc + delta <= u64::MAX,
        ensures
            final(self).wf(),
            final(w).wf(),
            final(self).spawn_timer == old(self).spawn_timer.spec_after(delta),
            final(self).fire_timer == old(self).fire_timer.spec_after(delta),
            final(w).enemies@.len() == old(w).enemies@.len() + spawned_count(
                old(w).active_enemies as int,
                old(w).cfg.enemy_cap as int,
                old(self).spawn_timer.spec_fires(delta),
            ),
            final(w).enemies@.take(old(w).enemies@.len() as int) == old(w).enemies@,
            forall|i: int|
                old(w).enemies@.len() <= i < final(w).enemies@.len() ==> in_rect_enemy(
                    #[trigger] final(w).enemies@[i],
                    old(w).cfg,
                ),
            final(w).projectiles@ == move_pass(old(w).projectiles@, Origin::FromEnemy, old(w).cfg)
                + volleys_of(
                final(w).enemies@,
                old(self).fire_timer.spec_fires(delta),
                old(w).cfg,
            ),
            old(w).active_enemies <= old(w).cfg.enemy_cap ==> final(w).active_enemies <= old(
                w,
            ).cfg.enemy_cap,
            old(w).active_enemies > old(w).cfg.enemy_cap ==> final(w).active_enemies == old(
                w,
            ).active_enemies,
            *final(w) == (World {
                projectiles: final(w).projectiles,
                enemies: final(w).enemies,
                active_enemies: final(w).active_enemies,
                ..*old(w)
            }),
    {
        enemy_laser_movement(w);
        let ghost w_moved = *w;
        let spawns = self.spawn_timer.advance(delta);
        let mut i: u64 = 0;
        proof {
            assert(w.enemies@.take(w.enemies@.len() as int) =~= w.enemies@);
        }
        while i < spawns
            invariant
                w.wf(),
                i <= spawns,
                old(w).active_enemies as int == old(w).enemies@.len(),
                w.enemies@.len() == old(w).enemies@.len() + spawned_count(
                    old(w).active_enemies as int,
                    old(w).cfg.enemy_cap as int,
                    i as int,
                ),
                w.enemies@.take(old(w).enemies@.len() as int) == old(w).enemies@,
                forall|k: int|
                    old(w).enemies@.len() <= k < w.enemies@.len() ==> in_rect_enemy(
                        #[trigger] w.enemies@[k],
                        old(w).cfg,
                    ),
                old(w).active_enemies <= old(w).cfg.enemy_cap ==> w.active_enemies <= old(
                    w,
                ).cfg.enemy_cap,
                old(w).active_enemies > old(w).cfg.enemy_cap ==> w.active_enemies == old(
                    w,
                ).active_enemies,
                *w == (World {
                    enemies: w.enemies,
                    active_enemies: w.active_enemies,
                    ..w_moved
                }),
                w_moved == (World {
                    projectiles: w_moved.projectiles,
                    ..*old(w)
                }),
            decreases spawns - i,
        {
            let ghost w_pre = *w;
            enemy_spawn(w);
            proof {
                let a0 = old(w).active_enemies as int;
                let cap = old(w).cfg.enemy_cap as int;
                assert(w_pre.active_enemies as int == a0 + spawned_count(a0, cap, i as int));
                if w_pre.active_enemies >= w_pre.cfg.enemy_cap {
                    assert(spawned_count(a0, cap, i as int + 1) == spawned_count(
                        a0,
                        cap,
                        i as int,
                    ));
                } else {
                    assert(spawned_count(a0, cap, i as int + 1) == spawned_count(a0, cap, i as int)
                        + 1);
                }
                if w_pre.active_enemies < w_pre.cfg.enemy_cap {
                    let (x, y) = choose|x: i64, y: i64|
                        #![auto]
                        in_spawn_rect(x, y, w_pre.cfg) && w.enemies@ == w_pre.enemies@.push(
                            spawned_enemy(x, y, w_pre.cfg),
                        );
                    assert(w.enemies@.take(old(w).enemies@.len() as int) =~= w_pre.enemies@.take(
                        old(w).enemies@.len() as int,
                    ));
                    assert(in_rect_enemy(w.enemies@[w.enemies@.len() - 1], old(w).cfg)) by {
                        assert(in_spawn_rect(x, y, old(w).cfg) && w.enemies@[w.enemies@.len() - 1]
                            == spawned_enemy(x, y, old(w).cfg));
                    }
                }
            }
            i = i + 1;
        }
        let ghost w_spawned = *w;
        let volleys = self.fire_timer.advance(delta);
        let mut j: u64 = 0;
        proof {
            assert(w.projectiles@ + volleys_of(w.enemies@, 0, old(w).cfg) =~= w.projectiles@);
        }
        while j < volleys
            invariant
                w.wf(),
                j <= volleys,
                w.enemies@ == w_spawned.enemies@,
                w.projectiles@ == move_pass(old(w).projectiles@, Origin::FromEnemy, old(w).cfg)
                    + volleys_of(w.enemies@, j as int, old(w).cfg),
                *w == (World { projectiles: w.projectiles, ..w_spawned }),
                w_spawned == (World {
                    projectiles: w_spawned.projectiles,
                    enemies: w_spawned.enemies,
                    active_enemies: w_spawned.active_enemies,
                    ..*old(w)
                }),
                w_spawned.projectiles@ == move_pass(
                    old(w).projectiles@,
                    Origin::FromEnemy,
                    old(w).cfg,
                ),
            decreases volleys - j,
        {
            enemy_fire(w);
            proof {
                assert((move_pass(old(w).projectiles@, Origin::FromEnemy, old(w).cfg)
                    + volleys_of(w.enemies@, j as int, old(w).cfg)) + enemy_volley(
                    w.enemies@,
                    old(w).cfg,
                ) =~= move_pass(old(w).projectiles@, Origin::FromEnemy, old(w).cfg) + volleys_of(
                    w.enemies@,
                    j as int + 1,
                    old(w).cfg,
                ));
            }
            j = j + 1;
        }
    }
}

/// Movement and culling of enemy shots: each advances downward by
/// `speed * dt`; the cull rule is the same one-sided half-height bound, so
/// a downward-moving shot is never culled by it.
pub fn enemy_laser_movement(w: &mut World)
    requires
        old(w).wf(),
    ensures
        final(w).wf(),
        final(w).projectiles@ == move_pass(old(w).projectiles@, Origin::FromEnemy, old(w).cfg),
        *final(w) == (World { projectiles: final(w).projectiles, ..*old(w) }),
{
    movement_pass(w, Origin::FromEnemy);
}

} // verus!
