//! The tick driver: runs the per-tick systems and the rate-limited
//! controllers against the shared store in a fixed order.

use vstd::prelude::*;
use crate::collision::blast_effects;
use crate::collision::hit_by_class;
use crate::collision::surviving_actors;
use crate::collision::surviving_projectiles;
use crate::enemy::EnemyPlugin;
use crate::enemy::in_rect_enemy;
use crate::enemy::spawned_count;
use crate::enemy::volleys_of;
use crate::explosion::animate_explosion;
use crate::explosion::animate_pass;
use crate::explosion::explosion_to_spawn;
use crate::explosion::spawned_explosions;
use crate::player::PlayerPlugin;
use crate::player::fire_result;
use crate::player::moved_player;
use crate::player::ready_after;
use crate::world::Actor;
use crate::world::Explosion;
use crate::world::MAX_PERIOD;
use crate::world::Origin;
use crate::world::PendingEffect;
use crate::world::PlayerState;
use crate::world::Projectile;
use crate::world::World;
use crate::world::move_pass;

verus! {

/// One reading of the input provider: whether the left, right and fire
/// controls are pressed, and whether fire was just released.
#[derive(Clone, Copy, PartialEq, Eq, Structural, Debug)]
pub struct InputState {
    pub left: bool,
    pub right: bool,
    pub fire: bool,
    pub fire_just_released: bool,
}

/// The projectile list after the player systems: the shots in flight move
/// and cull, then the player's volley is appended when the fire controller
/// fires from the moved avatar.
pub open spec fn player_projectiles(w: World, input: InputState) -> Seq<Projectile> {
    match w.player {
        None => move_pass(w.projectiles@, Origin::FromPlayer, w.cfg),
        Some(p) => fire_result(
            move_pass(w.projectiles@, Origin::FromPlayer, w.cfg),
            w.player_ready_fire,
            moved_player(p, input.left, input.right, w.cfg),
            input.fire,
            w.cfg,
        ),
    }
}

/// Whether `es1` is the post-spawn enemy list of a tick with `ns` spawn
/// crossings: the old enemies followed by one spawned in-rectangle enemy
/// per crossing while the count is below the cap.
pub open spec fn spawn_extension(w: World, es1: Seq<Actor>, ns: int) -> bool {
    &&& es1.take(w.enemies@.len() as int) == w.enemies@
    &&& es1.len() == w.enemies@.len() + spawned_count(
        w.active_enemies as int,
        w.cfg.enemy_cap as int,
        ns,
    )
    &&& forall|i: int|
        w.enemies@.len() <= i < es1.len() ==> in_rect_enemy(#[trigger] es1[i], w.cfg)
}

/// The projectile list after all controllers, given the post-spawn enemy
/// list `es1` and the number `nv` of fire-cadence crossings: the enemy
/// shots in flight move, then `nv` whole volleys are appended.
pub open spec fn controller_projectiles(
    w: World,
    input: InputState,
    es1: Seq<Actor>,
    nv: int,
) -> Seq<Projectile> {
    move_pass(player_projectiles(w, input), Origin::FromEnemy, w.cfg) + volleys_of(es1, nv, w.cfg)
}

/// The enemies surviving the tick's collision pass.
pub open spec fn tick_enemies(w: World, input: InputState, es1: Seq<Actor>, nv: int) -> Seq<
    Actor,
> {
    surviving_actors(es1, controller_projectiles(w, input, es1, nv), Origin::FromPlayer)
}

/// The projectiles left after the tick's player-shot collision pass.
pub open spec fn tick_lasers_mid(w: World, input: InputState, es1: Seq<Actor>, nv: int) -> Seq<
    Projectile,
> {
    surviving_projectiles(controller_projectiles(w, input, es1, nv), es1, Origin::FromPlayer)
}

/// The pending effects after the tick's player-shot collision pass: one per
/// destroyed enemy, appended to those already queued.
pub open spec fn tick_effects_mid(w: World, input: InputState, es1: Seq<Actor>, nv: int) -> Seq<
    PendingEffect,
> {
    w.effects@ + blast_effects(es1, controller_projectiles(w, input, es1, nv), Origin::FromPlayer)
}

/// Whether the tick destroys the player: some surviving enemy shot overlaps
/// the moved avatar.
pub open spec fn tick_player_hit(w: World, input: InputState, es1: Seq<Actor>, nv: int) -> bool {
    match w.player {
        None => false,
        Some(p) => hit_by_class(
            moved_player(p, input.left, input.right, w.cfg),
            tick_lasers_mid(w, input, es1, nv),
            Origin::FromEnemy,
        ),
    }
}

/// The player avatar the tick leaves: moved, or destroyed on a hit.
pub open spec fn tick_player(w: World, input: InputState, es1: Seq<Actor>, nv: int) -> Option<
    Actor,
> {
    match w.player {
        None => None,
        Some(p) => if tick_player_hit(w, input, es1, nv) {
            None
        } else {
            Some(moved_player(p, input.left, input.right, w.cfg))
        },
    }
}

/// The player control state the tick leaves: a hit records the destruction
/// time, otherwise it is untouched.
pub open spec fn tick_player_state(
    w: World,
    input: InputState,
    es1: Seq<Actor>,
    nv: int,
    now: u64,
) -> PlayerState {
    if tick_player_hit(w, input, es1, nv) {
        PlayerState { on: false, last_shot: now }
    } else {
        w.player_state
    }
}

/// The fire readiness the tick leaves: stepped by the fire controller when
/// an avatar exists, untouched otherwise.
pub open spec fn tick_ready(w: World, input: InputState) -> bool {
    match w.player {
        None => w.player_ready_fire,
        Some(_) => ready_after(w.player_ready_fire, input.fire, input.fire_just_released),
    }
}

/// The projectile list the tick leaves: on a player hit, every overlapping
/// enemy shot is despawned as well.
pub open spec fn tick_projectiles(w: World, input: InputState, es1: Seq<Actor>, nv: int) -> Seq<
    Projectile,
> {
    match w.player {
        None => tick_lasers_mid(w, input, es1, nv),
        Some(p) => if tick_player_hit(w, input, es1, nv) {
            surviving_projectiles(
                tick_lasers_mid(w, input, es1, nv),
                seq![moved_player(p, input.left, input.right, w.cfg)],
                Origin::FromEnemy,
            )
        } else {
            tick_lasers_mid(w, input, es1, nv)
        },
    }
}

/// Every pending effect the tick hands to the explosion lifecycle: the
/// enemy kills, plus one for the player when it is destroyed.
pub open spec fn tick_effects(w: World, input: InputState, es1: Seq<Actor>, nv: int) -> Seq<
    PendingEffect,
> {
    match w.player {
        None => tick_effects_mid(w, input, es1, nv),
        Some(p) => if tick_player_hit(w, input, es1, nv) {
            tick_effects_mid(w, input, es1, nv).push(
                PendingEffect {
                    x: moved_player(p, input.left, input.right, w.cfg).x,
                    y: moved_player(p, input.left, input.right, w.cfg).y,
                    z: moved_player(p, input.left, input.right, w.cfg).z,
                },
            )
        } else {
            tick_effects_mid(w, input, es1, nv)
        },
    }
}

/// The explosion list the tick leaves: every pending effect becomes an
/// explosion, and all explosions animate by the elapsed time.
pub open spec fn tick_explosions(
    w: World,
    input: InputState,
    es1: Seq<Actor>,
    nv: int,
    delta: u64,
) -> Seq<Explosion> {
    animate_pass(
        w.explosions@ + spawned_explosions(tick_effects(w, input, es1, nv), w.cfg),
        delta,
        w.cfg.materials.explosion_frames,
    )
}

/// One simulation tick, in the fixed order movement and controllers first,
/// collision resolution second, effect consumption and animation last:
/// player movement, player-shot movement, player fire; enemy-shot movement
/// and the two cadenced enemy controllers; both collision passes; then
/// every pending effect becomes an explosion and every explosion animates
/// by the elapsed time. `delta` is the elapsed real time in milliseconds
/// and `now` the current time, used to stamp a player destruction. The
/// result is pinned exactly up to the enemy spawn positions: for some
/// post-spawn enemy list (the old enemies plus one in-rectangle spawn per
/// cadence crossing under the cap), every store field equals the stated
/// composition of the system contracts.
pub fn tick(w: &mut World, enemy: &mut EnemyPlugin, input: InputState, delta: u64, now: u64)
    requires
        old(w).wf(),
        old(enemy).wf(),
        old(enemy).spawn_timer.acc + delta <= u64::MAX,
        old(enemy).fire_timer.acc + delta <= u64::MAX,
        delta <= u64::MAX - MAX_PERIOD,
    ensures
        final(w).wf(),
        final(enemy).wf(),
        final(enemy).spawn_timer == old(enemy).spawn_timer.spec_after(delta),
        final(enemy).fire_timer == old(enemy).fire_timer.spec_after(delta),
        final(w).cfg == old(w).cfg,
        old(w).active_enemies <= old(w).cfg.enemy_cap ==> final(w).active_enemies <= old(
            w,
        ).cfg.enemy_cap,
        final(w).effects@.len() == 0,
        exists|es1: Seq<Actor>|
            #![trigger spawn_extension(*old(w), es1, old(enemy).spawn_timer.spec_fires(delta))]
            {
                &&& spawn_extension(*old(w), es1, old(enemy).spawn_timer.spec_fires(delta))
                &&& final(w).enemies@ == tick_enemies(
                    *old(w),
                    input,
                    es1,
                    old(enemy).fire_timer.spec_fires(delta),
                )
                &&& final(w).active_enemies as int == final(w).enemies@.len()
                &&& final(w).player == tick_player(
                    *old(w),
                    input,
                    es1,
                    old(enemy).fire_timer.spec_fires(delta),
                )
                &&& final(w).player_state == tick_player_state(
                    *old(w),
                    input,
                    es1,
                    old(enemy).fire_timer.spec_fires(delta),
                    now,
                )
                &&& final(w).player_ready_fire == tick_ready(*old(w), input)
                &&& final(w).projectiles@ == tick_projectiles(
                    *old(w),
                    input,
                    es1,
                    old(enemy).fire_timer.spec_fires(delta),
                )
                &&& final(w).explosions@ == tick_explosions(
                    *old(w),
                    input,
                    es1,
                    old(enemy).fire_timer.spec_fires(delta),
                    delta,
                )
            },
{
    PlayerPlugin::run(w, input.left, input.right, input.fire, input.fire_just_released);
    let ghost w1 = *w;
    enemy.run(w, delta);
    let ghost w2 = *w;
    crate::collision::player_laser_hit_enemy(w);
    let ghost w3 = *w;
    crate::collision::enemy_laser_hit_player(w, now);
    let ghost w4 = *w;
    explosion_to_spawn(w);
    let ghost w5 = *w;
    animate_explosion(w, delta);
    proof {
        let es1 = w2.enemies@;
        let ns = old(enemy).spawn_timer.spec_fires(delta);
        let nv = old(enemy).fire_timer.spec_fires(delta);
        match old(w).player {
            Some(p) => {
                assert(old(w).player == Some(p));
                let mp = moved_player(p, input.left, input.right, old(w).cfg);
                assert(w1.player == Some(mp));
                assert(w1.projectiles@ == fire_result(
                    move_pass(old(w).projectiles@, Origin::FromPlayer, old(w).cfg),
                    old(w).player_ready_fire,
                    mp,
                    input.fire,
                    old(w).cfg,
                ));
                assert(w1.projectiles@ == player_projectiles(*old(w), input));
            },
            None => {
                assert(w1.projectiles@ == player_projectiles(*old(w), input));
            },
        }
        assert(spawn_extension(*old(w), es1, ns));
        assert(w2.projectiles@ == controller_projectiles(*old(w), input, es1, nv));
        assert(w3.enemies@ == tick_enemies(*old(w), input, es1, nv));
        assert(w3.projectiles@ == tick_lasers_mid(*old(w), input, es1, nv));
        assert(w3.effects@ == tick_effects_mid(*old(w), input, es1, nv));
        match old(w).player {
            Some(p) => {
                let mp = moved_player(p, input.left, input.right, old(w).cfg);
                assert(w3.player == Some(mp));
                if hit_by_class(mp, w3.projectiles@, Origin::FromEnemy) {
                    assert(w4.player is None);
                    assert(w4.projectiles@ == surviving_projectiles(
                        w3.projectiles@,
                        seq![mp],
                        Origin::FromEnemy,
                    ));
                    assert(w4.effects@ == tick_effects(*old(w), input, es1, nv));
                } else {
                    assert(w4 == w3);
                }
                assert(tick_player_hit(*old(w), input, es1, nv) == hit_by_class(
                    mp,
                    w3.projectiles@,
                    Origin::FromEnemy,
                ));
            },
            None => {
                assert(w4 == w3);
            },
        }
        assert(w4.projectiles@ == tick_projectiles(*old(w), input, es1, nv));
        assert(w4.effects@ == tick_effects(*old(w), input, es1, nv));
        assert(w5.explosions@ == w4.explosions@ + spawned_explosions(w4.effects@, w4.cfg));
        assert(final(w).explosions@ == tick_explosions(*old(w), input, es1, nv, delta));
    }
}

} // verus!
