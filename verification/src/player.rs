//! Player controllers: avatar spawn, horizontal movement, edge-triggered
//! fire, and movement-and-culling of the player's projectiles.

use vstd::prelude::*;
use crate::world::Actor;
use crate::world::Config;
use crate::world::MAX_DT;
use crate::world::MAX_SPEED;
use crate::world::Origin;
use crate::world::PlayerState;
use crate::world::Projectile;
use crate::world::World;
use crate::world::advanced;
use crate::world::move_pass;
use crate::world::movement_pass;
use crate::world::sat_add64;
use crate::world::sat_add_i64;
use crate::world::sign;
use crate::world::step_len;

verus! {

/// The player avatar as the spawn controller creates it: centered
/// horizontally, a fixed offset above the field's bottom edge.
pub open spec fn spawned_player(c: Config) -> Actor {
    Actor {
        x: 0,
        y: (c.player_y_offset - c.half_h) as i64,
        z: 10,
        scale_x: c.scale,
        scale_y: c.scale,
        asset: c.materials.player,
        speed: c.speed,
    }
}

/// Creates the player avatar, arms its fire readiness and records that the
/// avatar exists.
pub fn player_spawn(w: &mut World)
    requires
        old(w).wf(),
    ensures
        final(w).wf(),
        final(w).player == Some(spawned_player(old(w).cfg)),
        final(w).player_ready_fire == true,
        final(w).player_state == (PlayerState { on: true, last_shot: 0u64 }),
        *final(w) == (World {
            player: final(w).player,
            player_ready_fire: true,
            player_state: final(w).player_state,
            ..*old(w)
        }),
{
    let y = w.cfg.player_y_offset - w.cfg.half_h;
    w.player = Some(
        Actor {
            x: 0,
            y,
            z: 10,
            scale_x: w.cfg.scale,
            scale_y: w.cfg.scale,
            asset: w.cfg.materials.player,
            speed: w.cfg.speed,
        },
    );
    w.player_ready_fire = true;
    w.player_state.spawned();
}

/// The directional input as a factor: left is -1, right is +1, both or
/// neither is 0.
pub open spec fn dir(left: bool, right: bool) -> int {
    if left && right {
        0
    } else if left {
        -1
    } else if right {
        1
    } else {
        0
    }
}

/// The player avatar after one movement tick: its x-coordinate moves by
/// `dir * speed * dt`; no vertical movement, no bounds clamp.
pub open spec fn moved_player(p: Actor, left: bool, right: bool, c: Config) -> Actor {
    Actor { x: sat_add64(p.x as int, dir(left, right) * step_len(p.speed, c)), ..p }
}

/// Per-tick player movement from the left/right controls; a no-op when no
/// player avatar exists.
pub fn player_movement(w: &mut World, left: bool, right: bool)
    requires
        old(w).wf(),
    ensures
        final(w).wf(),
        old(w).player is None ==> *final(w) == *old(w),
        forall|p: Actor|
            old(w).player == Some(p) ==> *final(w) == (World {
                player: Some(moved_player(p, left, right, old(w).cfg)),
                ..*old(w)
            }),
{
    match w.player {
        None => {},
        Some(p) => {
            proof {
                assert(0 <= p.speed * w.cfg.dt_num <= MAX_SPEED * MAX_DT) by (nonlinear_arith)
                    requires
                        0 <= p.speed <= MAX_SPEED,
                        0 <= w.cfg.dt_num <= MAX_DT,
                ;
            }
            let step = p.speed * w.cfg.dt_num / w.cfg.dt_den;
            let dx = if left && right {
                0
            } else if left {
                -step
            } else if right {
                step
            } else {
                0
            };
            proof {
                let s = step_len(p.speed, w.cfg);
                if left && !right {
                    assert(dir(left, right) * s == -s) by (nonlinear_arith)
                        requires
                            dir(left, right) == -1,
                    ;
                } else if right && !left {
                    assert(dir(left, right) * s == s) by (nonlinear_arith)
                        requires
                            dir(left, right) == 1,
                    ;
                } else {
                    assert(dir(left, right) * s == 0) by (nonlinear_arith)
                        requires
                            dir(left, right) == 0,
                    ;
                }
                assert(dx == dir(left, right) * s);
            }
            let moved = Actor { x: sat_add_i64(p.x, dx), ..p };
            w.player = Some(moved);
        },
    }
}

/// Whether a fire-controller invocation fires: readiness is still armed and
/// the fire control is asserted.
pub open spec fn fire_fires(ready: bool, pressed: bool) -> bool {
    ready && pressed
}

/// Fire readiness after one fire-controller invocation: a release re-arms
/// it, a shot disarms it, otherwise it is unchanged.
pub open spec fn ready_after(ready: bool, pressed: bool, released: bool) -> bool {
    if released {
        true
    } else if ready && pressed {
        false
    } else {
        ready
    }
}

/// A player shot: spawned at the given horizontal offset from the player,
/// a fixed offset above it, moving upward.
pub open spec fn player_laser(p: Actor, x_off: int, c: Config) -> Projectile {
    Projectile {
        x: sat_add64(p.x as int, x_off),
        y: sat_add64(p.y as int, c.fire_y_offset as int),
        z: 0,
        scale_x: c.scale,
        scale_y: c.scale,
        asset: c.materials.player_laser,
        speed: c.speed,
        origin: Origin::FromPlayer,
    }
}

/// The projectile list after one fire-controller invocation: two symmetric
/// upward shots are appended exactly when the controller fires.
pub open spec fn fire_result(
    ls: Seq<Projectile>,
    ready: bool,
    p: Actor,
    pressed: bool,
    c: Config,
) -> Seq<Projectile> {
    if fire_fires(ready, pressed) {
        ls.push(player_laser(p, c.fire_x_offset as int, c)).push(
            player_laser(p, -(c.fire_x_offset as int), c),
        )
    } else {
        ls
    }
}

/// Per-tick player fire controller: single-shot-per-press semantics. When
/// readiness is armed and the fire control is asserted, two upward shots
/// spawn at symmetric horizontal offsets and readiness disarms; a release
/// of the control re-arms readiness. A no-op when no player avatar exists.
pub fn player_fire(w: &mut World, pressed: bool, just_released: bool)
    requires
        old(w).wf(),
    ensures
        final(w).wf(),
        old(w).player is None ==> *final(w) == *old(w),
        forall|p: Actor|
            old(w).player == Some(p) ==> {
                &&& final(w).projectiles@ == fire_result(
                    old(w).projectiles@,
                    old(w).player_ready_fire,
                    p,
                    pressed,
                    old(w).cfg,
                )
                &&& final(w).player_ready_fire == ready_after(
                    old(w).player_ready_fire,
                    pressed,
                    just_released,
                )
                &&& *final(w) == (World {
                    projectiles: final(w).projectiles,
                    player_ready_fire: final(w).player_ready_fire,
                    ..*old(w)
                })
            },
{
    match w.player {
        None => {},
        Some(p) => {
            if w.player_ready_fire && pressed {
                let x_off = w.cfg.fire_x_offset;
                let first = Projectile {
                    x: sat_add_i64(p.x, x_off),
                    y: sat_add_i64(p.y, w.cfg.fire_y_offset),
                    z: 0,
                    scale_x: w.cfg.scale,
                    scale_y: w.cfg.scale,
                    asset: w.cfg.materials.player_laser,
                    speed: w.cfg.speed,
                    origin: Origin::FromPlayer,
                };
                let second = Projectile { x: sat_add_i64(p.x, -x_off), ..first };
                w.projectiles.push(first);
                w.projectiles.push(second);
                w.player_ready_fire = false;
            }
            if just_released {
                w.player_ready_fire = true;
            }
        },
    }
}

/// Movement and culling of the player's projectiles: each advances upward
/// by `speed * dt` and is despawned once beyond the half-height bound.
pub fn laser_movement(w: &mut World)
    requires
        old(w).wf(),
    ensures
        final(w).wf(),
        final(w).projectiles@ == move_pass(old(w).projectiles@, Origin::FromPlayer, old(w).cfg),
        *final(w) == (World { projectiles: final(w).projectiles, ..*old(w) }),
{
    movement_pass(w, Origin::FromPlayer);
}

/// The player-facing controllers, run in a fixed per-tick order: avatar
/// movement, movement-and-culling of the player's shots, then the fire
/// controller — movement before the spawn controller, so a fresh shot
/// stands at its spawn position until the next tick.
pub struct PlayerPlugin;

impl PlayerPlugin {
    /// Startup: creates the player avatar.
    pub fn startup(w: &mut World)
        requires
            old(w).wf(),
        ensures
            final(w).wf(),
            final(w).player == Some(spawned_player(old(w).cfg)),
            final(w).player_ready_fire == true,
            final(w).player_state == (PlayerState { on: true, last_shot: 0u64 }),
            *final(w) == (World {
                player: final(w).player,
                player_ready_fire: true,
                player_state: final(w).player_state,
                ..*old(w)
            }),
    {
        player_spawn(w);
    }

    /// One tick of the player systems. With no avatar, only the shot
    /// movement pass runs; with an avatar, the avatar moves, the shot
    /// movement pass advances the shots already in flight, and the fire
    /// controller then fires from the moved avatar, leaving fresh shots at
    /// their spawn positions.
    pub fn run(w: &mut World, left: bool, right: bool, fire: bool, fire_just_released: bool)
        requires
            old(w).wf(),
        ensures
            final(w).wf(),
            *final(w) == (World {
                player: final(w).player,
                player_ready_fire: final(w).player_ready_fire,
                projectiles: final(w).projectiles,
                ..*old(w)
            }),
            old(w).player is None ==> *final(w) == (World {
                projectiles: final(w).projectiles,
                ..*old(w)
            }) && final(w).projectiles@ == move_pass(
                old(w).projectiles@,
                Origin::FromPlayer,
                old(w).cfg,
            ),
            forall|p: Actor|
                old(w).player == Some(p) ==> {
                    &&& final(w).player == Some(moved_player(p, left, right, old(w).cfg))
                    &&& final(w).player_ready_fire == ready_after(
                        old(w).player_ready_fire,
                        fire,
                        fire_just_released,
                    )
                    &&& final(w).projectiles@ == fire_result(
                        move_pass(old(w).projectiles@, Origin::FromPlayer, old(w).cfg),
                        old(w).player_ready_fire,
                        moved_player(p, left, right, old(w).cfg),
                        fire,
                        old(w).cfg,
                    )
                    &&& *final(w) == (World {
                        player: final(w).player,
                        player_ready_fire: final(w).player_ready_fire,
                        projectiles: final(w).projectiles,
                        ..*old(w)
                    })
                },
    {
        player_movement(w, left, right);
        let ghost w1 = *w;
        laser_movement(w);
        let ghost w2 = *w;
        player_fire(w, fire, fire_just_released);
        proof {
            match old(w).player {
                Some(p) => {
                    assert(old(w).player == Some(p));
                    let mp = moved_player(p, left, right, old(w).cfg);
                    assert(w1.player == Some(mp));
                    assert(w2.projectiles@ == move_pass(
                        w1.projectiles@,
                        Origin::FromPlayer,
                        w1.cfg,
                    ));
                    assert(w2.player == Some(mp));
                    assert(final(w).projectiles@ == fire_result(
                        w2.projectiles@,
                        w2.player_ready_fire,
                        mp,
                        fire,
                        w2.cfg,
                    ));
                },
                None => {},
            }
        }
    }
}

/// Fire events over a run of fire-controller invocations: the number of
/// shots taken, starting from the given readiness, over inputs given as
/// (pressed, just_released) pairs in invocation order.
pub open spec fn count_fires(ready: bool, inputs: Seq<(bool, bool)>) -> int
    decreases inputs.len(),
{
    if inputs.len() == 0 {
        0
    } else {
        (if fire_fires(ready, inputs.first().0) {
            1int
        } else {
            0int
        }) + count_fires(ready_after(ready, inputs.first().0, inputs.first().1), inputs.drop_first())
    }
}

/// With readiness disarmed and the fire control never released, no run of
/// invocations ever fires.
pub proof fn lemma_no_refire_while_held(inputs: Seq<(bool, bool)>)
    requires
        forall|i: int| 0 <= i < inputs.len() ==> !#[trigger] inputs[i].1,
    ensures
        count_fires(false, inputs) == 0,
    decreases inputs.len(),
{
    if inputs.len() > 0 {
        assert(!inputs[0].1);
        assert(forall|i: int|
            0 <= i < inputs.drop_first().len() ==> inputs.drop_first()[i] == inputs[i + 1]);
        lemma_no_refire_while_held(inputs.drop_first());
    }
}

/// Fire edge-trigger law: holding the fire control across any number of
/// consecutive invocations without an intervening release produces exactly
/// one fire event, not one per invocation.
pub proof fn lemma_fire_edge_trigger(inputs: Seq<(bool, bool)>)
    requires
        inputs.len() > 0,
        forall|i: int| 0 <= i < inputs.len() ==> #[trigger] inputs[i] == (true, false),
    ensures
        count_fires(true, inputs) == 1,
{
    assert(inputs[0] == (true, false));
    assert(fire_fires(true, inputs.first().0));
    assert(!ready_after(true, true, false));
    assert(forall|i: int|
        0 <= i < inputs.drop_first().len() ==> inputs.drop_first()[i] == inputs[i + 1]);
    lemma_no_refire_while_held(inputs.drop_first());
}

} // verus!
