//! Pairwise axis-aligned collision detection between projectiles and the
//! opposing actor class, with at-most-one-hit-per-target resolution.

use vstd::prelude::*;
use crate::texture::Size;
use crate::texture::get_size;
use crate::texture::spec_size;
use crate::world::Actor;
use crate::world::MAX_LEN;
use crate::world::MAX_SCALE;
use crate::world::Origin;
use crate::world::PendingEffect;
use crate::world::PlayerState;
use crate::world::Projectile;
use crate::world::SCALE_DEN;
use crate::world::World;
use crate::world::wf_asset;
use crate::world::wf_scale;

verus! {

/// Absolute value of a mathematical integer.
pub open spec fn iabs(a: int) -> int {
    if a < 0 {
        -a
    } else {
        a
    }
}

/// An entity's effective collision extent along one axis: its asset
/// footprint times the magnitude of its scale factor, in thousandths.
pub open spec fn eff_dim(len: int, scale: int) -> int {
    (len * iabs(scale)) / (SCALE_DEN as int)
}

/// Effective collision width and height of a projectile.
pub open spec fn proj_w(p: Projectile) -> int {
    eff_dim(spec_size(p.asset).w as int, p.scale_x as int)
}

pub open spec fn proj_h(p: Projectile) -> int {
    eff_dim(spec_size(p.asset).h as int, p.scale_y as int)
}

/// Effective collision width and height of an actor.
pub open spec fn actor_w(a: Actor) -> int {
    eff_dim(spec_size(a.asset).w as int, a.scale_x as int)
}

pub open spec fn actor_h(a: Actor) -> int {
    eff_dim(spec_size(a.asset).h as int, a.scale_y as int)
}

/// Axis-aligned bounding-box overlap of two boxes centered on their
/// positions: strict overlap on both axes.
pub open spec fn overlap(
    ax: int,
    ay: int,
    aw: int,
    ah: int,
    bx: int,
    by: int,
    bw: int,
    bh: int,
) -> bool {
    2 * iabs(ax - bx) < aw + bw && 2 * iabs(ay - by) < ah + bh
}

/// Whether a projectile's collision box overlaps an actor's.
pub open spec fn hits(p: Projectile, a: Actor) -> bool {
    overlap(
        p.x as int,
        p.y as int,
        proj_w(p),
        proj_h(p),
        a.x as int,
        a.y as int,
        actor_w(a),
        actor_h(a),
    )
}

/// Whether some projectile of the given origin class overlaps the actor.
pub open spec fn hit_by_class(a: Actor, ls: Seq<Projectile>, o: Origin) -> bool {
    exists|i: int| 0 <= i < ls.len() && ls[i].origin == o && hits(ls[i], a)
}

/// One effective extent, executable: footprint dimension times |scale|,
/// in thousandths.
fn eff_dim_exec(len: i64, scale: i64) -> (r: i64)
    requires
        0 <= len <= MAX_LEN,
        wf_scale(scale),
    ensures
        r == eff_dim(len as int, scale as int),
{
    let s = if scale < 0 {
        -scale
    } else {
        scale
    };
    proof {
        assert(0 <= len * s <= MAX_LEN * MAX_SCALE) by (nonlinear_arith)
            requires
                0 <= len <= MAX_LEN,
                0 <= s <= MAX_SCALE,
        ;
    }
    len * s / SCALE_DEN
}

/// Collision test between one projectile and one actor.
fn hits_exec(p: &Projectile, a: &Actor) -> (r: bool)
    requires
        p.wf(),
        a.wf(),
    ensures
        r == hits(*p, *a),
{
    let psize: Size = get_size(p.asset);
    let asize: Size = get_size(a.asset);
    let pw = eff_dim_exec(psize.w, p.scale_x);
    let ph = eff_dim_exec(psize.h, p.scale_y);
    let aw = eff_dim_exec(asize.w, a.scale_x);
    let ah = eff_dim_exec(asize.h, a.scale_y);
    let dx = p.x as i128 - a.x as i128;
    let dy = p.y as i128 - a.y as i128;
    let adx = if dx < 0 {
        -dx
    } else {
        dx
    };
    let ady = if dy < 0 {
        -dy
    } else {
        dy
    };
    2 * adx < pw as i128 + aw as i128 && 2 * ady < ph as i128 + ah as i128
}

/// Whether any projectile of the given origin class overlaps the actor.
fn any_hit(ls: &Vec<Projectile>, a: &Actor, o: Origin) -> (r: bool)
    requires
        forall|i: int| 0 <= i < ls@.len() ==> ls@[i].wf(),
        a.wf(),
    ensures
        r == hit_by_class(*a, ls@, o),
{
    let n = ls.len();
    let mut i: usize = 0;
    while i < n
        invariant
            forall|k: int| 0 <= k < ls@.len() ==> ls@[k].wf(),
            a.wf(),
            n == ls@.len(),
            i <= n,
            forall|k: int| 0 <= k < i ==> !(ls@[k].origin == o && hits(ls@[k], *a)),
        decreases n - i,
    {
        let l = &ls[i];
        if l.origin == o && hits_exec(l, a) {
            return true;
        }
        i = i + 1;
    }
    false
}

/// Whether the projectile overlaps any actor in the list.
fn hits_any_actor(l: &Projectile, es: &Vec<Actor>) -> (r: bool)
    requires
        forall|i: int| 0 <= i < es@.len() ==> es@[i].wf(),
        l.wf(),
    ensures
        r == exists|j: int| 0 <= j < es@.len() && hits(*l, es@[j]),
{
    let n = es.len();
    let mut i: usize = 0;
    while i < n
        invariant
            forall|k: int| 0 <= k < es@.len() ==> es@[k].wf(),
            l.wf(),
            n == es@.len(),
            i <= n,
            forall|k: int| 0 <= k < i ==> !hits(*l, es@[k]),
        decreases n - i,
    {
        if hits_exec(l, &es[i]) {
            return true;
        }
        i = i + 1;
    }
    false
}

/// The actors of a list that survive a resolution pass: those overlapped by
/// no projectile of the given origin class. Order is preserved.
pub open spec fn surviving_actors(es: Seq<Actor>, ls: Seq<Projectile>, o: Origin) -> Seq<Actor>
    decreases es.len(),
{
    if es.len() == 0 {
        Seq::empty()
    } else {
        let rest = surviving_actors(es.drop_last(), ls, o);
        if hit_by_class(es.last(), ls, o) {
            rest
        } else {
            rest.push(es.last())
        }
    }
}

/// Exactly one effect-spawn request per destroyed actor, at the actor's
/// position, in the actors' stored order.
pub open spec fn blast_effects(es: Seq<Actor>, ls: Seq<Projectile>, o: Origin) -> Seq<
    PendingEffect,
>
    decreases es.len(),
{
    if es.len() == 0 {
        Seq::empty()
    } else {
        let rest = blast_effects(es.drop_last(), ls, o);
        if hit_by_class(es.last(), ls, o) {
            rest.push(PendingEffect { x: es.last().x, y: es.last().y, z: es.last().z })
        } else {
            rest
        }
    }
}

/// The projectiles that survive a resolution pass: every projectile of the
/// given origin class that overlaps some listed actor is despawned, all
/// others are kept. Order is preserved.
pub open spec fn surviving_projectiles(
    ls: Seq<Projectile>,
    es: Seq<Actor>,
    o: Origin,
) -> Seq<Projectile>
    decreases ls.len(),
{
    if ls.len() == 0 {
        Seq::empty()
    } else {
        let rest = surviving_projectiles(ls.drop_last(), es, o);
        let l = ls.last();
        if l.origin == o && (exists|j: int| 0 <= j < es.len() && hits(l, es[j])) {
            rest
        } else {
            rest.push(l)
        }
    }
}

/// Collision and hit resolution between player shots and enemies: every
/// enemy overlapped by a player shot is despawned exactly once, decrements
/// the live-enemy counter and emits exactly one effect-spawn request at its
/// position, even when several shots overlap it simultaneously; every
/// player shot that overlaps an enemy is despawned.
pub fn player_laser_hit_enemy(w: &mut World)
    requires
        old(w).wf(),
    ensures
        final(w).wf(),
        final(w).enemies@ == surviving_actors(
            old(w).enemies@,
            old(w).projectiles@,
            Origin::FromPlayer,
        ),
        final(w).effects@ == old(w).effects@ + blast_effects(
            old(w).enemies@,
            old(w).projectiles@,
            Origin::FromPlayer,
        ),
        final(w).projectiles@ == surviving_projectiles(
            old(w).projectiles@,
            old(w).enemies@,
            Origin::FromPlayer,
        ),
        final(w).active_enemies == old(w).active_enemies - (old(w).enemies@.len()
            - final(w).enemies@.len()),
        final(w).active_enemies <= old(w).active_enemies,
        *final(w) == (World {
            enemies: final(w).enemies,
            projectiles: final(w).projectiles,
            effects: final(w).effects,
            active_enemies: final(w).active_enemies,
            ..*old(w)
        }),
{
    let ne = w.enemies.len();
    let mut kept_enemies: Vec<Actor> = Vec::new();
    let mut i: usize = 0;
    proof {
        assert(w.enemies@.take(0) =~= Seq::<Actor>::empty());
        assert(w.effects@ + blast_effects(w.enemies@.take(0), w.projectiles@, Origin::FromPlayer)
            =~= w.effects@);
    }
    while i < ne
        invariant
            *w == (World { effects: w.effects, ..*old(w) }),
            w.wf(),
            ne == w.enemies@.len(),
            i <= ne,
            kept_enemies@ == surviving_actors(
                w.enemies@.take(i as int),
                w.projectiles@,
                Origin::FromPlayer,
            ),
            w.effects@ == old(w).effects@ + blast_effects(
                w.enemies@.take(i as int),
                w.projectiles@,
                Origin::FromPlayer,
            ),
            forall|k: int| 0 <= k < kept_enemies@.len() ==> kept_enemies@[k].wf(),
            kept_enemies@.len() <= i,
        decreases ne - i,
    {
        let e = w.enemies[i];
        proof {
            assert(w.enemies@.take(i as int + 1).drop_last() =~= w.enemies@.take(i as int));
            assert(w.enemies@.take(i as int + 1).last() == e);
        }
        if any_hit(&w.projectiles, &e, Origin::FromPlayer) {
            let fx = PendingEffect { x: e.x, y: e.y, z: e.z };
            proof {
                assert((old(w).effects@ + blast_effects(
                    w.enemies@.take(i as int),
                    w.projectiles@,
                    Origin::FromPlayer,
                )).push(fx) =~= old(w).effects@ + blast_effects(
                    w.enemies@.take(i as int + 1),
                    w.projectiles@,
                    Origin::FromPlayer,
                ));
            }
            w.effects.push(fx);
        } else {
            kept_enemies.push(e);
        }
        i = i + 1;
    }
    proof {
        assert(w.enemies@.take(ne as int) =~= w.enemies@);
    }
    let np = w.projectiles.len();
    let mut kept_lasers: Vec<Projectile> = Vec::new();
    let mut j: usize = 0;
    proof {
        assert(w.projectiles@.take(0) =~= Seq::<Projectile>::empty());
    }
    while j < np
        invariant
            *w == (World { effects: w.effects, ..*old(w) }),
            w.wf(),
            np == w.projectiles@.len(),
            j <= np,
            kept_lasers@ == surviving_projectiles(
                w.projectiles@.take(j as int),
                w.enemies@,
                Origin::FromPlayer,
            ),
            forall|k: int| 0 <= k < kept_lasers@.len() ==> kept_lasers@[k].wf(),
        decreases np - j,
    {
        let l = w.projectiles[j];
        proof {
            assert(w.projectiles@.take(j as int + 1).drop_last() =~= w.projectiles@.take(
                j as int,
            ));
            assert(w.projectiles@.take(j as int + 1).last() == l);
        }
        let spent = match l.origin {
            Origin::FromPlayer => hits_any_actor(&l, &w.enemies),
            Origin::FromEnemy => false,
        };
        if !spent {
            kept_lasers.push(l);
        }
        j = j + 1;
    }
    proof {
        assert(w.projectiles@.take(np as int) =~= w.projectiles@);
    }
    let survivors = kept_enemies.len();
    w.enemies = kept_enemies;
    w.active_enemies = survivors as u32;
    w.projectiles = kept_lasers;
}

/// Collision and hit resolution between enemy shots and the player: when
/// any enemy shot overlaps the player avatar, the avatar is despawned once,
/// the control state records the destruction time, exactly one effect-spawn
/// request is emitted at the avatar's position, and every overlapping enemy
/// shot is despawned.
pub fn enemy_laser_hit_player(w: &mut World, now: u64)
    requires
        old(w).wf(),
    ensures
        final(w).wf(),
        *final(w) == (World {
            player: final(w).player,
            player_state: final(w).player_state,
            projectiles: final(w).projectiles,
            effects: final(w).effects,
            ..*old(w)
        }),
        old(w).player is None ==> *final(w) == *old(w),
        forall|p: Actor|
            old(w).player == Some(p) && !hit_by_class(p, old(w).projectiles@, Origin::FromEnemy)
                ==> *final(w) == *old(w),
        forall|p: Actor|
            old(w).player == Some(p) && hit_by_class(p, old(w).projectiles@, Origin::FromEnemy)
                ==> {
                &&& final(w).player is None
                &&& final(w).player_state == (PlayerState { on: false, last_shot: now })
                &&& final(w).projectiles@ == surviving_projectiles(
                    old(w).projectiles@,
                    seq![p],
                    Origin::FromEnemy,
                )
                &&& final(w).effects@ == old(w).effects@.push(
                    PendingEffect { x: p.x, y: p.y, z: p.z },
                )
                &&& *final(w) == (World {
                    player: None,
                    player_state: final(w).player_state,
                    projectiles: final(w).projectiles,
                    effects: final(w).effects,
                    ..*old(w)
                })
            },
{
    let p = match w.player {
        None => {
            return ;
        },
        Some(p) => p,
    };
    if !any_hit(&w.projectiles, &p, Origin::FromEnemy) {
        return ;
    }
    let actors = vec![p];
    let np = w.projectiles.len();
    let mut kept: Vec<Projectile> = Vec::new();
    let mut j: usize = 0;
    proof {
        assert(w.projectiles@.take(0) =~= Seq::<Projectile>::empty());
        assert(actors@ =~= seq![p]);
    }
    while j < np
        invariant
            *w == *old(w),
            w.wf(),
            actors@ == seq![p],
            p.wf(),
            np == w.projectiles@.len(),
            j <= np,
            kept@ == surviving_projectiles(
                w.projectiles@.take(j as int),
                seq![p],
                Origin::FromEnemy,
            ),
            forall|k: int| 0 <= k < kept@.len() ==> kept@[k].wf(),
        decreases np - j,
    {
        let l = w.projectiles[j];
        proof {
            assert(w.projectiles@.take(j as int + 1).drop_last() =~= w.projectiles@.take(
                j as int,
            ));
            assert(w.projectiles@.take(j as int + 1).last() == l);
        }
        let spent = match l.origin {
            Origin::FromEnemy => hits_any_actor(&l, &actors),
            Origin::FromPlayer => false,
        };
        if !spent {
            kept.push(l);
        }
        j = j + 1;
    }
    proof {
        assert(w.projectiles@.take(np as int) =~= w.projectiles@);
    }
    w.projectiles = kept;
    w.player = None;
    w.player_state.shot(now);
    w.effects.push(PendingEffect { x: p.x, y: p.y, z: p.z });
}

/// Collision dedup law: an actor overlapped by two simultaneous shots of
/// the opposing class is destroyed exactly once and emits exactly one
/// effect-spawn request, and both shots are despawned.
pub proof fn lemma_collision_dedup(e: Actor, l1: Projectile, l2: Projectile, o: Origin)
    requires
        l1.origin == o,
        l2.origin == o,
        hits(l1, e),
        hits(l2, e),
    ensures
        surviving_actors(seq![e], seq![l1, l2], o) == Seq::<Actor>::empty(),
        blast_effects(seq![e], seq![l1, l2], o) == seq![
            PendingEffect { x: e.x, y: e.y, z: e.z },
        ],
        surviving_projectiles(seq![l1, l2], seq![e], o) == Seq::<Projectile>::empty(),
{
    let ls = seq![l1, l2];
    let es = seq![e];
    assert(ls[0] == l1 && ls[1] == l2 && es[0] == e);
    assert(hit_by_class(e, ls, o)) by {
        assert(ls[0].origin == o && hits(ls[0], e));
    }
    assert(es.drop_last() =~= Seq::<Actor>::empty());
    assert(surviving_actors(Seq::<Actor>::empty(), ls, o) == Seq::<Actor>::empty());
    assert(blast_effects(Seq::<Actor>::empty(), ls, o) == Seq::<PendingEffect>::empty());
    assert(es.last() == e);
    assert(surviving_actors(es, ls, o) =~= Seq::<Actor>::empty());
    assert(blast_effects(es, ls, o) =~= seq![PendingEffect { x: e.x, y: e.y, z: e.z }]);
    assert(ls.drop_last() =~= seq![l1]);
    assert(seq![l1].drop_last() =~= Seq::<Projectile>::empty());
    assert(surviving_projectiles(Seq::<Projectile>::empty(), es, o) == Seq::<Projectile>::empty());
    assert(seq![l1].last() == l1 && ls.last() == l2);
    assert(exists|j: int| 0 <= j < es.len() && hits(l1, es[j])) by {
        assert(hits(l1, es[0]));
    }
    assert(exists|j: int| 0 <= j < es.len() && hits(l2, es[j])) by {
        assert(hits(l2, es[0]));
    }
    assert(surviving_projectiles(seq![l1], es, o) =~= Seq::<Projectile>::empty());
    assert(surviving_projectiles(ls, es, o) =~= Seq::<Projectile>::empty());
}

} // verus!
