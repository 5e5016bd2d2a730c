//! Explosion lifecycle: pending effect markers become animation entities,
//! and a repeating timer advances each animation until its final frame.

use vstd::prelude::*;
use crate::world::Config;
use crate::world::Explosion;
use crate::world::MAX_PERIOD;
use crate::world::PendingEffect;
use crate::world::Timer;
use crate::world::World;

verus! {

/// The explosion entity a pending effect turns into: the marker's position,
/// frame index zero, and a fresh repeating timer at the configured interval.
pub open spec fn explosion_of(fx: PendingEffect, c: Config) -> Explosion {
    Explosion { x: fx.x, y: fx.y, z: fx.z, frame: 0, timer: Timer { period: c.explosion_period, acc: 0 } }
}

/// The explosions spawned from a list of pending effects, in order.
pub open spec fn spawned_explosions(fx: Seq<PendingEffect>, c: Config) -> Seq<Explosion>
    decreases fx.len(),
{
    if fx.len() == 0 {
        Seq::empty()
    } else {
        spawned_explosions(fx.drop_last(), c).push(explosion_of(fx.last(), c))
    }
}

/// Spawn phase: every pending effect marker becomes one explosion entity at
/// the marker's position, and the marker is destroyed.
pub fn explosion_to_spawn(w: &mut World)
    requires
        old(w).wf(),
    ensures
        final(w).wf(),
        final(w).explosions@ == old(w).explosions@ + spawned_explosions(
            old(w).effects@,
            old(w).cfg,
        ),
        final(w).effects@.len() == 0,
        *final(w) == (World {
            explosions: final(w).explosions,
            effects: final(w).effects,
            ..*old(w)
        }),
{
    let n = w.effects.len();
    let mut i: usize = 0;
    proof {
        assert(w.effects@.take(0) =~= Seq::<PendingEffect>::empty());
        assert(w.explosions@ + spawned_explosions(w.effects@.take(0), w.cfg) =~= w.explosions@);
    }
    while i < n
        invariant
            *w == (World { explosions: w.explosions, ..*old(w) }),
            w.wf(),
            n == w.effects@.len(),
            i <= n,
            w.explosions@ == old(w).explosions@ + spawned_explosions(
                w.effects@.take(i as int),
                w.cfg,
            ),
        decreases n - i,
    {
        let fx = w.effects[i];
        let e = Explosion {
            x: fx.x,
            y: fx.y,
            z: fx.z,
            frame: 0,
            timer: Timer { period: w.cfg.explosion_period, acc: 0 },
        };
        proof {
            assert(e == explosion_of(fx, w.cfg));
            assert(w.effects@.take(i as int + 1).drop_last() =~= w.effects@.take(i as int));
            assert(w.effects@.take(i as int + 1).last() == fx);
            assert((old(w).explosions@ + spawned_explosions(w.effects@.take(i as int), w.cfg))
                .push(e) =~= old(w).explosions@ + spawned_explosions(
                w.effects@.take(i as int + 1),
                w.cfg,
            ));
        }
        w.explosions.push(e);
        i = i + 1;
    }
    proof {
        assert(w.effects@.take(n as int) =~= w.effects@);
    }
    w.effects = Vec::new();
}

/// An explosion after `delta` elapsed milliseconds: the frame index grows
/// by one per whole timer interval elapsed, the remainder stays in the
/// timer's accumulator.
pub open spec fn advanced_explosion(e: Explosion, delta: u64) -> Explosion {
    Explosion {
        frame: (e.frame + e.timer.spec_fires(delta)) as u32,
        timer: e.timer.spec_after(delta),
        ..e
    }
}

/// Whether the explosion's frame index reaches the animation's total frame
/// count within `delta` elapsed milliseconds, which retires the entity.
pub open spec fn retired(e: Explosion, delta: u64, frames: u32) -> bool {
    e.frame + e.timer.spec_fires(delta) >= frames
}

/// Advance phase over a list of explosions: each advances by the elapsed
/// time and is despawned exactly when its frame index reaches the total
/// frame count. Order is preserved.
pub open spec fn animate_pass(s: Seq<Explosion>, delta: u64, frames: u32) -> Seq<Explosion>
    decreases s.len(),
{
    if s.len() == 0 {
        Seq::empty()
    } else {
        let rest = animate_pass(s.drop_last(), delta, frames);
        if retired(s.last(), delta, frames) {
            rest
        } else {
            rest.push(advanced_explosion(s.last(), delta))
        }
    }
}

/// Advance phase: ticks every explosion's repeating timer by the elapsed
/// real time; each time a timer fires the frame index advances by one, and
/// an explosion whose frame index reaches the animation's frame count is
/// despawned — never before, never later.
pub fn animate_explosion(w: &mut World, delta: u64)
    requires
        old(w).wf(),
        delta <= u64::MAX - MAX_PERIOD,
    ensures
        final(w).wf(),
        final(w).explosions@ == animate_pass(
            old(w).explosions@,
            delta,
            old(w).cfg.materials.explosion_frames,
        ),
        *final(w) == (World { explosions: final(w).explosions, ..*old(w) }),
{
    let frames = w.cfg.materials.explosion_frames;
    let n = w.explosions.len();
    let mut out: Vec<Explosion> = Vec::new();
    let mut i: usize = 0;
    proof {
        assert(w.explosions@.take(0) =~= Seq::<Explosion>::empty());
    }
    while i < n
        invariant
            *w == *old(w),
            w.wf(),
            frames == w.cfg.materials.explosion_frames,
            n == w.explosions@.len(),
            i <= n,
            delta <= u64::MAX - MAX_PERIOD,
            out@ == animate_pass(w.explosions@.take(i as int), delta, frames),
            forall|k: int| 0 <= k < out@.len() ==> out@[k].wf(frames),
        decreases n - i,
    {
        let e = w.explosions[i];
        proof {
            assert(w.explosions@.take(i as int + 1).drop_last() =~= w.explosions@.take(i as int));
            assert(w.explosions@.take(i as int + 1).last() == e);
        }
        let total = e.timer.acc + delta;
        let fired = total / e.timer.period;
        let remaining = (frames - e.frame) as u64;
        if fired < remaining {
            let adv = Explosion {
                frame: e.frame + fired as u32,
                timer: Timer { period: e.timer.period, acc: total % e.timer.period },
                ..e
            };
            assert(adv == advanced_explosion(e, delta));
            out.push(adv);
        }
        i = i + 1;
    }
    proof {
        assert(w.explosions@.take(n as int) =~= w.explosions@);
    }
    w.explosions = out;
}

/// Explosion lifecycle law: over any elapsed time, an explosion's frame
/// index advances by exactly one per whole timer interval elapsed, and the
/// entity is despawned exactly when the frame index reaches the animation's
/// total frame count.
pub proof fn lemma_explosion_lifecycle(e: Explosion, delta: u64, frames: u32)
    requires
        e.wf(frames),
    ensures
        advanced_explosion(e, delta).frame == e.frame + e.timer.spec_fires(delta) || retired(
            e,
            delta,
            frames,
        ),
        !retired(e, delta, frames) ==> animate_pass(seq![e], delta, frames) == seq![
            advanced_explosion(e, delta),
        ],
        retired(e, delta, frames) ==> animate_pass(seq![e], delta, frames) == Seq::<
            Explosion,
        >::empty(),
        e.timer.acc + delta < e.timer.period ==> e.timer.spec_fires(delta) == 0,
        e.timer.acc + delta == e.timer.period ==> e.timer.spec_fires(delta) == 1,
{
    if e.timer.acc + delta < e.timer.period {
        assert((e.timer.acc + delta) / (e.timer.period as int) == 0) by (nonlinear_arith)
            requires
                0 <= e.timer.acc + delta < e.timer.period,
        ;
    }
    if e.timer.acc + delta == e.timer.period {
        assert((e.timer.acc + delta) / (e.timer.period as int) == 1) by (nonlinear_arith)
            requires
                e.timer.acc + delta == e.timer.period && e.timer.period >= 1,
        ;
    }
    let s = seq![e];
    assert(s.drop_last() =~= Seq::<Explosion>::empty());
    assert(animate_pass(Seq::<Explosion>::empty(), delta, frames) == Seq::<Explosion>::empty());
    assert(s.last() == e);
    if !retired(e, delta, frames) {
        assert(animate_pass(s, delta, frames) =~= seq![advanced_explosion(e, delta)]);
        assert(e.frame + e.timer.spec_fires(delta) < frames);
        assert(advanced_explosion(e, delta).frame == e.frame + e.timer.spec_fires(delta));
    } else {
        assert(animate_pass(s, delta, frames) =~= Seq::<Explosion>::empty());
    }
}

} // verus!
