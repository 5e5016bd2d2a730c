//! The entity store and shared simulation state: projectiles, actors,
//! pending effects, explosions, the enemy counter and the player control
//! state, together with the configuration every controller reads.

use vstd::prelude::*;
use crate::texture::Size;
use crate::texture::spec_size;

verus! {

/// Bound on footprint dimensions, offsets and field half-extents, so that
/// every product and sum in the simulation fits in the machine integers.
pub const MAX_LEN: i64 = 0x4000_0000;
/// Bound on the magnitude of a scale factor (in thousandths).
pub const MAX_SCALE: i64 = 0x4000_0000;
/// Bound on a speed magnitude (length units per second).
pub const MAX_SPEED: i64 = 0x4000_0000;
/// Bound on the numerator and denominator of the fixed timestep.
pub const MAX_DT: i64 = 0x4000_0000;
/// Bound on a repeating timer's period in milliseconds.
pub const MAX_PERIOD: u64 = 0x1_0000_0000;
/// Scale factors are stored in thousandths of a unit.
pub const SCALE_DEN: i64 = 1000;

/// Which actor class fired a projectile; fixes its movement direction and
/// which actor class it may collide with.
#[derive(Clone, Copy, PartialEq, Eq, Structural, Debug)]
pub enum Origin {
    FromPlayer,
    FromEnemy,
}

/// Movement direction of a projectile: player shots move toward increasing
/// y, enemy shots toward decreasing y.
pub open spec fn sign(o: Origin) -> int {
    match o {
        Origin::FromPlayer => 1,
        Origin::FromEnemy => -1,
    }
}

/// Addition on i64 values that saturates at the machine bounds instead of
/// wrapping; inside the play field it is plain addition.
pub open spec fn sat_add64(a: int, b: int) -> i64 {
    if a + b > i64::MAX as int {
        i64::MAX
    } else if a + b < i64::MIN as int {
        i64::MIN
    } else {
        (a + b) as i64
    }
}

/// Saturating i64 addition; exact addition whenever the sum is in range.
pub fn sat_add_i64(a: i64, b: i64) -> (r: i64)
    ensures
        r == sat_add64(a as int, b as int),
{
    if b >= 0 {
        if a <= i64::MAX - b {
            a + b
        } else {
            i64::MAX
        }
    } else {
        if a >= i64::MIN - b {
            a + b
        } else {
            i64::MIN
        }
    }
}

/// A projectile: position, scale (thousandths; a negative y-scale encodes
/// the sprite flip of downward shots), optional asset footprint, speed
/// magnitude and the origin tag.
#[derive(Clone, Copy, Debug)]
pub struct Projectile {
    pub x: i64,
    pub y: i64,
    pub z: i64,
    pub scale_x: i64,
    pub scale_y: i64,
    pub asset: Option<Size>,
    pub speed: i64,
    pub origin: Origin,
}

/// A non-projectile entity eligible for collision: the player avatar or an
/// enemy.
#[derive(Clone, Copy, Debug)]
pub struct Actor {
    pub x: i64,
    pub y: i64,
    pub z: i64,
    pub scale_x: i64,
    pub scale_y: i64,
    pub asset: Option<Size>,
    pub speed: i64,
}

/// A transient "hit occurred here" marker, consumed exactly once by the
/// explosion lifecycle.
#[derive(Clone, Copy, Debug)]
pub struct PendingEffect {
    pub x: i64,
    pub y: i64,
    pub z: i64,
}

/// A repeating interval timer over milliseconds: fires once each time a
/// whole period of elapsed time has accumulated.
#[derive(Clone, Copy, Debug)]
pub struct Timer {
    pub period: u64,
    pub acc: u64,
}

/// An explosion animation entity: a position, the current frame index and
/// the repeating timer that drives frame advances.
#[derive(Clone, Copy, Debug)]
pub struct Explosion {
    pub x: i64,
    pub y: i64,
    pub z: i64,
    pub frame: u32,
    pub timer: Timer,
}

/// Whether the player avatar currently exists, and when it was last
/// destroyed; the respawn decision is gated on the timestamp externally.
#[derive(Clone, Copy, Debug)]
pub struct PlayerState {
    pub on: bool,
    pub last_shot: u64,
}

/// The asset footprints every spawn path attaches, and the frame count of
/// the explosion animation sheet.
#[derive(Clone, Copy, Debug)]
pub struct Materials {
    pub player: Option<Size>,
    pub player_laser: Option<Size>,
    pub enemy: Option<Size>,
    pub enemy_laser: Option<Size>,
    pub explosion_frames: u32,
}

/// Simulation configuration: field half-extents, the fixed timestep as a
/// fraction of a second, spawn offsets, cadences and the asset table.
/// Lengths are in caller-chosen integer units; times in milliseconds.
#[derive(Clone, Copy, Debug)]
pub struct Config {
    /// Half the play-field width.
    pub half_w: i64,
    /// Half the play-field height; also the one-sided projectile cull bound.
    pub half_h: i64,
    /// Inset from the half-extents for random enemy placement.
    pub margin: i64,
    /// Fixed timestep numerator, in seconds.
    pub dt_num: i64,
    /// Fixed timestep denominator.
    pub dt_den: i64,
    /// Scale attached to spawned entities, in thousandths.
    pub scale: i64,
    /// Default speed magnitude, units per second.
    pub speed: i64,
    /// Horizontal offset of the player's two shots.
    pub fire_x_offset: i64,
    /// Vertical offset of the player's shots above the player.
    pub fire_y_offset: i64,
    /// Vertical offset of an enemy's shot below the enemy.
    pub enemy_fire_y_offset: i64,
    /// Height of the player spawn point above the field's bottom edge.
    pub player_y_offset: i64,
    /// Cap on concurrently live enemies.
    pub enemy_cap: u32,
    /// Cadence of the enemy spawn controller, milliseconds.
    pub enemy_spawn_period: u64,
    /// Cadence of the enemy fire controller, milliseconds.
    pub enemy_fire_period: u64,
    /// Interval of an explosion's frame-advance timer, milliseconds.
    pub explosion_period: u64,
    /// Delay before a destroyed player may respawn, milliseconds.
    pub respawn_delay: u64,
    /// Asset footprints and the explosion frame count.
    pub materials: Materials,
}

impl Size {
    /// Dimensions are non-negative and small enough for exact products.
    pub open spec fn wf(self) -> bool {
        0 <= self.w <= MAX_LEN && 0 <= self.h <= MAX_LEN
    }
}

/// Well-formedness of an optional asset footprint.
pub open spec fn wf_asset(a: Option<Size>) -> bool {
    match a {
        Some(s) => s.wf(),
        None => true,
    }
}

/// A scale factor is bounded in magnitude.
pub open spec fn wf_scale(s: i64) -> bool {
    -MAX_SCALE <= s <= MAX_SCALE
}

impl Projectile {
    pub open spec fn wf(self) -> bool {
        wf_asset(self.asset) && wf_scale(self.scale_x) && wf_scale(self.scale_y)
            && 0 <= self.speed <= MAX_SPEED
    }
}

impl Actor {
    pub open spec fn wf(self) -> bool {
        wf_asset(self.asset) && wf_scale(self.scale_x) && wf_scale(self.scale_y)
            && 0 <= self.speed <= MAX_SPEED
    }
}

impl Timer {
    /// The period is positive and bounded; the accumulator never holds a
    /// whole period.
    pub open spec fn wf(self) -> bool {
        1 <= self.period <= MAX_PERIOD && self.acc < self.period
    }

    /// How often a timer fires when `delta` milliseconds elapse.
    pub open spec fn spec_fires(self, delta: u64) -> int {
        (self.acc + delta) / (self.period as int)
    }

    /// The timer after `delta` milliseconds: the remainder stays in the
    /// accumulator.
    pub open spec fn spec_after(self, delta: u64) -> Timer {
        Timer { period: self.period, acc: ((self.acc + delta) % (self.period as int)) as u64 }
    }

    /// A fresh repeating timer with the given period.
    pub fn new(period: u64) -> (r: Timer)
        requires
            1 <= period <= MAX_PERIOD,
        ensures
            r == (Timer { period, acc: 0u64 }),
            r.wf(),
    {
        Timer { period, acc: 0 }
    }

    /// Advances the timer by `delta` elapsed milliseconds and reports how
    /// often it fired.
    pub fn advance(&mut self, delta: u64) -> (n: u64)
        requires
            old(self).wf(),
            old(self).acc + delta <= u64::MAX,
        ensures
            n == old(self).spec_fires(delta),
            *final(self) == old(self).spec_after(delta),
            final(self).wf(),
    {
        let total = self.acc + delta;
        let n = total / self.period;
        self.acc = total % self.period;
        n
    }
}

impl Explosion {
    pub open spec fn wf(self, frames: u32) -> bool {
        self.timer.wf() && self.frame < frames
    }
}

impl PlayerState {
    /// Records that the player avatar was destroyed at the given time.
    pub fn shot(&mut self, time: u64)
        ensures
            *final(self) == (PlayerState { on: false, last_shot: time }),
    {
        self.on = false;
        self.last_shot = time;
    }

    /// Records that a player avatar now exists.
    pub fn spawned(&mut self)
        ensures
            *final(self) == (PlayerState { on: true, last_shot: 0u64 }),
    {
        self.on = true;
        self.last_shot = 0;
    }

    /// Whether the external respawn decision is due: the avatar is gone and
    /// at least `delay` milliseconds have passed since it was destroyed.
    pub fn respawn_due(&self, now: u64, delay: u64) -> (r: bool)
        ensures
            r == (!self.on && now >= self.last_shot + delay),
    {
        if !self.on {
            if now >= self.last_shot {
                now - self.last_shot >= delay
            } else {
                false
            }
        } else {
            false
        }
    }
}

impl Default for PlayerState {
    /// Initially no player avatar exists.
    fn default() -> (r: Self)
        ensures
            r == (PlayerState { on: false, last_shot: 0u64 }),
    {
        PlayerState { on: false, last_shot: 0 }
    }
}

impl Materials {
    pub open spec fn wf(self) -> bool {
        wf_asset(self.player) && wf_asset(self.player_laser) && wf_asset(self.enemy)
            && wf_asset(self.enemy_laser) && 1 <= self.explosion_frames
    }
}

impl Config {
    pub open spec fn wf(self) -> bool {
        0 <= self.margin && self.margin < self.half_w && self.margin < self.half_h
            && self.half_w <= MAX_LEN && self.half_h <= MAX_LEN
            && 0 <= self.dt_num <= MAX_DT && 1 <= self.dt_den <= MAX_DT
            && wf_scale(self.scale) && 0 <= self.speed <= MAX_SPEED
            && 0 <= self.fire_x_offset <= MAX_LEN && 0 <= self.fire_y_offset <= MAX_LEN
            && 0 <= self.enemy_fire_y_offset <= MAX_LEN && 0 <= self.player_y_offset <= MAX_LEN
            && 1 <= self.enemy_spawn_period <= MAX_PERIOD
            && 1 <= self.enemy_fire_period <= MAX_PERIOD
            && 1 <= self.explosion_period <= MAX_PERIOD
            && self.materials.wf()
    }
}

/// Distance a projectile of the given speed covers in one fixed timestep:
/// speed times the timestep fraction, in integer arithmetic.
pub open spec fn step_len(speed: i64, c: Config) -> int {
    (speed * c.dt_num) / (c.dt_den as int)
}

/// A projectile advanced by one fixed timestep: its y-coordinate moves by
/// `sign(origin) * speed * dt`; nothing else changes.
pub open spec fn advanced(p: Projectile, c: Config) -> Projectile {
    Projectile { y: sat_add64(p.y as int, sign(p.origin) * step_len(p.speed, c)), ..p }
}

/// One movement-and-culling pass over the projectiles of one origin class:
/// each such projectile is advanced and then dropped exactly when its new
/// y-coordinate exceeds the field's half-height (the one-sided bound);
/// projectiles of the other class are untouched. Order is preserved.
pub open spec fn move_pass(s: Seq<Projectile>, o: Origin, c: Config) -> Seq<Projectile>
    decreases s.len(),
{
    if s.len() == 0 {
        Seq::empty()
    } else {
        let rest = move_pass(s.drop_last(), o, c);
        let p = s.last();
        if p.origin == o {
            let q = advanced(p, c);
            if q.y <= c.half_h {
                rest.push(q)
            } else {
                rest
            }
        } else {
            rest.push(p)
        }
    }
}

/// Runs one movement-and-culling pass for the given origin class against
/// the store's projectile list.
pub(crate) fn movement_pass(w: &mut World, o: Origin)
    requires
        old(w).wf(),
    ensures
        final(w).wf(),
        final(w).projectiles@ == move_pass(old(w).projectiles@, o, old(w).cfg),
        *final(w) == (World { projectiles: final(w).projectiles, ..*old(w) }),
{
    let n = w.projectiles.len();
    let mut out: Vec<Projectile> = Vec::new();
    let mut i: usize = 0;
    while i < n
        invariant
            *w == *old(w),
            w.wf(),
            n == w.projectiles@.len(),
            i <= n,
            out@ == move_pass(w.projectiles@.take(i as int), o, w.cfg),
            forall|k: int| 0 <= k < out@.len() ==> out@[k].wf(),
        decreases n - i,
    {
        let p = w.projectiles[i];
        proof {
            assert(w.projectiles@.take(i as int + 1).drop_last() =~= w.projectiles@.take(i as int));
            assert(w.projectiles@.take(i as int + 1).last() == p);
        }
        let same_class = match (p.origin, o) {
            (Origin::FromPlayer, Origin::FromPlayer) => true,
            (Origin::FromEnemy, Origin::FromEnemy) => true,
            _ => false,
        };
        if same_class {
            proof {
                assert(0 <= p.speed * w.cfg.dt_num <= MAX_SPEED * MAX_DT) by (nonlinear_arith)
                    requires
                        0 <= p.speed <= MAX_SPEED,
                        0 <= w.cfg.dt_num <= MAX_DT,
                ;
            }
            let d = p.speed * w.cfg.dt_num / w.cfg.dt_den;
            let dy = match p.origin {
                Origin::FromPlayer => d,
                Origin::FromEnemy => -d,
            };
            assert(dy == sign(p.origin) * step_len(p.speed, w.cfg));
            let q = Projectile { y: sat_add_i64(p.y, dy), ..p };
            assert(q == advanced(p, w.cfg));
            if q.y <= w.cfg.half_h {
                out.push(q);
            }
        } else {
            out.push(p);
        }
        i = i + 1;
    }
    proof {
        assert(w.projectiles@.take(n as int) =~= w.projectiles@);
    }
    w.projectiles = out;
}

/// Movement law: over one pass a projectile's y-coordinate advances by
/// exactly `sign(origin) * speed * dt`; the projectile is despawned exactly
/// when the new y-coordinate exceeds the field's half-height bound, and
/// retained otherwise.
pub proof fn lemma_projectile_motion(p: Projectile, c: Config)
    requires
        i64::MIN <= p.y + sign(p.origin) * step_len(p.speed, c) <= i64::MAX,
    ensures
        advanced(p, c).y == p.y + sign(p.origin) * step_len(p.speed, c),
        advanced(p, c).y <= c.half_h ==> move_pass(seq![p], p.origin, c) == seq![advanced(p, c)],
        advanced(p, c).y > c.half_h ==> move_pass(seq![p], p.origin, c) == Seq::<
            Projectile,
        >::empty(),
{
    assert(seq![p].drop_last() =~= Seq::<Projectile>::empty());
    assert(move_pass(Seq::<Projectile>::empty(), p.origin, c) == Seq::<Projectile>::empty());
    assert(seq![p].last() == p);
    if advanced(p, c).y <= c.half_h {
        assert(move_pass(seq![p], p.origin, c) =~= seq![advanced(p, c)]);
    } else {
        assert(move_pass(seq![p], p.origin, c) =~= Seq::<Projectile>::empty());
    }
}

/// The shared entity store and the resource counters beside it.
#[derive(Debug)]
pub struct World {
    pub cfg: Config,
    pub projectiles: Vec<Projectile>,
    pub enemies: Vec<Actor>,
    pub player: Option<Actor>,
    pub active_enemies: u32,
    pub player_ready_fire: bool,
    pub player_state: PlayerState,
    pub effects: Vec<PendingEffect>,
    pub explosions: Vec<Explosion>,
}

impl World {
    /// The store's invariant: every entity is well-formed, the enemy counter
    /// equals the number of live enemies, and no explosion has reached the
    /// final frame of the animation sheet.
    pub open spec fn wf(self) -> bool {
        self.cfg.wf()
            && (forall|i: int| 0 <= i < self.projectiles@.len() ==> self.projectiles@[i].wf())
            && (forall|i: int| 0 <= i < self.enemies@.len() ==> self.enemies@[i].wf())
            && (match self.player {
                Some(p) => p.wf(),
                None => true,
            })
            && self.active_enemies as int == self.enemies@.len()
            && (forall|i: int|
                0 <= i < self.explosions@.len() ==> self.explosions@[i].wf(
                    self.cfg.materials.explosion_frames,
                ))
    }

    /// An empty world over the given configuration.
    pub fn new(cfg: Config) -> (w: World)
        requires
            cfg.wf(),
        ensures
            w.wf(),
            w.cfg == cfg,
            w.projectiles@.len() == 0,
            w.enemies@.len() == 0,
            w.player is None,
            w.active_enemies == 0,
            w.player_ready_fire == false,
            w.player_state == (PlayerState { on: false, last_shot: 0u64 }),
            w.effects@.len() == 0,
            w.explosions@.len() == 0,
    {
        World {
            cfg,
            projectiles: Vec::new(),
            enemies: Vec::new(),
            player: None,
            active_enemies: 0,
            player_ready_fire: false,
            player_state: PlayerState { on: false, last_shot: 0 },
            effects: Vec::new(),
            explosions: Vec::new(),
        }
    }
}

} // verus!
