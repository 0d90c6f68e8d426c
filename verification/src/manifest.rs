//! Skill manifestations: free-standing, independently ticking effect
//! entities produced by a skill cast — a static area trigger that
//! re-applies a status on collision, and a projectile that chases its
//! target and detonates on arrival.
//!
//! A registry owns the live manifestations and drives their per-tick
//! update against the tick's collision events, removing each one as soon
//! as its own update signals completion.

use vstd::prelude::*;

verus! {

use crate::chars::{CharEntityId, CharacterStore};
use crate::context::{ApplyStatusComponent, AreaAttackComponent, AreaShape, ActionPlayMode,
    DamageDisplayType, HpModificationRequest, HpModificationType, StrEffectComponent,
    StrEffectType, SystemVariables, DT_LIMIT_MS};
use crate::geom::{spec_advance2, spec_dist2, advance2, dist2, trunc_div, Vec2Fx, COORD_LIMIT};
use crate::status::{PoisonStatus, StatusEnum, DAMAGE_LIMIT};
use crate::status_engine::{without_markers_of, StatusEngine};
use crate::time::{ElapsedTime, TIME_LIMIT_MS};

/// Cooldown of a status-applier area between two triggers, in
/// milliseconds.
pub const AREA_STATUS_COOLDOWN_MS: i64 = 2_000;

/// A projectile detonates once it is at most this far from its target,
/// in milli-units.
pub const ARRIVAL_THRESHOLD: i64 = 2_000;

/// Bound on a projectile's speed, in milli-units per second; keeps the
/// per-tick step well inside the geometry limits.
pub const MOVING_SPEED_LIMIT: i64 = 1_000_000;

/// Identifies a collider created in the out-of-scope physics world.
#[derive(Clone, Copy, PartialEq, Eq, Structural, Debug)]
pub struct ColliderHandle(pub u64);

/// One collision event of the running tick, as the physics world reports
/// it: which character collider touched which other collider.
#[derive(Clone, Copy, PartialEq, Eq, Structural, Debug)]
pub struct Collision {
    pub character_entity_id: CharEntityId,
    pub other_coll_handle: ColliderHandle,
}

/// Builds the status a status-applier area plants on whatever walks into
/// it; the application time is filled in when the area triggers.
#[derive(Clone, Copy, PartialEq, Eq, Structural, Debug)]
pub enum StatusCreator {
    Poison { damage: i64, duration_ms: i64 },
}

impl StatusCreator {
    pub open spec fn wf(self) -> bool {
        match self {
            StatusCreator::Poison { damage, duration_ms } => {
                &&& 0 <= damage <= DAMAGE_LIMIT
                &&& 0 <= duration_ms <= TIME_LIMIT_MS
            },
        }
    }

    /// How long the created status lives, in milliseconds.
    pub open spec fn duration_of(self) -> int {
        match self {
            StatusCreator::Poison { duration_ms, .. } => duration_ms as int,
        }
    }

    /// Spec-level form of [`Self::make`].
    pub open spec fn spec_make(self, now: ElapsedTime, caster: CharEntityId) -> StatusEnum {
        match self {
            StatusCreator::Poison { damage, duration_ms } => StatusEnum::PoisonStatus(
                PoisonStatus {
                    poison_caster_entity_id: caster,
                    started: now,
                    until: ElapsedTime((now.0 + duration_ms) as i64),
                    next_damage_at: now,
                    damage,
                },
            ),
        }
    }

    /// Creates one fresh instance of the configured status, starting now.
    pub fn make(&self, now: ElapsedTime, caster: CharEntityId) -> (r: StatusEnum)
        requires
            self.wf(),
            now.wf(),
            now.0 + self.duration_of() <= TIME_LIMIT_MS,
        ensures
            r == self.spec_make(now, caster),
            r.wf(),
    {
        match *self {
            StatusCreator::Poison { damage, duration_ms } => StatusEnum::PoisonStatus(
                PoisonStatus {
                    poison_caster_entity_id: caster,
                    started: now,
                    until: ElapsedTime(now.0 + duration_ms),
                    next_damage_at: now,
                    damage,
                },
            ),
        }
    }
}

/// A static collider region that periodically re-applies a status to
/// every character colliding with it, gated by one shared cooldown.
#[derive(Clone, Copy)]
pub struct StatusApplierArea {
    pub collider_handle: ColliderHandle,
    pub extents: Vec2Fx,
    pub pos: Vec2Fx,
    pub status_creator: StatusCreator,
    pub caster_entity_id: CharEntityId,
    pub next_action_at: ElapsedTime,
}

/// The status-application requests one area trigger enqueues: one per
/// collision of this tick that involves the area's own collider, in
/// event order.
pub open spec fn area_requests(
    init: Seq<ApplyStatusComponent>,
    collisions: Seq<Collision>,
    handle: ColliderHandle,
    caster: CharEntityId,
    creator: StatusCreator,
    now: ElapsedTime,
) -> Seq<ApplyStatusComponent>
    decreases collisions.len(),
{
    if collisions.len() == 0 {
        init
    } else {
        let prev = area_requests(init, collisions.drop_last(), handle, caster, creator, now);
        if collisions.last().other_coll_handle == handle {
            prev.push(
                ApplyStatusComponent {
                    source_entity_id: caster,
                    target_entity_id: collisions.last().character_entity_id,
                    status: creator.spec_make(now, caster),
                },
            )
        } else {
            prev
        }
    }
}

/// The one-shot explosion effect a detonating projectile schedules.
pub open spec fn spec_explosion_effect(target_pos: Vec2Fx, now: ElapsedTime) -> StrEffectComponent {
    StrEffectComponent {
        effect_id: StrEffectType::Explosion,
        pos: target_pos,
        start_time: now,
        die_at: None,
        play_mode: ActionPlayMode::Once,
    }
}

/// Whether any collision of the tick involves the area's collider.
pub open spec fn any_collision_matches(collisions: Seq<Collision>, handle: ColliderHandle) -> bool {
    exists|i: int| 0 <= i < collisions.len() && (#[trigger] collisions[i]).other_coll_handle
        == handle
}

impl StatusApplierArea {
    pub open spec fn wf(self) -> bool {
        &&& self.extents.wf()
        &&& self.pos.wf()
        &&& self.status_creator.wf()
        &&& self.next_action_at.wf()
    }

    /// A fresh area over an already-created physics collider; it may
    /// trigger immediately.
    pub fn new(
        status_creator: StatusCreator,
        skill_center: &Vec2Fx,
        size: Vec2Fx,
        caster_entity_id: CharEntityId,
        collider_handle: ColliderHandle,
    ) -> (r: StatusApplierArea)
        requires
            status_creator.wf(),
            skill_center.wf(),
            size.wf(),
        ensures
            r.wf(),
            r.collider_handle == collider_handle,
            r.pos == *skill_center,
            r.extents == size,
            r.status_creator == status_creator,
            r.caster_entity_id == caster_entity_id,
            r.next_action_at.0 == 0,
    {
        StatusApplierArea {
            collider_handle,
            extents: size,
            pos: *skill_center,
            status_creator,
            caster_entity_id,
            next_action_at: ElapsedTime(0),
        }
    }

    /// One tick of the area: once the cooldown has elapsed, every
    /// character colliding with the area's collider this tick gets a
    /// status-application request (one shared cooldown serves all
    /// simultaneous collisions), and the first such burst starts the
    /// next cooldown of [`AREA_STATUS_COOLDOWN_MS`]; before that, or
    /// when nothing collides, nothing happens.
    pub fn update(
        &mut self,
        collisions: &Vec<Collision>,
        sys_vars: &mut SystemVariables,
    )
        requires
            old(self).wf(),
            old(sys_vars).wf(),
            old(sys_vars).time.0 + AREA_STATUS_COOLDOWN_MS <= TIME_LIMIT_MS,
            old(sys_vars).time.0 + old(self).status_creator.duration_of() <= TIME_LIMIT_MS,
        ensures
            final(self).wf(),
            final(sys_vars).wf(),
            final(sys_vars).time == old(sys_vars).time,
            final(sys_vars).dt_ms == old(sys_vars).dt_ms,
            final(sys_vars).hp_mod_requests@ == old(sys_vars).hp_mod_requests@,
            final(sys_vars).area_hp_mod_requests@ == old(sys_vars).area_hp_mod_requests@,
            final(sys_vars).str_effects@ == old(sys_vars).str_effects@,
            final(sys_vars).sound_effects@ == old(sys_vars).sound_effects@,
            final(sys_vars).apply_statuses@ == (if old(self).next_action_at.spec_has_already_passed(
                old(sys_vars).time,
            ) {
                area_requests(
                    old(sys_vars).apply_statuses@,
                    collisions@,
                    old(self).collider_handle,
                    old(self).caster_entity_id,
                    old(self).status_creator,
                    old(sys_vars).time,
                )
            } else {
                old(sys_vars).apply_statuses@
            }),
            final(self).next_action_at == (if old(self).next_action_at.spec_has_already_passed(
                old(sys_vars).time,
            ) && any_collision_matches(collisions@, old(self).collider_handle) {
                ElapsedTime((old(sys_vars).time.0 + AREA_STATUS_COOLDOWN_MS) as i64)
            } else {
                old(self).next_action_at
            }),
            final(self).collider_handle == old(self).collider_handle,
            final(self).pos == old(self).pos,
            final(self).extents == old(self).extents,
            final(self).status_creator == old(self).status_creator,
            final(self).caster_entity_id == old(self).caster_entity_id,
    {
        let now = sys_vars.time;
        if self.next_action_at.has_already_passed(now) {
            let ghost reqs0 = sys_vars.apply_statuses@;
            let mut i: usize = 0;
            let n = collisions.len();
            let mut any: bool = false;
            while i < n
                invariant
                    self == old(self),
                    0 <= i <= n,
                    n == collisions@.len(),
                    self.wf(),
                    now.wf(),
                    now.0 + AREA_STATUS_COOLDOWN_MS <= TIME_LIMIT_MS,
                    now.0 + self.status_creator.duration_of() <= TIME_LIMIT_MS,
                    sys_vars.wf(),
                    sys_vars.time == now,
                    sys_vars.dt_ms == old(sys_vars).dt_ms,
                    sys_vars.hp_mod_requests@ == old(sys_vars).hp_mod_requests@,
                    sys_vars.area_hp_mod_requests@ == old(sys_vars).area_hp_mod_requests@,
                    sys_vars.str_effects@ == old(sys_vars).str_effects@,
                    sys_vars.sound_effects@ == old(sys_vars).sound_effects@,
                    sys_vars.apply_statuses@ == area_requests(
                        reqs0,
                        collisions@.subrange(0, i as int),
                        self.collider_handle,
                        self.caster_entity_id,
                        self.status_creator,
                        now,
                    ),
                    any == any_collision_matches(
                        collisions@.subrange(0, i as int),
                        self.collider_handle,
                    ),
                decreases n - i,
            {
                let coll = collisions[i];
                proof {
                    assert(collisions@.subrange(0, i + 1 as int).drop_last() =~= collisions@
                        .subrange(0, i as int));
                    assert(collisions@.subrange(0, i + 1 as int).last() == collisions@[
                        i as int]);
                }
                if coll.other_coll_handle.0 == self.collider_handle.0 {
                    let status = self.status_creator.make(now, self.caster_entity_id);
                    sys_vars.apply_statuses.push(
                        ApplyStatusComponent {
                            source_entity_id: self.caster_entity_id,
                            target_entity_id: coll.character_entity_id,
                            status,
                        },
                    );
                    any = true;
                    proof {
                        let sub = collisions@.subrange(0, i + 1 as int);
                        assert(sub[i as int].other_coll_handle == self.collider_handle);
                        assert(any_collision_matches(sub, self.collider_handle));
                    }
                } else {
                    proof {
                        let pre = collisions@.subrange(0, i as int);
                        let sub = collisions@.subrange(0, i + 1 as int);
                        assert(forall|j: int|
                            0 <= j < pre.len() ==> pre[j] == #[trigger] sub[j]);
                        assert(any_collision_matches(sub, self.collider_handle)
                            == any_collision_matches(pre, self.collider_handle));
                    }
                }
                i = i + 1;
            }
            proof {
                assert(collisions@.subrange(0, n as int) =~= collisions@);
            }
            if any {
                self.next_action_at = now.add_millis(AREA_STATUS_COOLDOWN_MS);
            }
        }
    }
}

/// Configuration of the pyro blast skill, resolved once at cast time.
#[derive(Clone, Copy, PartialEq, Eq, Structural, Debug)]
pub struct SkillConfigPyroBlastInner {
    /// Projectile speed, in milli-units per second.
    pub moving_speed: i64,
    /// Direct damage against the primary target.
    pub damage: i64,
    /// Splash damage against everything else in the blast disk.
    pub secondary_damage: i64,
    /// Radius of the blast disk, in milli-units.
    pub splash_radius: i64,
}

impl SkillConfigPyroBlastInner {
    pub open spec fn wf(self) -> bool {
        &&& 0 <= self.moving_speed <= MOVING_SPEED_LIMIT
        &&& 0 <= self.damage <= DAMAGE_LIMIT
        &&& 0 <= self.secondary_damage <= DAMAGE_LIMIT
        &&& 0 <= self.splash_radius <= COORD_LIMIT
    }
}

/// A mobile point that chases its target character and, on arrival,
/// deals direct damage plus splash damage around the target.
#[derive(Clone, Copy)]
pub struct PyroBlastManifest {
    pub caster_entity_id: CharEntityId,
    pub pos: Vec2Fx,
    pub target_entity_id: CharEntityId,
    pub created_at: ElapsedTime,
    pub configs: SkillConfigPyroBlastInner,
}

/// What one projectile tick decides.
#[derive(Clone, Copy, PartialEq, Eq, Structural, Debug)]
pub enum ManifestUpdateResult {
    Keep,
    Remove,
}

impl PyroBlastManifest {
    pub open spec fn wf(self) -> bool {
        &&& self.pos.wf()
        &&& self.created_at.wf()
        &&& self.configs.wf()
    }

    pub fn new(
        caster_entity_id: CharEntityId,
        pos: Vec2Fx,
        target_entity_id: CharEntityId,
        created_at: ElapsedTime,
        configs: SkillConfigPyroBlastInner,
    ) -> (r: PyroBlastManifest)
        requires
            pos.wf(),
            created_at.wf(),
            configs.wf(),
        ensures
            r.wf(),
            r.caster_entity_id == caster_entity_id,
            r.pos == pos,
            r.target_entity_id == target_entity_id,
            r.created_at == created_at,
            r.configs == configs,
    {
        PyroBlastManifest { caster_entity_id, pos, target_entity_id, created_at, configs }
    }

    /// The distance the projectile travels in one tick, in milli-units.
    pub open spec fn spec_step(self, dt_ms: int) -> int {
        trunc_div(self.configs.moving_speed * dt_ms, 1000)
    }

    /// The direct-damage request the projectile enqueues on arrival.
    pub open spec fn spec_direct_hit(self) -> HpModificationRequest {
        HpModificationRequest {
            src_entity: self.caster_entity_id,
            dst_entity: self.target_entity_id,
            typ: HpModificationType::SpellDamage(
                self.configs.damage,
                DamageDisplayType::SingleNumber,
            ),
        }
    }

    /// The splash request the projectile enqueues on arrival: a disk at
    /// the target's position that spares the target itself.
    pub open spec fn spec_splash_attack(self, target_pos: Vec2Fx) -> AreaAttackComponent {
        AreaAttackComponent {
            area_shape: AreaShape::Circle { radius: self.configs.splash_radius },
            area_pos: target_pos,
            source_entity_id: self.caster_entity_id,
            typ: HpModificationType::SpellDamage(
                self.configs.secondary_damage,
                DamageDisplayType::SingleNumber,
            ),
            except: Some(self.target_entity_id),
        }
    }

    /// One tick of the projectile.  The per-tick travel
    /// (`moving_speed * dt`) must not exceed the arrival threshold, so
    /// the projectile can never fly past its target between two ticks.
    ///
    /// If the target no longer exists the projectile is destroyed without
    /// dealing damage.  While the target is farther than the arrival
    /// threshold, the projectile moves toward the target's current
    /// position by `moving_speed * dt` and keeps flying.  On reaching the
    /// threshold it enqueues exactly one direct-damage request against
    /// the target, exactly one splash-damage request over a disk at the
    /// target's position that excludes the target itself, schedules a
    /// one-shot explosion there, strips this caster's blast marker from
    /// the target, and is destroyed.
    pub fn update(
        &mut self,
        sys_vars: &mut SystemVariables,
        store: &CharacterStore,
        engine: &mut StatusEngine,
    ) -> (r: ManifestUpdateResult)
        requires
            old(self).wf(),
            old(sys_vars).wf(),
            store.wf(),
            old(engine).wf(),
            trunc_div(
                old(self).configs.moving_speed * old(sys_vars).dt_ms as int,
                1000,
            ) <= ARRIVAL_THRESHOLD,
        ensures
            final(self).wf(),
            final(sys_vars).wf(),
            final(engine).wf(),
            final(sys_vars).time == old(sys_vars).time,
            final(sys_vars).dt_ms == old(sys_vars).dt_ms,
            final(sys_vars).apply_statuses@ == old(sys_vars).apply_statuses@,
            final(sys_vars).sound_effects@ == old(sys_vars).sound_effects@,
            final(self).caster_entity_id == old(self).caster_entity_id,
            final(self).target_entity_id == old(self).target_entity_id,
            final(self).created_at == old(self).created_at,
            final(self).configs == old(self).configs,
            store.spec_get(old(self).target_entity_id) is None ==> {
                &&& r == ManifestUpdateResult::Remove
                &&& final(self).pos == old(self).pos
                &&& final(sys_vars).hp_mod_requests@ == old(sys_vars).hp_mod_requests@
                &&& final(sys_vars).area_hp_mod_requests@ == old(sys_vars).area_hp_mod_requests@
                &&& final(sys_vars).str_effects@ == old(sys_vars).str_effects@
                &&& forall|i: int| #[trigger]
                    final(engine).statuses_of(i) == old(engine).statuses_of(i)
            },
            store.spec_get(old(self).target_entity_id) is Some && spec_dist2(
                old(self).pos,
                store.spec_get(old(self).target_entity_id)->Some_0.pos,
            ) > ARRIVAL_THRESHOLD ==> {
                &&& r == ManifestUpdateResult::Keep
                &&& final(self).pos == spec_advance2(
                    old(self).pos,
                    store.spec_get(old(self).target_entity_id)->Some_0.pos,
                    old(self).spec_step(old(sys_vars).dt_ms as int),
                )
                &&& final(sys_vars).hp_mod_requests@ == old(sys_vars).hp_mod_requests@
                &&& final(sys_vars).area_hp_mod_requests@ == old(sys_vars).area_hp_mod_requests@
                &&& final(sys_vars).str_effects@ == old(sys_vars).str_effects@
                &&& forall|i: int| #[trigger]
                    final(engine).statuses_of(i) == old(engine).statuses_of(i)
            },
            store.spec_get(old(self).target_entity_id) is Some && spec_dist2(
                old(self).pos,
                store.spec_get(old(self).target_entity_id)->Some_0.pos,
            ) <= ARRIVAL_THRESHOLD ==> {
                &&& r == ManifestUpdateResult::Remove
                &&& final(self).pos == old(self).pos
                &&& final(sys_vars).hp_mod_requests@ == old(sys_vars).hp_mod_requests@.push(
                    old(self).spec_direct_hit(),
                )
                &&& final(sys_vars).area_hp_mod_requests@ == old(
                    sys_vars,
                ).area_hp_mod_requests@.push(
                    old(self).spec_splash_attack(
                        store.spec_get(old(self).target_entity_id)->Some_0.pos,
                    ),
                )
                &&& final(sys_vars).str_effects@ == old(sys_vars).str_effects@.push(
                    spec_explosion_effect(
                        store.spec_get(old(self).target_entity_id)->Some_0.pos,
                        old(sys_vars).time,
                    ),
                )
                &&& forall|i: int| #[trigger]
                    final(engine).statuses_of(i) == (if i == old(self).target_entity_id.0 as int {
                        without_markers_of(
                            old(engine).statuses_of(i),
                            old(self).caster_entity_id,
                        )
                    } else {
                        old(engine).statuses_of(i)
                    })
            },
    {
        let maybe_target = store.get_char(self.target_entity_id);
        match maybe_target {
            None => ManifestUpdateResult::Remove,
            Some(target_char) => {
                let target_pos = target_char.pos();
                let d2 = dist_sq_exceeds(&self.pos, &target_pos);
                if d2 {
                    let step = compute_step(self.configs.moving_speed, sys_vars.dt_ms);
                    self.pos = advance2(&self.pos, &target_pos, step);
                    ManifestUpdateResult::Keep
                } else {
                    sys_vars.hp_mod_requests.push(
                        HpModificationRequest {
                            src_entity: self.caster_entity_id,
                            dst_entity: self.target_entity_id,
                            typ: HpModificationType::SpellDamage(
                                self.configs.damage,
                                DamageDisplayType::SingleNumber,
                            ),
                        },
                    );
                    sys_vars.area_hp_mod_requests.push(
                        AreaAttackComponent {
                            area_shape: AreaShape::Circle { radius: self.configs.splash_radius },
                            area_pos: target_pos,
                            source_entity_id: self.caster_entity_id,
                            typ: HpModificationType::SpellDamage(
                                self.configs.secondary_damage,
                                DamageDisplayType::SingleNumber,
                            ),
                            except: Some(self.target_entity_id),
                        },
                    );
                    sys_vars.str_effects.push(
                        StrEffectComponent {
                            effect_id: StrEffectType::Explosion,
                            pos: target_pos,
                            start_time: sys_vars.time,
                            die_at: None,
                            play_mode: ActionPlayMode::Once,
                        },
                    );
                    engine.remove_marker_from_caster(self.target_entity_id, self.caster_entity_id);
                    ManifestUpdateResult::Remove
                }
            },
        }
    }
}

/// Whether two points are farther apart than the arrival threshold.
fn dist_sq_exceeds(a: &Vec2Fx, b: &Vec2Fx) -> (r: bool)
    requires
        a.wf(),
        b.wf(),
    ensures
        r == (spec_dist2(*a, *b) > ARRIVAL_THRESHOLD),
{
    let d = dist2(a, b);
    d > ARRIVAL_THRESHOLD
}

/// The per-tick travel of a projectile: `speed * dt`, in milli-units.
fn compute_step(moving_speed: i64, dt_ms: i64) -> (r: i64)
    requires
        0 <= moving_speed <= MOVING_SPEED_LIMIT,
        0 < dt_ms <= DT_LIMIT_MS,
    ensures
        r == trunc_div(moving_speed * dt_ms as int, 1000),
        0 <= r,
{
    proof {
        assert(0 <= moving_speed * dt_ms <= MOVING_SPEED_LIMIT * DT_LIMIT_MS)
            by (nonlinear_arith)
            requires
                0 <= moving_speed <= MOVING_SPEED_LIMIT,
                0 < dt_ms <= DT_LIMIT_MS,
        ;
    }
    crate::geom::div_trunc(moving_speed * dt_ms, 1000)
}

/// The projectile's position after `k` flying ticks toward a stationary
/// target: each tick advances by `step`, exactly as
/// [`PyroBlastManifest::update`] moves the projectile (with
/// `step == PyroBlastManifest::spec_step(dt)`) while the target is still
/// beyond the arrival threshold.
pub open spec fn spec_chase(pos: Vec2Fx, target: Vec2Fx, step: int, k: nat) -> Vec2Fx
    decreases k,
{
    if k == 0 {
        pos
    } else {
        spec_advance2(spec_chase(pos, target, step, (k - 1) as nat), target, step)
    }
}

/// Timing law of the straight-line chase: a projectile flying toward a
/// stationary collinear target covers exactly `step` milli-units per
/// tick, so after `k` ticks the remaining distance is exactly
/// `d0 - k*step` until it is consumed.  In particular the target is
/// still beyond the arrival threshold exactly while
/// `k*step < d0 - ARRIVAL_THRESHOLD`, so the projectile detonates on the
/// first tick `k` with `k*step >= d0 - ARRIVAL_THRESHOLD`; at
/// `step = speed*dt/1000` that is `(d0 - ARRIVAL_THRESHOLD)/speed`
/// seconds of simulated time, within one tick.
pub proof fn lemma_straight_chase_arrival(pos: Vec2Fx, target: Vec2Fx, step: int, k: nat)
    requires
        pos.wf(),
        target.wf(),
        pos.y == target.y,
        0 <= step,
    ensures
        spec_chase(pos, target, step, k).y == pos.y,
        pos.x <= target.x ==> pos.x <= spec_chase(pos, target, step, k).x <= target.x,
        pos.x >= target.x ==> target.x <= spec_chase(pos, target, step, k).x <= pos.x,
        spec_dist2(spec_chase(pos, target, step, k), target) == (if k * step >= spec_dist2(
            pos,
            target,
        ) {
            0
        } else {
            spec_dist2(pos, target) - k * step
        }),
        k * step < spec_dist2(pos, target) - ARRIVAL_THRESHOLD ==> spec_dist2(
            spec_chase(pos, target, step, k),
            target,
        ) > ARRIVAL_THRESHOLD,
        k * step >= spec_dist2(pos, target) - ARRIVAL_THRESHOLD ==> spec_dist2(
            spec_chase(pos, target, step, k),
            target,
        ) <= ARRIVAL_THRESHOLD,
    decreases k,
{
    crate::geom::lemma_collinear_advance(pos, target, 0);
    if k == 0 {
        assert(k * step == 0) by (nonlinear_arith)
            requires
                k == 0,
        ;
    } else {
        lemma_straight_chase_arrival(pos, target, step, (k - 1) as nat);
        let cur = spec_chase(pos, target, step, (k - 1) as nat);
        assert(cur.wf());
        crate::geom::lemma_collinear_advance(cur, target, step);
        crate::geom::lemma_collinear_advance(cur, target, 0);
        assert(k * step == (k - 1) * step + step) by (nonlinear_arith)
            requires
                k >= 1,
        ;
        assert((k - 1) * step >= 0) by (nonlinear_arith)
            requires
                k >= 1,
                step >= 0,
        ;
    }
}

} // verus!
