//! Timed statuses: effects attached to a character that contribute
//! attribute modifiers and periodic actions between an application time
//! and an expiry time.
//!
//! Every status follows the same life cycle: applied once, updated once
//! per tick, removed by the engine the first time its expiry has passed.
//! A status without an expiry (the blast-marker status) lives until it is
//! explicitly stripped by the skill that planted it.

use vstd::prelude::*;

verus! {

use crate::attr::{CharAttributeModifier, CharAttributeModifierCollector, ModifierEntry,
    MODIFIER_CAP, MODIFIER_PCT_LIMIT, Percentage};
use crate::chars::{BasicAttackType, CharEntityId, CharacterStateComponent};
use crate::context::{HpModificationRequest, HpModificationType};
use crate::geom::{Vec2Fx, COORD_LIMIT};
use crate::time::{ElapsedTime, TIME_LIMIT_MS};

/// Fixed period of the poison's damage-over-time effect, in milliseconds.
pub const POISON_PERIOD_MS: i64 = 1_000;

/// Bound on a single damage or heal amount.
pub const DAMAGE_LIMIT: i64 = 1_000_000_000;

/// Whether the engine keeps or detaches a status after a tick update.
#[derive(Clone, Copy, PartialEq, Eq, Structural, Debug)]
pub enum StatusUpdateResult {
    KeepIt,
    RemoveIt,
}

/// Whether a status helps, harms, or merely marks its bearer.
#[derive(Clone, Copy, PartialEq, Eq, Structural, Debug)]
pub enum StatusNature {
    Supportive,
    Harmful,
    Neutral,
}

/// A whole-body buff that raises every combat attribute by a percentage
/// and switches the bearer to ranged basic attacks while it lasts.
#[derive(Clone, Copy, PartialEq, Eq, Structural, Debug)]
pub struct ExoSkeletonStatus {
    pub started: ElapsedTime,
    pub until: ElapsedTime,
    pub armor: Percentage,
    pub attack_range: Percentage,
    pub movement_speed: Percentage,
    pub attack_damage: Percentage,
    pub attack_speed: Percentage,
}

impl ExoSkeletonStatus {
    pub open spec fn wf(self) -> bool {
        &&& self.started.wf()
        &&& self.until.wf()
        &&& self.started.0 <= self.until.0
        &&& -MODIFIER_PCT_LIMIT <= self.armor.0 <= MODIFIER_PCT_LIMIT
        &&& -MODIFIER_PCT_LIMIT <= self.attack_range.0 <= MODIFIER_PCT_LIMIT
        &&& -MODIFIER_PCT_LIMIT <= self.movement_speed.0 <= MODIFIER_PCT_LIMIT
        &&& -MODIFIER_PCT_LIMIT <= self.attack_damage.0 <= MODIFIER_PCT_LIMIT
        &&& -MODIFIER_PCT_LIMIT <= self.attack_speed.0 <= MODIFIER_PCT_LIMIT
    }

    pub fn new(
        now: ElapsedTime,
        duration_ms: i64,
        armor: Percentage,
        attack_range: Percentage,
        movement_speed: Percentage,
        attack_damage: Percentage,
        attack_speed: Percentage,
    ) -> (r: ExoSkeletonStatus)
        requires
            now.wf(),
            0 <= duration_ms,
            now.0 + duration_ms <= TIME_LIMIT_MS,
            -MODIFIER_PCT_LIMIT <= armor.0 <= MODIFIER_PCT_LIMIT,
            -MODIFIER_PCT_LIMIT <= attack_range.0 <= MODIFIER_PCT_LIMIT,
            -MODIFIER_PCT_LIMIT <= movement_speed.0 <= MODIFIER_PCT_LIMIT,
            -MODIFIER_PCT_LIMIT <= attack_damage.0 <= MODIFIER_PCT_LIMIT,
            -MODIFIER_PCT_LIMIT <= attack_speed.0 <= MODIFIER_PCT_LIMIT,
        ensures
            r.wf(),
            r.started == now,
            r.until.0 == now.0 + duration_ms,
            r.armor == armor,
            r.attack_range == attack_range,
            r.movement_speed == movement_speed,
            r.attack_damage == attack_damage,
            r.attack_speed == attack_speed,
    {
        ExoSkeletonStatus {
            started: now,
            until: now.add_millis(duration_ms),
            armor,
            attack_range,
            movement_speed,
            attack_damage,
            attack_speed,
        }
    }

    /// How far the buff has run at `now`: its expiry together with the
    /// elapsed share of its window, in permille.
    pub fn get_status_completion_percent(&self, now: ElapsedTime) -> (r: Option<
        (ElapsedTime, i64),
    >)
        requires
            self.wf(),
            self.started.0 < self.until.0,
            now.wf(),
        ensures
            r matches Some((until, pm)) && until == self.until && pm
                == now.spec_percentage_between(self.started, self.until),
    {
        Some((self.until, now.percentage_between(self.started, self.until)))
    }
}

/// A damage-over-time effect planted by a caster; deals `damage` every
/// [`POISON_PERIOD_MS`] between `started` and `until`.
#[derive(Clone, Copy, PartialEq, Eq, Structural, Debug)]
pub struct PoisonStatus {
    pub poison_caster_entity_id: CharEntityId,
    pub started: ElapsedTime,
    pub until: ElapsedTime,
    pub next_damage_at: ElapsedTime,
    pub damage: i64,
}

impl PoisonStatus {
    pub open spec fn wf(self) -> bool {
        &&& self.started.wf()
        &&& self.until.wf()
        &&& self.next_damage_at.wf()
        &&& self.started.0 <= self.until.0
        &&& 0 <= self.damage <= DAMAGE_LIMIT
    }
}

/// Marks a character as carried by the falcon; its bearer's regular
/// position synchronisation is suppressed externally while it lasts.
#[derive(Clone, Copy, PartialEq, Eq, Structural, Debug)]
pub struct FalconCarryStatus {
    pub started_at: ElapsedTime,
    pub ends_at: ElapsedTime,
    pub carry_owner: bool,
    pub end_pos: Vec2Fx,
}

impl FalconCarryStatus {
    pub open spec fn wf(self) -> bool {
        &&& self.started_at.wf()
        &&& self.ends_at.wf()
        &&& self.started_at.0 <= self.ends_at.0
        &&& self.end_pos.wf()
    }
}

/// Marks the target of a flying pyro blast so the projectile's splash can
/// be matched back to its caster; stripped when the blast arrives.
#[derive(Clone, Copy, PartialEq, Eq, Structural, Debug)]
pub struct PyroBlastTargetStatus {
    pub caster_entity_id: CharEntityId,
    pub splash_radius: i64,
}

impl PyroBlastTargetStatus {
    pub open spec fn wf(self) -> bool {
        0 <= self.splash_radius <= COORD_LIMIT
    }
}

/// The closed set of statuses the simulation knows.
#[derive(Clone, Copy, PartialEq, Eq, Structural, Debug)]
pub enum StatusEnum {
    ExoSkeletonStatus(ExoSkeletonStatus),
    PoisonStatus(PoisonStatus),
    FalconCarryStatus(FalconCarryStatus),
    PyroBlastTargetStatus(PyroBlastTargetStatus),
}

impl StatusEnum {
    pub open spec fn wf(self) -> bool {
        match self {
            StatusEnum::ExoSkeletonStatus(s) => s.wf(),
            StatusEnum::PoisonStatus(s) => s.wf(),
            StatusEnum::FalconCarryStatus(s) => s.wf(),
            StatusEnum::PyroBlastTargetStatus(s) => s.wf(),
        }
    }

    /// The expiry of a timed status; the blast marker has none and lives
    /// until stripped.
    pub open spec fn until_of(self) -> Option<ElapsedTime> {
        match self {
            StatusEnum::ExoSkeletonStatus(s) => Some(s.until),
            StatusEnum::PoisonStatus(s) => Some(s.until),
            StatusEnum::FalconCarryStatus(s) => Some(s.ends_at),
            StatusEnum::PyroBlastTargetStatus(_) => None,
        }
    }

    /// Whether a tick at time `now` keeps the status: a timed status
    /// survives exactly while its expiry has not passed.
    pub open spec fn spec_keep(self, now: ElapsedTime) -> bool {
        match self.until_of() {
            Some(u) => !u.spec_has_already_passed(now),
            None => true,
        }
    }

    /// Whether a kept poison fires its periodic damage at `now`.
    pub open spec fn spec_poison_fires(self, now: ElapsedTime) -> bool {
        &&& self is PoisonStatus
        &&& self.spec_keep(now)
        &&& self->PoisonStatus_0.next_damage_at.spec_has_already_passed(now)
    }

    /// The status value after a tick at `now`: a firing poison advances
    /// its next damage time by one period, everything else is unchanged.
    pub open spec fn spec_update(self, now: ElapsedTime) -> StatusEnum {
        if self.spec_poison_fires(now) {
            let p = self->PoisonStatus_0;
            StatusEnum::PoisonStatus(
                PoisonStatus {
                    next_damage_at: ElapsedTime((p.next_damage_at.0 + POISON_PERIOD_MS) as i64),
                    ..p
                },
            )
        } else {
            self
        }
    }

    /// The hp-modification request a firing poison enqueues.
    pub open spec fn spec_poison_request(self, target: CharEntityId) -> HpModificationRequest {
        HpModificationRequest {
            src_entity: self->PoisonStatus_0.poison_caster_entity_id,
            dst_entity: target,
            typ: HpModificationType::Poison(self->PoisonStatus_0.damage),
        }
    }

    /// How the bearer changes when the status is detached: an expiring
    /// exoskeleton resets the bearer's attack type to its default.
    pub open spec fn spec_teardown(
        self,
        c: CharacterStateComponent,
    ) -> CharacterStateComponent {
        if self is ExoSkeletonStatus {
            CharacterStateComponent { basic_attack_type: BasicAttackType::MeleeSimple, ..c }
        } else {
            c
        }
    }

    /// Whether the status helps or harms its bearer.
    pub fn typ(&self) -> (r: StatusNature)
        ensures
            r == (match *self {
                StatusEnum::ExoSkeletonStatus(_) => StatusNature::Supportive,
                StatusEnum::PoisonStatus(_) => StatusNature::Harmful,
                StatusEnum::FalconCarryStatus(_) => StatusNature::Neutral,
                StatusEnum::PyroBlastTargetStatus(_) => StatusNature::Neutral,
            }),
    {
        match self {
            StatusEnum::ExoSkeletonStatus(_) => StatusNature::Supportive,
            StatusEnum::PoisonStatus(_) => StatusNature::Harmful,
            StatusEnum::FalconCarryStatus(_) => StatusNature::Neutral,
            StatusEnum::PyroBlastTargetStatus(_) => StatusNature::Neutral,
        }
    }

    /// One tick of this status at time `now`, against its bearer.
    ///
    /// Returns `RemoveIt` exactly when the status's expiry has already
    /// passed; a kept poison whose damage is due enqueues one
    /// hp-modification request and advances its next damage time by one
    /// period (also on the very tick it was applied, when
    /// `next_damage_at == started`).  On removal the status performs its
    /// variant-specific teardown on the bearer; otherwise the bearer is
    /// untouched.
    pub fn update(
        &mut self,
        now: ElapsedTime,
        target_entity_id: CharEntityId,
        target_char: &mut CharacterStateComponent,
        hp_mod_requests: &mut Vec<HpModificationRequest>,
    ) -> (r: StatusUpdateResult)
        requires
            old(self).wf(),
            now.wf(),
            now.0 + POISON_PERIOD_MS <= TIME_LIMIT_MS,
        ensures
            r == (if old(self).spec_keep(now) {
                StatusUpdateResult::KeepIt
            } else {
                StatusUpdateResult::RemoveIt
            }),
            *final(self) == old(self).spec_update(now),
            final(self).wf(),
            *final(target_char) == (if old(self).spec_keep(now) {
                *old(target_char)
            } else {
                old(self).spec_teardown(*old(target_char))
            }),
            final(hp_mod_requests)@ == (if old(self).spec_poison_fires(now) {
                old(hp_mod_requests)@.push(old(self).spec_poison_request(target_entity_id))
            } else {
                old(hp_mod_requests)@
            }),
    {
        match self {
            StatusEnum::ExoSkeletonStatus(s) => {
                if s.until.has_already_passed(now) {
                    target_char.basic_attack_type = BasicAttackType::MeleeSimple;
                    StatusUpdateResult::RemoveIt
                } else {
                    StatusUpdateResult::KeepIt
                }
            },
            StatusEnum::PoisonStatus(s) => {
                if s.until.has_already_passed(now) {
                    StatusUpdateResult::RemoveIt
                } else {
                    if s.next_damage_at.has_already_passed(now) {
                        hp_mod_requests.push(
                            HpModificationRequest {
                                src_entity: s.poison_caster_entity_id,
                                dst_entity: target_entity_id,
                                typ: HpModificationType::Poison(s.damage),
                            },
                        );
                        s.next_damage_at = s.next_damage_at.add_millis(POISON_PERIOD_MS);
                    }
                    StatusUpdateResult::KeepIt
                }
            },
            StatusEnum::FalconCarryStatus(s) => {
                if s.ends_at.has_already_passed(now) {
                    StatusUpdateResult::RemoveIt
                } else {
                    StatusUpdateResult::KeepIt
                }
            },
            StatusEnum::PyroBlastTargetStatus(_) => StatusUpdateResult::KeepIt,
        }
    }

    /// Contributes this status's attribute modifiers: the exoskeleton
    /// registers one percentage modifier per combat attribute, valid for
    /// its whole lifetime; no other status modifies attributes.
    pub fn calc_attribs(&self, modifiers: &mut CharAttributeModifierCollector)
        requires
            self.wf(),
            old(modifiers).wf(),
            old(modifiers).armor@.len() < MODIFIER_CAP,
            old(modifiers).walking_speed@.len() < MODIFIER_CAP,
            old(modifiers).attack_range@.len() < MODIFIER_CAP,
            old(modifiers).attack_damage@.len() < MODIFIER_CAP,
            old(modifiers).attack_speed@.len() < MODIFIER_CAP,
        ensures
            final(modifiers).wf(),
            *self matches StatusEnum::ExoSkeletonStatus(s) ==> {
                &&& final(modifiers).armor@ == old(modifiers).armor@.push(
                    ModifierEntry {
                        modifier: CharAttributeModifier::Percentage(s.armor),
                        valid_from: s.started,
                        valid_until: s.until,
                    },
                )
                &&& final(modifiers).walking_speed@ == old(modifiers).walking_speed@.push(
                    ModifierEntry {
                        modifier: CharAttributeModifier::Percentage(s.movement_speed),
                        valid_from: s.started,
                        valid_until: s.until,
                    },
                )
                &&& final(modifiers).attack_range@ == old(modifiers).attack_range@.push(
                    ModifierEntry {
                        modifier: CharAttributeModifier::Percentage(s.attack_range),
                        valid_from: s.started,
                        valid_until: s.until,
                    },
                )
                &&& final(modifiers).attack_damage@ == old(modifiers).attack_damage@.push(
                    ModifierEntry {
                        modifier: CharAttributeModifier::Percentage(s.attack_damage),
                        valid_from: s.started,
                        valid_until: s.until,
                    },
                )
                &&& final(modifiers).attack_speed@ == old(modifiers).attack_speed@.push(
                    ModifierEntry {
                        modifier: CharAttributeModifier::Percentage(s.attack_speed),
                        valid_from: s.started,
                        valid_until: s.until,
                    },
                )
            },
            !(*self is ExoSkeletonStatus) ==> {
                &&& final(modifiers).armor@ == old(modifiers).armor@
                &&& final(modifiers).walking_speed@ == old(modifiers).walking_speed@
                &&& final(modifiers).attack_range@ == old(modifiers).attack_range@
                &&& final(modifiers).attack_damage@ == old(modifiers).attack_damage@
                &&& final(modifiers).attack_speed@ == old(modifiers).attack_speed@
            },
    {
        match self {
            StatusEnum::ExoSkeletonStatus(s) => {
                modifiers.change_armor(
                    CharAttributeModifier::Percentage(s.armor),
                    s.started,
                    s.until,
                );
                modifiers.change_walking_speed(
                    CharAttributeModifier::Percentage(s.movement_speed),
                    s.started,
                    s.until,
                );
                modifiers.change_attack_range(
                    CharAttributeModifier::Percentage(s.attack_range),
                    s.started,
                    s.until,
                );
                modifiers.change_attack_damage(
                    CharAttributeModifier::Percentage(s.attack_damage),
                    s.started,
                    s.until,
                );
                modifiers.change_attack_speed(
                    CharAttributeModifier::Percentage(s.attack_speed),
                    s.started,
                    s.until,
                );
            },
            _ => {},
        }
    }
}

} // verus!
