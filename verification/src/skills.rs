//! The skill catalog: static, stateless skill definitions.  On cast
//! completion each definition may enqueue status-application and
//! hp-modification requests, spawn sound or visual effects, create world
//! entities, and return at most one manifestation for the registry to own.
//!
//! A definition trusts its caller: the targeting front end has already
//! validated the declared target-type constraint, so a definition that
//! needs a target entity or a target position requires one.

use vstd::prelude::*;

verus! {

use crate::attr::{Percentage, MODIFIER_PCT_LIMIT};
use crate::chars::{BasicAttackType, CharAttributes, CharEntityId, CharacterStateComponent,
    CharacterStore, ControllerComponent, ControllerStore};
use crate::context::{ActionPlayMode, ApplyStatusComponent, HpModificationRequest,
    HpModificationType, SoundEffectComponent, SoundId, StrEffectComponent, StrEffectType,
    SystemVariables};
use crate::geom::Vec2Fx;
use crate::manifest::{PyroBlastManifest, SkillConfigPyroBlastInner};
use crate::registry::SkillManifestation;
use crate::status::{ExoSkeletonStatus, PoisonStatus, PyroBlastTargetStatus, StatusEnum,
    DAMAGE_LIMIT};
use crate::chars::TurretComponent;
use crate::time::{ElapsedTime, TIME_LIMIT_MS};

/// How long the poison cast's visual effect lingers, in milliseconds.
pub const POISON_EFFECT_LINGER_MS: i64 = 700;

/// The target-type constraint a skill declares; the out-of-scope casting
/// front end validates it before invoking `finish_cast`.
#[derive(Clone, Copy, PartialEq, Eq, Structural, Debug)]
pub enum SkillTargetType {
    NoTarget,
    Area,
    OnlyEnemy,
    OnlyAllyAndSelf,
    OnlyAllyButNoSelf,
}

/// Configuration of the heal skill.
#[derive(Clone, Copy, PartialEq, Eq, Structural, Debug)]
pub struct HealConfig {
    pub heal: i64,
    pub sound_id: SoundId,
}

impl HealConfig {
    pub open spec fn wf(self) -> bool {
        0 <= self.heal <= DAMAGE_LIMIT
    }
}

/// Configuration of the poison skill.
#[derive(Clone, Copy, PartialEq, Eq, Structural, Debug)]
pub struct PoisonConfig {
    pub damage: i64,
    pub duration_ms: i64,
}

impl PoisonConfig {
    pub open spec fn wf(self) -> bool {
        &&& 0 <= self.damage <= DAMAGE_LIMIT
        &&& 0 <= self.duration_ms <= TIME_LIMIT_MS
    }
}

/// Configuration of the pyro blast skill.
#[derive(Clone, Copy, PartialEq, Eq, Structural, Debug)]
pub struct SkillConfigPyroBlast {
    pub inner: SkillConfigPyroBlastInner,
}

impl SkillConfigPyroBlast {
    pub open spec fn wf(self) -> bool {
        self.inner.wf()
    }
}

/// Configuration of the turret a gaz-turret cast builds.
#[derive(Clone, Copy, PartialEq, Eq, Structural, Debug)]
pub struct TurretConfig {
    /// Attack radius of the turret, in milli-units.
    pub attack_range: i64,
    pub initial_hp: i64,
    pub base_attributes: CharAttributes,
}

impl TurretConfig {
    pub open spec fn wf(self) -> bool {
        &&& 0 < self.attack_range
        &&& 0 < self.initial_hp
        &&& self.base_attributes.wf()
    }
}

/// Configuration of the gaz-turret skill family.
#[derive(Clone, Copy, PartialEq, Eq, Structural, Debug)]
pub struct GazTurretConfig {
    pub turret: TurretConfig,
}

impl GazTurretConfig {
    pub open spec fn wf(self) -> bool {
        self.turret.wf()
    }
}

/// Configuration of the exoskeleton buff.
#[derive(Clone, Copy, PartialEq, Eq, Structural, Debug)]
pub struct ExoSkeletonConfig {
    pub duration_ms: i64,
    pub armor: Percentage,
    pub attack_range: Percentage,
    pub movement_speed: Percentage,
    pub attack_damage: Percentage,
    pub attack_speed: Percentage,
}

impl ExoSkeletonConfig {
    pub open spec fn wf(self) -> bool {
        &&& 0 <= self.duration_ms <= TIME_LIMIT_MS
        &&& -MODIFIER_PCT_LIMIT <= self.armor.0 <= MODIFIER_PCT_LIMIT
        &&& -MODIFIER_PCT_LIMIT <= self.attack_range.0 <= MODIFIER_PCT_LIMIT
        &&& -MODIFIER_PCT_LIMIT <= self.movement_speed.0 <= MODIFIER_PCT_LIMIT
        &&& -MODIFIER_PCT_LIMIT <= self.attack_damage.0 <= MODIFIER_PCT_LIMIT
        &&& -MODIFIER_PCT_LIMIT <= self.attack_speed.0 <= MODIFIER_PCT_LIMIT
    }
}

/// Per-skill numeric parameters, resolved once at cast time.
#[derive(Clone, Copy, PartialEq, Eq, Structural, Debug)]
pub struct SkillsConfig {
    pub heal: HealConfig,
    pub poison: PoisonConfig,
    pub wiz_pyroblast: SkillConfigPyroBlast,
    pub gaz_turret: GazTurretConfig,
    pub exoskeleton: ExoSkeletonConfig,
}

/// The development configuration the skills read their parameters from.
#[derive(Clone, Copy, PartialEq, Eq, Structural, Debug)]
pub struct DevConfig {
    pub skills: SkillsConfig,
}

impl DevConfig {
    pub open spec fn wf(self) -> bool {
        &&& self.skills.heal.wf()
        &&& self.skills.poison.wf()
        &&& self.skills.wiz_pyroblast.wf()
        &&& self.skills.gaz_turret.wf()
        &&& self.skills.exoskeleton.wf()
    }
}

/// Heals the target ally by a configured amount and plays a heal sound.
pub struct HealSkill;

impl HealSkill {
    pub fn get_skill_target_type(&self) -> (r: SkillTargetType)
        ensures
            r == SkillTargetType::OnlyAllyAndSelf,
    {
        SkillTargetType::OnlyAllyAndSelf
    }

    /// Enqueues one heal request against the target and one heal-sound
    /// request at the caster's position; creates no manifestation.
    pub fn finish_cast(
        &self,
        caster_entity_id: CharEntityId,
        caster_pos: Vec2Fx,
        skill_pos: Option<Vec2Fx>,
        char_to_skill_dir: &Vec2Fx,
        target_entity: Option<CharEntityId>,
        sys_vars: &mut SystemVariables,
        configs: &DevConfig,
    ) -> (r: Option<SkillManifestation>)
        requires
            old(sys_vars).wf(),
            configs.wf(),
            target_entity is Some,
        ensures
            r is None,
            final(sys_vars).wf(),
            final(sys_vars).time == old(sys_vars).time,
            final(sys_vars).dt_ms == old(sys_vars).dt_ms,
            final(sys_vars).sound_effects@ == old(sys_vars).sound_effects@.push(
                SoundEffectComponent {
                    target_entity_id: target_entity->Some_0,
                    sound_id: configs.skills.heal.sound_id,
                    pos: caster_pos,
                    start_time: old(sys_vars).time,
                },
            ),
            final(sys_vars).hp_mod_requests@ == old(sys_vars).hp_mod_requests@.push(
                HpModificationRequest {
                    src_entity: caster_entity_id,
                    dst_entity: target_entity->Some_0,
                    typ: HpModificationType::Heal(configs.skills.heal.heal),
                },
            ),
            final(sys_vars).apply_statuses@ == old(sys_vars).apply_statuses@,
            final(sys_vars).area_hp_mod_requests@ == old(sys_vars).area_hp_mod_requests@,
            final(sys_vars).str_effects@ == old(sys_vars).str_effects@,
    {
        let target_entity_id = match target_entity {
            Some(t) => t,
            None => unreached(),
        };
        sys_vars.sound_effects.push(
            SoundEffectComponent {
                target_entity_id,
                sound_id: configs.skills.heal.sound_id,
                pos: caster_pos,
                start_time: sys_vars.time,
            },
        );
        sys_vars.hp_mod_requests.push(
            HpModificationRequest {
                src_entity: caster_entity_id,
                dst_entity: target_entity_id,
                typ: HpModificationType::Heal(configs.skills.heal.heal),
            },
        );
        None
    }
}

/// Plants a damage-over-time poison on the target enemy and lingers a
/// poison cloud effect at the cast position.
pub struct PosionSkill;

impl PosionSkill {
    pub fn get_skill_target_type(&self) -> (r: SkillTargetType)
        ensures
            r == SkillTargetType::OnlyEnemy,
    {
        SkillTargetType::OnlyEnemy
    }

    /// Spawns the poison cloud at the cast position and enqueues one
    /// poison-status application whose first damage is due immediately
    /// (`next_damage_at == started`); creates no manifestation.
    pub fn finish_cast(
        &self,
        caster_entity_id: CharEntityId,
        caster_pos: Vec2Fx,
        skill_pos: Option<Vec2Fx>,
        char_to_skill_dir: &Vec2Fx,
        target_entity: Option<CharEntityId>,
        sys_vars: &mut SystemVariables,
        configs: &DevConfig,
    ) -> (r: Option<SkillManifestation>)
        requires
            old(sys_vars).wf(),
            configs.wf(),
            target_entity is Some,
            skill_pos is Some,
            old(sys_vars).time.0 + POISON_EFFECT_LINGER_MS <= TIME_LIMIT_MS,
            old(sys_vars).time.0 + configs.skills.poison.duration_ms <= TIME_LIMIT_MS,
        ensures
            r is None,
            final(sys_vars).wf(),
            final(sys_vars).time == old(sys_vars).time,
            final(sys_vars).dt_ms == old(sys_vars).dt_ms,
            final(sys_vars).str_effects@ == old(sys_vars).str_effects@.push(
                StrEffectComponent {
                    effect_id: StrEffectType::Poison,
                    pos: skill_pos->Some_0,
                    start_time: old(sys_vars).time,
                    die_at: Some(
                        ElapsedTime((old(sys_vars).time.0 + POISON_EFFECT_LINGER_MS) as i64),
                    ),
                    play_mode: ActionPlayMode::Repeat,
                },
            ),
            final(sys_vars).apply_statuses@ == old(sys_vars).apply_statuses@.push(
                ApplyStatusComponent {
                    source_entity_id: caster_entity_id,
                    target_entity_id: target_entity->Some_0,
                    status: StatusEnum::PoisonStatus(
                        PoisonStatus {
                            poison_caster_entity_id: caster_entity_id,
                            started: old(sys_vars).time,
                            until: ElapsedTime(
                                (old(sys_vars).time.0 + configs.skills.poison.duration_ms) as i64,
                            ),
                            next_damage_at: old(sys_vars).time,
                            damage: configs.skills.poison.damage,
                        },
                    ),
                },
            ),
            final(sys_vars).hp_mod_requests@ == old(sys_vars).hp_mod_requests@,
            final(sys_vars).area_hp_mod_requests@ == old(sys_vars).area_hp_mod_requests@,
            final(sys_vars).sound_effects@ == old(sys_vars).sound_effects@,
    {
        let target_entity_id = match target_entity {
            Some(t) => t,
            None => unreached(),
        };
        let pos = match skill_pos {
            Some(p) => p,
            None => unreached(),
        };
        let now = sys_vars.time;
        sys_vars.str_effects.push(
            StrEffectComponent {
                effect_id: StrEffectType::Poison,
                pos,
                start_time: now,
                die_at: Some(now.add_millis(POISON_EFFECT_LINGER_MS)),
                play_mode: ActionPlayMode::Repeat,
            },
        );
        sys_vars.apply_statuses.push(
            ApplyStatusComponent {
                source_entity_id: caster_entity_id,
                target_entity_id,
                status: StatusEnum::PoisonStatus(
                    PoisonStatus {
                        poison_caster_entity_id: caster_entity_id,
                        started: now,
                        until: now.add_millis(configs.skills.poison.duration_ms),
                        next_damage_at: now,
                        damage: configs.skills.poison.damage,
                    },
                ),
            },
        );
        None
    }
}

/// Hurls a fireball that chases the target enemy and detonates on
/// arrival, splashing everything around the target except the target
/// itself.
pub struct WizPyroBlastSkill;

impl WizPyroBlastSkill {
    pub fn get_skill_target_type(&self) -> (r: SkillTargetType)
        ensures
            r == SkillTargetType::OnlyEnemy,
    {
        SkillTargetType::OnlyEnemy
    }

    /// Marks the target with this caster's blast marker and returns the
    /// projectile manifestation, created at the caster's position.
    pub fn finish_cast(
        &self,
        caster_entity_id: CharEntityId,
        caster_pos: Vec2Fx,
        skill_pos: Option<Vec2Fx>,
        char_to_skill_dir: &Vec2Fx,
        target_entity: Option<CharEntityId>,
        sys_vars: &mut SystemVariables,
        configs: &DevConfig,
    ) -> (r: Option<SkillManifestation>)
        requires
            old(sys_vars).wf(),
            configs.wf(),
            target_entity is Some,
            caster_pos.wf(),
        ensures
            final(sys_vars).wf(),
            final(sys_vars).time == old(sys_vars).time,
            final(sys_vars).dt_ms == old(sys_vars).dt_ms,
            final(sys_vars).apply_statuses@ == old(sys_vars).apply_statuses@.push(
                ApplyStatusComponent {
                    source_entity_id: caster_entity_id,
                    target_entity_id: target_entity->Some_0,
                    status: StatusEnum::PyroBlastTargetStatus(
                        PyroBlastTargetStatus {
                            caster_entity_id,
                            splash_radius: configs.skills.wiz_pyroblast.inner.splash_radius,
                        },
                    ),
                },
            ),
            r matches Some(m) && m == SkillManifestation::PyroBlastManifest(
                PyroBlastManifest {
                    caster_entity_id,
                    pos: caster_pos,
                    target_entity_id: target_entity->Some_0,
                    created_at: old(sys_vars).time,
                    configs: configs.skills.wiz_pyroblast.inner,
                },
            ),
            r->Some_0.wf(),
            final(sys_vars).hp_mod_requests@ == old(sys_vars).hp_mod_requests@,
            final(sys_vars).area_hp_mod_requests@ == old(sys_vars).area_hp_mod_requests@,
            final(sys_vars).str_effects@ == old(sys_vars).str_effects@,
            final(sys_vars).sound_effects@ == old(sys_vars).sound_effects@,
    {
        let target_entity_id = match target_entity {
            Some(t) => t,
            None => unreached(),
        };
        sys_vars.apply_statuses.push(
            ApplyStatusComponent {
                source_entity_id: caster_entity_id,
                target_entity_id,
                status: StatusEnum::PyroBlastTargetStatus(
                    PyroBlastTargetStatus {
                        caster_entity_id,
                        splash_radius: configs.skills.wiz_pyroblast.inner.splash_radius,
                    },
                ),
            },
        );
        Some(
            SkillManifestation::PyroBlastManifest(
                PyroBlastManifest::new(
                    caster_entity_id,
                    caster_pos,
                    target_entity_id,
                    sys_vars.time,
                    configs.skills.wiz_pyroblast.inner,
                ),
            ),
        )
    }
}

/// Buffs the caster with the exoskeleton status for a configured
/// duration.
pub struct ExoSkeletonSkill;

impl ExoSkeletonSkill {
    pub fn get_skill_target_type(&self) -> (r: SkillTargetType)
        ensures
            r == SkillTargetType::NoTarget,
    {
        SkillTargetType::NoTarget
    }

    /// Enqueues one exoskeleton-status application on the caster itself;
    /// creates no manifestation.
    pub fn finish_cast(
        &self,
        caster_entity_id: CharEntityId,
        caster_pos: Vec2Fx,
        skill_pos: Option<Vec2Fx>,
        char_to_skill_dir: &Vec2Fx,
        target_entity: Option<CharEntityId>,
        sys_vars: &mut SystemVariables,
        configs: &DevConfig,
    ) -> (r: Option<SkillManifestation>)
        requires
            old(sys_vars).wf(),
            configs.wf(),
            old(sys_vars).time.0 + configs.skills.exoskeleton.duration_ms <= TIME_LIMIT_MS,
        ensures
            r is None,
            final(sys_vars).wf(),
            final(sys_vars).time == old(sys_vars).time,
            final(sys_vars).dt_ms == old(sys_vars).dt_ms,
            final(sys_vars).apply_statuses@ == old(sys_vars).apply_statuses@.push(
                ApplyStatusComponent {
                    source_entity_id: caster_entity_id,
                    target_entity_id: caster_entity_id,
                    status: StatusEnum::ExoSkeletonStatus(
                        ExoSkeletonStatus {
                            started: old(sys_vars).time,
                            until: ElapsedTime(
                                (old(sys_vars).time.0
                                    + configs.skills.exoskeleton.duration_ms) as i64,
                            ),
                            armor: configs.skills.exoskeleton.armor,
                            attack_range: configs.skills.exoskeleton.attack_range,
                            movement_speed: configs.skills.exoskeleton.movement_speed,
                            attack_damage: configs.skills.exoskeleton.attack_damage,
                            attack_speed: configs.skills.exoskeleton.attack_speed,
                        },
                    ),
                },
            ),
            final(sys_vars).apply_statuses@.last().status.wf(),
            final(sys_vars).hp_mod_requests@ == old(sys_vars).hp_mod_requests@,
            final(sys_vars).area_hp_mod_requests@ == old(sys_vars).area_hp_mod_requests@,
            final(sys_vars).str_effects@ == old(sys_vars).str_effects@,
            final(sys_vars).sound_effects@ == old(sys_vars).sound_effects@,
    {
        let now = sys_vars.time;
        let cfg = configs.skills.exoskeleton;
        let status = ExoSkeletonStatus::new(
            now,
            cfg.duration_ms,
            cfg.armor,
            cfg.attack_range,
            cfg.movement_speed,
            cfg.attack_damage,
            cfg.attack_speed,
        );
        sys_vars.apply_statuses.push(
            ApplyStatusComponent {
                source_entity_id: caster_entity_id,
                target_entity_id: caster_entity_id,
                status: StatusEnum::ExoSkeletonStatus(status),
            },
        );
        None
    }
}

/// Builds a stationary turret at the cast position, owned by the caster
/// and controlled by a fresh sentinel controller.
pub struct GazTurretSkill;

impl GazTurretSkill {
    pub fn get_skill_target_type(&self) -> (r: SkillTargetType)
        ensures
            r == SkillTargetType::Area,
    {
        SkillTargetType::Area
    }

    /// If the caster still exists, adds the turret character (on the
    /// caster's team, at the cast position) and a turret controller
    /// driving it; a cast by a deleted caster does nothing.
    pub fn finish_cast(
        &self,
        caster_entity_id: CharEntityId,
        caster_pos: Vec2Fx,
        skill_pos: Option<Vec2Fx>,
        char_to_skill_dir: &Vec2Fx,
        target_entity: Option<CharEntityId>,
        store: &mut CharacterStore,
        controllers: &mut ControllerStore,
        configs: &DevConfig,
    ) -> (r: Option<SkillManifestation>)
        requires
            old(store).wf(),
            configs.wf(),
            skill_pos is Some,
            skill_pos->Some_0.wf(),
        ensures
            r is None,
            final(store).wf(),
            old(store).spec_get(caster_entity_id) matches Some(caster) ==> {
                &&& final(store).chars@ == old(store).chars@.push(
                    Some(
                        spec_turret_char(
                            skill_pos->Some_0,
                            caster.team,
                            caster_entity_id,
                            configs,
                        ),
                    ),
                )
                &&& final(controllers).controllers@ == old(controllers).controllers@.push(
                    Some(
                        ControllerComponent {
                            controlled_entity: CharEntityId(old(store).chars@.len() as usize),
                            intention: None,
                            turret_controller: true,
                        },
                    ),
                )
            },
            old(store).spec_get(caster_entity_id) is None ==> {
                &&& final(store).chars@ == old(store).chars@
                &&& final(controllers).controllers@ == old(controllers).controllers@
            },
    {
        let maybe_caster = store.get_char(caster_entity_id);
        match maybe_caster {
            None => None,
            Some(caster) => {
                let pos = match skill_pos {
                    Some(p) => p,
                    None => unreached(),
                };
                let turret = CharacterStateComponent {
                    pos,
                    team: caster.team,
                    hp: configs.skills.gaz_turret.turret.initial_hp,
                    target: None,
                    basic_attack_type: BasicAttackType::MeleeSimple,
                    base_attributes: configs.skills.gaz_turret.turret.base_attributes,
                    calculated_walking_speed:
                        configs.skills.gaz_turret.turret.base_attributes.walking_speed,
                    turret: Some(
                        TurretComponent {
                            owner_entity_id: caster_entity_id,
                            preferred_target: None,
                        },
                    ),
                };
                let char_id = store.add_char(turret);
                controllers.add_controller(
                    ControllerComponent {
                        controlled_entity: char_id,
                        intention: None,
                        turret_controller: true,
                    },
                );
                None
            },
        }
    }
}

/// The turret character a gaz-turret cast adds.
pub open spec fn spec_turret_char(
    pos: Vec2Fx,
    team: crate::chars::Team,
    owner: CharEntityId,
    configs: &DevConfig,
) -> CharacterStateComponent {
    CharacterStateComponent {
        pos,
        team,
        hp: configs.skills.gaz_turret.turret.initial_hp,
        target: None,
        basic_attack_type: BasicAttackType::MeleeSimple,
        base_attributes: configs.skills.gaz_turret.turret.base_attributes,
        calculated_walking_speed: configs.skills.gaz_turret.turret.base_attributes.walking_speed,
        turret: Some(
            TurretComponent { owner_entity_id: owner, preferred_target: None },
        ),
    }
}

/// Tears down a turret the caster owns by zeroing its hit points.
pub struct GazDestroyTurretSkill;

impl GazDestroyTurretSkill {
    pub fn get_skill_target_type(&self) -> (r: SkillTargetType)
        ensures
            r == SkillTargetType::OnlyAllyButNoSelf,
    {
        SkillTargetType::OnlyAllyButNoSelf
    }

    /// If the target is a live turret owned by the caster, its hit
    /// points drop to zero; any other target is left alone.
    pub fn finish_cast(
        &self,
        caster_entity_id: CharEntityId,
        caster_pos: Vec2Fx,
        skill_pos: Option<Vec2Fx>,
        char_to_skill_dir: &Vec2Fx,
        target_entity: Option<CharEntityId>,
        store: &mut CharacterStore,
    ) -> (r: Option<SkillManifestation>)
        requires
            old(store).wf(),
        ensures
            r is None,
            final(store).wf(),
            final(store).chars@ == (if is_own_turret(*old(store), target_entity, caster_entity_id) {
                old(store).chars@.update(
                    target_entity->Some_0.0 as int,
                    Some(
                        CharacterStateComponent {
                            hp: 0,
                            ..old(store).spec_get(target_entity->Some_0)->Some_0
                        },
                    ),
                )
            } else {
                old(store).chars@
            }),
    {
        match target_entity {
            None => None,
            Some(target_id) => {
                let maybe_target = store.get_char(target_id);
                match maybe_target {
                    None => None,
                    Some(mut c) => {
                        let owned = match c.turret {
                            Some(t) => t.owner_entity_id.0 == caster_entity_id.0,
                            None => false,
                        };
                        if owned {
                            c.hp = 0;
                            store.set_char(target_id, c);
                        }
                        None
                    },
                }
            },
        }
    }
}

/// Whether the target of a destroy-turret cast is a live turret owned by
/// the caster.
pub open spec fn is_own_turret(
    store: CharacterStore,
    target_entity: Option<CharEntityId>,
    caster: CharEntityId,
) -> bool {
    &&& target_entity is Some
    &&& store.spec_get(target_entity->Some_0) is Some
    &&& store.spec_get(target_entity->Some_0)->Some_0.turret is Some
    &&& store.spec_get(target_entity->Some_0)->Some_0.turret->Some_0.owner_entity_id
        == caster
}

/// Designates a preferred target for every turret the caster owns.
pub struct GazTurretTargetSkill;

/// One character after a turret-target cast: a turret owned by the
/// caster records the new preferred target, everything else is
/// untouched.
pub open spec fn spec_retargeted(
    slot: Option<CharacterStateComponent>,
    caster: CharEntityId,
    target_entity: Option<CharEntityId>,
) -> Option<CharacterStateComponent> {
    match slot {
        Some(c) => {
            match c.turret {
                Some(t) => {
                    if t.owner_entity_id == caster {
                        Some(
                            CharacterStateComponent {
                                turret: Some(
                                    TurretComponent { preferred_target: target_entity, ..t },
                                ),
                                ..c
                            },
                        )
                    } else {
                        slot
                    }
                },
                None => slot,
            }
        },
        None => slot,
    }
}

impl GazTurretTargetSkill {
    pub fn get_skill_target_type(&self) -> (r: SkillTargetType)
        ensures
            r == SkillTargetType::OnlyEnemy,
    {
        SkillTargetType::OnlyEnemy
    }

    /// Every turret owned by the caster records the target entity as its
    /// preferred target (clearing it when the cast had none).
    pub fn finish_cast(
        &self,
        caster_entity_id: CharEntityId,
        caster_pos: Vec2Fx,
        skill_pos: Option<Vec2Fx>,
        char_to_skill_dir: &Vec2Fx,
        target_entity: Option<CharEntityId>,
        store: &mut CharacterStore,
    ) -> (r: Option<SkillManifestation>)
        requires
            old(store).wf(),
        ensures
            r is None,
            final(store).wf(),
            final(store).chars@.len() == old(store).chars@.len(),
            forall|i: int|
                0 <= i < old(store).chars@.len() ==> #[trigger] final(store).chars@[i]
                    == spec_retargeted(old(store).chars@[i], caster_entity_id, target_entity),
    {
        let ghost chars0 = store.chars@;
        let n = store.len();
        let mut i: usize = 0;
        while i < n
            invariant
                store.wf(),
                0 <= i <= n,
                n == chars0.len(),
                store.chars@.len() == chars0.len(),
                forall|j: int|
                    (i as int) <= j < chars0.len() ==> #[trigger] store.chars@[j] == chars0[j],
                forall|j: int|
                    0 <= j < (i as int) ==> #[trigger] store.chars@[j] == spec_retargeted(
                        chars0[j],
                        caster_entity_id,
                        target_entity,
                    ),
            decreases n - i,
        {
            let id = CharEntityId(i);
            let maybe_char = store.get_char(id);
            match maybe_char {
                None => {},
                Some(mut c) => {
                    match c.turret {
                        None => {},
                        Some(t) => {
                            if t.owner_entity_id.0 == caster_entity_id.0 {
                                c.turret = Some(
                                    TurretComponent {
                                        owner_entity_id: t.owner_entity_id,
                                        preferred_target: target_entity,
                                    },
                                );
                                store.set_char(id, c);
                            }
                        },
                    }
                },
            }
            i = i + 1;
        }
        None
    }
}

} // verus!
