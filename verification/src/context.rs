//! The shared per-tick simulation context: the clock readings and the
//! outbound request queues every component pushes into.
//!
//! The context is threaded explicitly through every per-tick entry point;
//! its queues are drained and cleared by their consumers between ticks.

use vstd::prelude::*;

verus! {

use crate::chars::CharEntityId;
use crate::geom::Vec2Fx;
use crate::status::StatusEnum;
use crate::time::ElapsedTime;

/// Bound on the length of one simulation tick, in milliseconds.
pub const DT_LIMIT_MS: i64 = 1_000_000;

/// How a damage number is displayed; part of an hp-modification request
/// so the consumer can render it.
#[derive(Clone, Copy, PartialEq, Eq, Structural, Debug)]
pub enum DamageDisplayType {
    SingleNumber,
}

/// The kind and amount of an hp modification.
#[derive(Clone, Copy, PartialEq, Eq, Structural, Debug)]
pub enum HpModificationType {
    SpellDamage(i64, DamageDisplayType),
    Heal(i64),
    Poison(i64),
}

/// A request to modify one character's hit points, produced by the core
/// and consumed by the out-of-scope attack resolution.
#[derive(Clone, Copy, PartialEq, Eq, Structural, Debug)]
pub struct HpModificationRequest {
    pub src_entity: CharEntityId,
    pub dst_entity: CharEntityId,
    pub typ: HpModificationType,
}

/// The shape of an area attack.
#[derive(Clone, Copy, PartialEq, Eq, Structural, Debug)]
pub enum AreaShape {
    Circle { radius: i64 },
}

/// A request to damage everything inside an area, optionally excluding
/// one entity (the primary target of the attack that caused it).
#[derive(Clone, Copy, PartialEq, Eq, Structural, Debug)]
pub struct AreaAttackComponent {
    pub area_shape: AreaShape,
    pub area_pos: Vec2Fx,
    pub source_entity_id: CharEntityId,
    pub typ: HpModificationType,
    pub except: Option<CharEntityId>,
}

/// A request to apply a status to a character.
#[derive(Clone, Copy, PartialEq, Eq, Structural, Debug)]
pub struct ApplyStatusComponent {
    pub source_entity_id: CharEntityId,
    pub target_entity_id: CharEntityId,
    pub status: StatusEnum,
}

/// The visual effects the core can request.
#[derive(Clone, Copy, PartialEq, Eq, Structural, Debug)]
pub enum StrEffectType {
    Poison,
    Explosion,
    Cart,
}

/// How a requested visual effect is played back.
#[derive(Clone, Copy, PartialEq, Eq, Structural, Debug)]
pub enum ActionPlayMode {
    Once,
    Repeat,
}

/// A request to spawn a visual effect.
#[derive(Clone, Copy, PartialEq, Eq, Structural, Debug)]
pub struct StrEffectComponent {
    pub effect_id: StrEffectType,
    pub pos: Vec2Fx,
    pub start_time: ElapsedTime,
    pub die_at: Option<ElapsedTime>,
    pub play_mode: ActionPlayMode,
}

/// Identifies a loaded sound asset.
#[derive(Clone, Copy, PartialEq, Eq, Structural, Debug)]
pub struct SoundId(pub u64);

/// A request to play a sound at a position.
#[derive(Clone, Copy, PartialEq, Eq, Structural, Debug)]
pub struct SoundEffectComponent {
    pub target_entity_id: CharEntityId,
    pub sound_id: SoundId,
    pub pos: Vec2Fx,
    pub start_time: ElapsedTime,
}

/// The clock readings of the running tick and the outbound queues.
pub struct SystemVariables {
    /// The current simulation time.
    pub time: ElapsedTime,
    /// The fixed duration of one tick, in milliseconds.
    pub dt_ms: i64,
    pub apply_statuses: Vec<ApplyStatusComponent>,
    pub hp_mod_requests: Vec<HpModificationRequest>,
    pub area_hp_mod_requests: Vec<AreaAttackComponent>,
    pub str_effects: Vec<StrEffectComponent>,
    pub sound_effects: Vec<SoundEffectComponent>,
}

impl SystemVariables {
    pub open spec fn wf(self) -> bool {
        &&& self.time.wf()
        &&& 0 < self.dt_ms <= DT_LIMIT_MS
    }

    pub fn new(time: ElapsedTime, dt_ms: i64) -> (r: SystemVariables)
        requires
            time.wf(),
            0 < dt_ms <= DT_LIMIT_MS,
        ensures
            r.wf(),
            r.time == time,
            r.dt_ms == dt_ms,
            r.apply_statuses@.len() == 0,
            r.hp_mod_requests@.len() == 0,
            r.area_hp_mod_requests@.len() == 0,
            r.str_effects@.len() == 0,
            r.sound_effects@.len() == 0,
    {
        SystemVariables {
            time,
            dt_ms,
            apply_statuses: Vec::new(),
            hp_mod_requests: Vec::new(),
            area_hp_mod_requests: Vec::new(),
            str_effects: Vec::new(),
            sound_effects: Vec::new(),
        }
    }
}

} // verus!
