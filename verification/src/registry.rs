//! The manifestation registry: owner of every live free-standing effect,
//! keyed by entity index.  Each tick it drives every live manifestation's
//! update against the tick's collision events and removes the ones whose
//! own update signals completion; a deleted slot stays empty so ids stay
//! stable.

use vstd::prelude::*;

verus! {

use crate::chars::{CharacterStateComponent, CharacterStore};
use crate::context::{ApplyStatusComponent, AreaAttackComponent, HpModificationRequest,
    StrEffectComponent, SystemVariables};
use crate::geom::{spec_advance2, spec_dist2, trunc_div};
use crate::manifest::{any_collision_matches, area_requests, spec_explosion_effect, Collision,
    ManifestUpdateResult, PyroBlastManifest, StatusApplierArea, ARRIVAL_THRESHOLD,
    AREA_STATUS_COOLDOWN_MS};
use crate::status_engine::{chars_has, StatusEngine};
use crate::time::{ElapsedTime, TIME_LIMIT_MS};

/// The closed set of free-standing effects the simulation knows.
#[derive(Clone, Copy)]
pub enum SkillManifestation {
    StatusApplierArea(StatusApplierArea),
    PyroBlastManifest(PyroBlastManifest),
}

impl SkillManifestation {
    pub open spec fn wf(self) -> bool {
        match self {
            SkillManifestation::StatusApplierArea(a) => a.wf(),
            SkillManifestation::PyroBlastManifest(p) => p.wf(),
        }
    }
}

/// A status-applier area after one tick: the first trigger batch closes
/// its cooldown gate, everything else about it is unchanged.
pub open spec fn area_after(
    a: StatusApplierArea,
    collisions: Seq<Collision>,
    now: ElapsedTime,
) -> StatusApplierArea {
    if a.next_action_at.spec_has_already_passed(now) && any_collision_matches(
        collisions,
        a.collider_handle,
    ) {
        StatusApplierArea {
            next_action_at: ElapsedTime((now.0 + AREA_STATUS_COOLDOWN_MS) as i64),
            ..a
        }
    } else {
        a
    }
}

/// Whether a projectile reaches its target this tick: the target is
/// alive and already inside the arrival threshold.
pub open spec fn pyro_detonates(
    p: PyroBlastManifest,
    chars: Seq<Option<CharacterStateComponent>>,
) -> bool {
    &&& chars_has(chars, p.target_entity_id)
    &&& spec_dist2(p.pos, chars[p.target_entity_id.0 as int]->Some_0.pos) <= ARRIVAL_THRESHOLD
}

/// What remains of one manifestation slot after a tick: an area always
/// survives (with its gate possibly closed); a projectile survives, moved
/// one step, exactly while its target exists and is still farther than
/// the arrival threshold.
pub open spec fn spec_slot_update(
    m: SkillManifestation,
    collisions: Seq<Collision>,
    now: ElapsedTime,
    dt_ms: int,
    chars: Seq<Option<CharacterStateComponent>>,
) -> Option<SkillManifestation> {
    match m {
        SkillManifestation::StatusApplierArea(a) => Some(
            SkillManifestation::StatusApplierArea(area_after(a, collisions, now)),
        ),
        SkillManifestation::PyroBlastManifest(p) => {
            if !chars_has(chars, p.target_entity_id) {
                None
            } else {
                let target = chars[p.target_entity_id.0 as int]->Some_0;
                if spec_dist2(p.pos, target.pos) > ARRIVAL_THRESHOLD {
                    Some(
                        SkillManifestation::PyroBlastManifest(
                            PyroBlastManifest {
                                pos: spec_advance2(p.pos, target.pos, p.spec_step(dt_ms)),
                                ..p
                            },
                        ),
                    )
                } else {
                    None
                }
            }
        },
    }
}

/// The status-application queue after the first `k` slots have run: each
/// open area trigger appends one request per matching collision, in slot
/// order; nothing else touches this queue.
pub open spec fn applies_after_slots(
    entries: Seq<Option<SkillManifestation>>,
    k: int,
    init: Seq<ApplyStatusComponent>,
    collisions: Seq<Collision>,
    now: ElapsedTime,
) -> Seq<ApplyStatusComponent>
    decreases k,
{
    if k <= 0 {
        init
    } else {
        let prev = applies_after_slots(entries, k - 1, init, collisions, now);
        match entries[k - 1] {
            Some(SkillManifestation::StatusApplierArea(a)) => {
                if a.next_action_at.spec_has_already_passed(now) {
                    area_requests(
                        prev,
                        collisions,
                        a.collider_handle,
                        a.caster_entity_id,
                        a.status_creator,
                        now,
                    )
                } else {
                    prev
                }
            },
            _ => prev,
        }
    }
}

/// The direct-damage queue after the first `k` slots have run: each
/// detonating projectile appends exactly its one direct hit, in slot
/// order; nothing else touches this queue.
pub open spec fn hp_after_slots(
    entries: Seq<Option<SkillManifestation>>,
    k: int,
    init: Seq<HpModificationRequest>,
    chars: Seq<Option<CharacterStateComponent>>,
) -> Seq<HpModificationRequest>
    decreases k,
{
    if k <= 0 {
        init
    } else {
        let prev = hp_after_slots(entries, k - 1, init, chars);
        match entries[k - 1] {
            Some(SkillManifestation::PyroBlastManifest(p)) => {
                if pyro_detonates(p, chars) {
                    prev.push(p.spec_direct_hit())
                } else {
                    prev
                }
            },
            _ => prev,
        }
    }
}

/// The splash queue after the first `k` slots have run: each detonating
/// projectile appends exactly its one splash request.
pub open spec fn splash_after_slots(
    entries: Seq<Option<SkillManifestation>>,
    k: int,
    init: Seq<AreaAttackComponent>,
    chars: Seq<Option<CharacterStateComponent>>,
) -> Seq<AreaAttackComponent>
    decreases k,
{
    if k <= 0 {
        init
    } else {
        let prev = splash_after_slots(entries, k - 1, init, chars);
        match entries[k - 1] {
            Some(SkillManifestation::PyroBlastManifest(p)) => {
                if pyro_detonates(p, chars) {
                    prev.push(
                        p.spec_splash_attack(chars[p.target_entity_id.0 as int]->Some_0.pos),
                    )
                } else {
                    prev
                }
            },
            _ => prev,
        }
    }
}

/// The visual-effect queue after the first `k` slots have run: each
/// detonating projectile schedules exactly its one explosion.
pub open spec fn effects_after_slots(
    entries: Seq<Option<SkillManifestation>>,
    k: int,
    init: Seq<StrEffectComponent>,
    chars: Seq<Option<CharacterStateComponent>>,
    now: ElapsedTime,
) -> Seq<StrEffectComponent>
    decreases k,
{
    if k <= 0 {
        init
    } else {
        let prev = effects_after_slots(entries, k - 1, init, chars, now);
        match entries[k - 1] {
            Some(SkillManifestation::PyroBlastManifest(p)) => {
                if pyro_detonates(p, chars) {
                    prev.push(
                        spec_explosion_effect(
                            chars[p.target_entity_id.0 as int]->Some_0.pos,
                            now,
                        ),
                    )
                } else {
                    prev
                }
            },
            _ => prev,
        }
    }
}

/// Owns the live manifestations, keyed by entity index.
pub struct SkillManifestationRegistry {
    pub entries: Vec<Option<SkillManifestation>>,
}

impl SkillManifestationRegistry {
    pub open spec fn wf(self) -> bool {
        forall|i: int|
            0 <= i < self.entries@.len() && self.entries@[i] is Some
                ==> (#[trigger] self.entries@[i])->Some_0.wf()
    }

    pub fn new() -> (r: SkillManifestationRegistry)
        ensures
            r.wf(),
            r.entries@.len() == 0,
    {
        SkillManifestationRegistry { entries: Vec::new() }
    }

    /// Registers a freshly cast manifestation; the returned index
    /// identifies it until it is removed.
    pub fn add(&mut self, m: SkillManifestation) -> (id: usize)
        requires
            old(self).wf(),
            m.wf(),
        ensures
            final(self).wf(),
            id == old(self).entries@.len(),
            final(self).entries@ == old(self).entries@.push(Some(m)),
    {
        let id = self.entries.len();
        self.entries.push(Some(m));
        id
    }

    /// Removes a manifestation whose owning entity was deleted
    /// externally.
    pub fn remove(&mut self, id: usize)
        requires
            old(self).wf(),
            id < old(self).entries@.len(),
        ensures
            final(self).wf(),
            final(self).entries@ == old(self).entries@.update(id as int, None),
    {
        self.entries.set(id, None);
    }

    /// One tick of every live manifestation, in slot order: each is
    /// updated against this tick's collision events, character store and
    /// status engine, and each slot whose update signals completion is
    /// emptied.  Empty slots stay empty, the set of slots never changes,
    /// and the outbound queues receive exactly the per-slot requests, in
    /// slot order.
    pub fn update_all(
        &mut self,
        collisions: &Vec<Collision>,
        sys_vars: &mut SystemVariables,
        store: &CharacterStore,
        engine: &mut StatusEngine,
    )
        requires
            old(self).wf(),
            old(sys_vars).wf(),
            store.wf(),
            old(engine).wf(),
            old(sys_vars).time.0 + AREA_STATUS_COOLDOWN_MS <= TIME_LIMIT_MS,
            forall|i: int|
                0 <= i < old(self).entries@.len() ==> ((#[trigger] old(self).entries@[i])
                    matches Some(SkillManifestation::StatusApplierArea(a)) ==> old(
                    sys_vars,
                ).time.0 + a.status_creator.duration_of() <= TIME_LIMIT_MS),
            forall|i: int|
                0 <= i < old(self).entries@.len() ==> ((#[trigger] old(self).entries@[i])
                    matches Some(SkillManifestation::PyroBlastManifest(p)) ==> trunc_div(
                    p.configs.moving_speed * old(sys_vars).dt_ms as int,
                    1000,
                ) <= ARRIVAL_THRESHOLD),
        ensures
            final(self).wf(),
            final(sys_vars).wf(),
            final(engine).wf(),
            final(sys_vars).time == old(sys_vars).time,
            final(sys_vars).dt_ms == old(sys_vars).dt_ms,
            final(sys_vars).apply_statuses@ == applies_after_slots(
                old(self).entries@,
                old(self).entries@.len() as int,
                old(sys_vars).apply_statuses@,
                collisions@,
                old(sys_vars).time,
            ),
            final(sys_vars).hp_mod_requests@ == hp_after_slots(
                old(self).entries@,
                old(self).entries@.len() as int,
                old(sys_vars).hp_mod_requests@,
                store.chars@,
            ),
            final(sys_vars).area_hp_mod_requests@ == splash_after_slots(
                old(self).entries@,
                old(self).entries@.len() as int,
                old(sys_vars).area_hp_mod_requests@,
                store.chars@,
            ),
            final(sys_vars).str_effects@ == effects_after_slots(
                old(self).entries@,
                old(self).entries@.len() as int,
                old(sys_vars).str_effects@,
                store.chars@,
                old(sys_vars).time,
            ),
            final(sys_vars).sound_effects@ == old(sys_vars).sound_effects@,
            final(self).entries@.len() == old(self).entries@.len(),
            forall|i: int|
                0 <= i < old(self).entries@.len() ==> #[trigger] final(self).entries@[i]
                    == (match old(self).entries@[i] {
                    None => None,
                    Some(m) => spec_slot_update(
                        m,
                        collisions@,
                        old(sys_vars).time,
                        old(sys_vars).dt_ms as int,
                        store.chars@,
                    ),
                }),
    {
        let ghost entries0 = self.entries@;
        let ghost now0 = sys_vars.time;
        let ghost dt0 = sys_vars.dt_ms;
        let ghost applies0 = sys_vars.apply_statuses@;
        let ghost hp0 = sys_vars.hp_mod_requests@;
        let ghost splash0 = sys_vars.area_hp_mod_requests@;
        let ghost fx0 = sys_vars.str_effects@;
        let n = self.entries.len();
        let mut i: usize = 0;
        while i < n
            invariant
                self.wf(),
                sys_vars.wf(),
                store.wf(),
                engine.wf(),
                0 <= i <= n,
                n == entries0.len(),
                self.entries@.len() == entries0.len(),
                sys_vars.time == now0,
                sys_vars.dt_ms == dt0,
                sys_vars.apply_statuses@ == applies_after_slots(
                    entries0,
                    i as int,
                    applies0,
                    collisions@,
                    now0,
                ),
                sys_vars.hp_mod_requests@ == hp_after_slots(entries0, i as int, hp0, store.chars@),
                sys_vars.area_hp_mod_requests@ == splash_after_slots(
                    entries0,
                    i as int,
                    splash0,
                    store.chars@,
                ),
                sys_vars.str_effects@ == effects_after_slots(
                    entries0,
                    i as int,
                    fx0,
                    store.chars@,
                    now0,
                ),
                sys_vars.sound_effects@ == old(sys_vars).sound_effects@,
                now0.0 + AREA_STATUS_COOLDOWN_MS <= TIME_LIMIT_MS,
                forall|j: int|
                    0 <= j < entries0.len() ==> ((#[trigger] entries0[j]) matches Some(
                        SkillManifestation::StatusApplierArea(a),
                    ) ==> now0.0 + a.status_creator.duration_of() <= TIME_LIMIT_MS),
                forall|j: int|
                    0 <= j < entries0.len() ==> ((#[trigger] entries0[j]) matches Some(
                        SkillManifestation::PyroBlastManifest(p),
                    ) ==> trunc_div(p.configs.moving_speed * dt0 as int, 1000)
                        <= ARRIVAL_THRESHOLD),
                forall|j: int|
                    i <= j < entries0.len() ==> #[trigger] self.entries@[j] == entries0[j],
                forall|j: int|
                    0 <= j < i ==> #[trigger] self.entries@[j] == (match entries0[j] {
                        None => None,
                        Some(m) => spec_slot_update(
                            m,
                            collisions@,
                            now0,
                            dt0 as int,
                            store.chars@,
                        ),
                    }),
            decreases n - i,
        {
            let entry = self.entries[i];
            match entry {
                None => {},
                Some(m) => {
                    match m {
                        SkillManifestation::StatusApplierArea(mut a) => {
                            let ghost a0 = a;
                            a.update(collisions, sys_vars);
                            proof {
                                assert(a == area_after(a0, collisions@, now0));
                            }
                            self.entries.set(i, Some(SkillManifestation::StatusApplierArea(a)));
                        },
                        SkillManifestation::PyroBlastManifest(mut p) => {
                            let ghost p0 = p;
                            let r = p.update(sys_vars, store, engine);
                            match r {
                                ManifestUpdateResult::Keep => {
                                    proof {
                                        let target = store.chars@[
                                            p0.target_entity_id.0 as int]->Some_0;
                                        assert(p == (PyroBlastManifest {
                                            pos: spec_advance2(
                                                p0.pos,
                                                target.pos,
                                                p0.spec_step(dt0 as int),
                                            ),
                                            ..p0
                                        }));
                                    }
                                    self.entries.set(
                                        i,
                                        Some(SkillManifestation::PyroBlastManifest(p)),
                                    );
                                },
                                ManifestUpdateResult::Remove => {
                                    self.entries.set(i, None);
                                },
                            }
                        },
                    }
                },
            }
            i = i + 1;
        }
    }
}

} // verus!
