//! The status engine: exclusive owner of the active statuses of every
//! character, one list per character id.
//!
//! Each tick the engine drains the pending status-application requests,
//! updates every active status (which may enqueue further requests),
//! detaches those whose expiry has passed (running their variant-specific
//! teardown), and, on demand, folds the surviving statuses' modifiers into
//! a character's effective attributes.

use vstd::prelude::*;

verus! {

use crate::attr::{spec_effective, CharAttributeModifierCollector, ModifierEntry,
    CharAttributeModifier, MODIFIER_CAP};
use crate::chars::{BasicAttackType, CharAttributes, CharEntityId, CharacterStateComponent,
    CharacterStore, SPEED_LIMIT};
use crate::context::{ActionPlayMode, ApplyStatusComponent, HpModificationRequest,
    StrEffectComponent, StrEffectType, SystemVariables};
use crate::status::{StatusEnum, StatusUpdateResult, POISON_PERIOD_MS};
use crate::time::{ElapsedTime, TIME_LIMIT_MS};

/// Bound on how many statuses one character can bear at a time.
pub const STATUS_CAP: usize = 64;

/// Whether the store has a live character under this id.
pub open spec fn chars_has(chars: Seq<Option<CharacterStateComponent>>, id: CharEntityId) -> bool {
    id.0 < chars.len() && chars[id.0 as int] is Some
}

/// The statuses of one character after the pending requests in `reqs`
/// have been applied against the characters in `chars`: requests whose
/// target is a live `id` append their status in order, all others leave
/// the list alone.
pub open spec fn statuses_after_reqs(
    init: Seq<StatusEnum>,
    reqs: Seq<ApplyStatusComponent>,
    id: int,
    chars: Seq<Option<CharacterStateComponent>>,
) -> Seq<StatusEnum>
    decreases reqs.len(),
{
    if reqs.len() == 0 {
        init
    } else {
        let prev = statuses_after_reqs(init, reqs.drop_last(), id, chars);
        let r = reqs.last();
        if r.target_entity_id.0 == id && chars_has(chars, r.target_entity_id) {
            prev.push(r.status)
        } else {
            prev
        }
    }
}

/// How one character changes while the requests are applied: applying an
/// exoskeleton status switches the bearer to ranged basic attacks (the
/// status's `on_apply` side effect); nothing else changes.
pub open spec fn char_after_reqs(
    init: Option<CharacterStateComponent>,
    reqs: Seq<ApplyStatusComponent>,
    id: int,
    chars: Seq<Option<CharacterStateComponent>>,
) -> Option<CharacterStateComponent>
    decreases reqs.len(),
{
    if reqs.len() == 0 {
        init
    } else {
        let prev = char_after_reqs(init, reqs.drop_last(), id, chars);
        let r = reqs.last();
        if r.target_entity_id.0 == id && chars_has(chars, r.target_entity_id)
            && r.status is ExoSkeletonStatus && prev is Some {
            Some(
                CharacterStateComponent {
                    basic_attack_type: BasicAttackType::Ranged,
                    ..prev->Some_0
                },
            )
        } else {
            prev
        }
    }
}

/// The one-shot visual effects scheduled while the requests are applied:
/// each applied exoskeleton schedules a cart effect at its bearer.
pub open spec fn effects_after_reqs(
    init: Seq<StrEffectComponent>,
    reqs: Seq<ApplyStatusComponent>,
    chars: Seq<Option<CharacterStateComponent>>,
    now: ElapsedTime,
) -> Seq<StrEffectComponent>
    decreases reqs.len(),
{
    if reqs.len() == 0 {
        init
    } else {
        let prev = effects_after_reqs(init, reqs.drop_last(), chars, now);
        let r = reqs.last();
        if chars_has(chars, r.target_entity_id) && r.status is ExoSkeletonStatus {
            prev.push(
                StrEffectComponent {
                    effect_id: StrEffectType::Cart,
                    pos: chars[r.target_entity_id.0 as int]->Some_0.pos,
                    start_time: now,
                    die_at: None,
                    play_mode: ActionPlayMode::Once,
                },
            )
        } else {
            prev
        }
    }
}

/// Applying requests never creates, deletes, or moves a character, and
/// touches nothing but its basic attack type.
proof fn lemma_char_after_reqs_props(
    init: Option<CharacterStateComponent>,
    reqs: Seq<ApplyStatusComponent>,
    id: int,
    chars: Seq<Option<CharacterStateComponent>>,
)
    ensures
        char_after_reqs(init, reqs, id, chars) is Some <==> init is Some,
        init matches Some(c) ==> char_after_reqs(init, reqs, id, chars) matches Some(c2) && c2
            == (CharacterStateComponent { basic_attack_type: c2.basic_attack_type, ..c }),
    decreases reqs.len(),
{
    if reqs.len() == 0 {
    } else {
        lemma_char_after_reqs_props(init, reqs.drop_last(), id, chars);
    }
}

/// The statuses of one character after a tick update at `now`: each
/// status whose expiry has not passed survives (a firing poison with its
/// next damage time advanced), all others are dropped.
pub open spec fn surviving(list: Seq<StatusEnum>, now: ElapsedTime) -> Seq<StatusEnum>
    decreases list.len(),
{
    if list.len() == 0 {
        Seq::empty()
    } else {
        let rest = surviving(list.drop_last(), now);
        if list.last().spec_keep(now) {
            rest.push(list.last().spec_update(now))
        } else {
            rest
        }
    }
}

/// The character after the tick's removed statuses ran their teardown.
pub open spec fn teardown_removed(
    list: Seq<StatusEnum>,
    c: CharacterStateComponent,
    now: ElapsedTime,
) -> CharacterStateComponent
    decreases list.len(),
{
    if list.len() == 0 {
        c
    } else {
        let prev = teardown_removed(list.drop_last(), c, now);
        if list.last().spec_keep(now) {
            prev
        } else {
            list.last().spec_teardown(prev)
        }
    }
}

/// The hp-modification requests the tick's firing poisons enqueue,
/// in list order.
pub open spec fn fired_requests(
    init: Seq<HpModificationRequest>,
    list: Seq<StatusEnum>,
    target: CharEntityId,
    now: ElapsedTime,
) -> Seq<HpModificationRequest>
    decreases list.len(),
{
    if list.len() == 0 {
        init
    } else {
        let prev = fired_requests(init, list.drop_last(), target, now);
        if list.last().spec_poison_fires(now) {
            prev.push(list.last().spec_poison_request(target))
        } else {
            prev
        }
    }
}

/// A status list with the given caster's blast markers stripped; every
/// other status, including another caster's identically-typed marker,
/// is untouched.
pub open spec fn without_markers_of(list: Seq<StatusEnum>, caster: CharEntityId) -> Seq<
    StatusEnum,
>
    decreases list.len(),
{
    if list.len() == 0 {
        Seq::empty()
    } else {
        let rest = without_markers_of(list.drop_last(), caster);
        if list.last() matches StatusEnum::PyroBlastTargetStatus(m) && m.caster_entity_id
            == caster {
            rest
        } else {
            rest.push(list.last())
        }
    }
}

/// After a tick update no surviving status has an expiry that has
/// already passed, so an expired status is absent from every later
/// attribute query or update.
pub proof fn lemma_expired_status_absent(list: Seq<StatusEnum>, now: ElapsedTime)
    ensures
        forall|i: int|
            0 <= i < surviving(list, now).len() ==> match (
            #[trigger] surviving(list, now)[i]).until_of() {
                Some(u) => !u.spec_has_already_passed(now),
                None => true,
            },
    decreases list.len(),
{
    if list.len() == 0 {
    } else {
        lemma_expired_status_absent(list.drop_last(), now);
        let s = list.last();
        if s.spec_keep(now) {
            assert(s.spec_update(now).until_of() == s.until_of());
        }
    }
}

/// A status whose expiry has passed also vanishes from attribute
/// queries: every modifier window it contributed ends at its expiry, so
/// at any query time at or after `now` the entry is inactive and the
/// effective value is as if it had never been registered.
pub proof fn lemma_expired_status_modifier_void(
    e: ModifierEntry,
    until: ElapsedTime,
    mods: Seq<ModifierEntry>,
    now: ElapsedTime,
    q: ElapsedTime,
    base: int,
)
    requires
        until.spec_has_already_passed(now),
        e.valid_until == until,
        now.0 <= q.0,
    ensures
        crate::attr::spec_effective(mods.push(e), q, base) == crate::attr::spec_effective(
            mods,
            q,
            base,
        ),
{
    assert(!e.is_active(q));
    crate::attr::lemma_inactive_modifier_ignored(mods, e, q, base);
}

/// The armor-channel modifier entries the statuses of a list contribute.
pub open spec fn collected_armor(list: Seq<StatusEnum>) -> Seq<ModifierEntry>
    decreases list.len(),
{
    if list.len() == 0 {
        Seq::empty()
    } else {
        let rest = collected_armor(list.drop_last());
        match list.last() {
            StatusEnum::ExoSkeletonStatus(s) => rest.push(
                ModifierEntry {
                    modifier: CharAttributeModifier::Percentage(s.armor),
                    valid_from: s.started,
                    valid_until: s.until,
                },
            ),
            _ => rest,
        }
    }
}

/// The walking-speed-channel modifier entries of a list.
pub open spec fn collected_walking_speed(list: Seq<StatusEnum>) -> Seq<ModifierEntry>
    decreases list.len(),
{
    if list.len() == 0 {
        Seq::empty()
    } else {
        let rest = collected_walking_speed(list.drop_last());
        match list.last() {
            StatusEnum::ExoSkeletonStatus(s) => rest.push(
                ModifierEntry {
                    modifier: CharAttributeModifier::Percentage(s.movement_speed),
                    valid_from: s.started,
                    valid_until: s.until,
                },
            ),
            _ => rest,
        }
    }
}

/// The attack-range-channel modifier entries of a list.
pub open spec fn collected_attack_range(list: Seq<StatusEnum>) -> Seq<ModifierEntry>
    decreases list.len(),
{
    if list.len() == 0 {
        Seq::empty()
    } else {
        let rest = collected_attack_range(list.drop_last());
        match list.last() {
            StatusEnum::ExoSkeletonStatus(s) => rest.push(
                ModifierEntry {
                    modifier: CharAttributeModifier::Percentage(s.attack_range),
                    valid_from: s.started,
                    valid_until: s.until,
                },
            ),
            _ => rest,
        }
    }
}

/// The attack-damage-channel modifier entries of a list.
pub open spec fn collected_attack_damage(list: Seq<StatusEnum>) -> Seq<ModifierEntry>
    decreases list.len(),
{
    if list.len() == 0 {
        Seq::empty()
    } else {
        let rest = collected_attack_damage(list.drop_last());
        match list.last() {
            StatusEnum::ExoSkeletonStatus(s) => rest.push(
                ModifierEntry {
                    modifier: CharAttributeModifier::Percentage(s.attack_damage),
                    valid_from: s.started,
                    valid_until: s.until,
                },
            ),
            _ => rest,
        }
    }
}

/// The attack-speed-channel modifier entries of a list.
pub open spec fn collected_attack_speed(list: Seq<StatusEnum>) -> Seq<ModifierEntry>
    decreases list.len(),
{
    if list.len() == 0 {
        Seq::empty()
    } else {
        let rest = collected_attack_speed(list.drop_last());
        match list.last() {
            StatusEnum::ExoSkeletonStatus(s) => rest.push(
                ModifierEntry {
                    modifier: CharAttributeModifier::Percentage(s.attack_speed),
                    valid_from: s.started,
                    valid_until: s.until,
                },
            ),
            _ => rest,
        }
    }
}

pub open spec fn list_wf(list: Seq<StatusEnum>) -> bool {
    &&& list.len() <= STATUS_CAP
    &&& forall|i: int| 0 <= i < list.len() ==> (#[trigger] list[i]).wf()
}

/// Owns the per-character status lists, indexed by character id; ids
/// beyond the vector's length simply have no statuses yet.
pub struct StatusEngine {
    pub statuses: Vec<Vec<StatusEnum>>,
}

impl StatusEngine {
    /// The statuses of the character with this id.
    pub open spec fn statuses_of(self, id: int) -> Seq<StatusEnum> {
        if 0 <= id < self.statuses@.len() {
            self.statuses@[id]@
        } else {
            Seq::empty()
        }
    }

    pub open spec fn wf(self) -> bool {
        forall|i: int| list_wf(#[trigger] self.statuses_of(i))
    }

    pub fn new() -> (r: StatusEngine)
        ensures
            r.wf(),
            forall|i: int| #[trigger] r.statuses_of(i) =~= Seq::<StatusEnum>::empty(),
    {
        StatusEngine { statuses: Vec::new() }
    }

    /// Grows the per-character lists so index `id` is in range.
    fn ensure_index(&mut self, id: usize)
        requires
            old(self).wf(),
        ensures
            final(self).wf(),
            final(self).statuses@.len() > id,
            forall|i: int| #[trigger] final(self).statuses_of(i) == old(self).statuses_of(i),
    {
        while self.statuses.len() <= id
            invariant
                self.wf(),
                forall|i: int| #[trigger] self.statuses_of(i) == old(self).statuses_of(i),
            decreases id + 1 - self.statuses@.len(),
        {
            let ghost pre = *self;
            self.statuses.push(Vec::new());
            proof {
                assert(forall|i: int| #[trigger]
                    self.statuses_of(i) =~= pre.statuses_of(i));
            }
        }
    }

    /// Applies one status-application request: if the target is alive,
    /// the status's `on_apply` side effects run (an exoskeleton switches
    /// the bearer to ranged attacks and schedules a one-shot cart
    /// effect), then the status is appended to the target's list.  A
    /// request against a deleted entity is dropped without a trace.
    pub fn apply_status(
        &mut self,
        req: ApplyStatusComponent,
        store: &mut CharacterStore,
        str_effects: &mut Vec<StrEffectComponent>,
        now: ElapsedTime,
    )
        requires
            old(self).wf(),
            old(store).wf(),
            req.status.wf(),
            old(self).statuses_of(req.target_entity_id.0 as int).len() < STATUS_CAP,
        ensures
            final(self).wf(),
            final(store).wf(),
            forall|i: int| #[trigger]
                final(self).statuses_of(i) == (if i == req.target_entity_id.0 as int
                    && chars_has(old(store).chars@, req.target_entity_id) {
                    old(self).statuses_of(i).push(req.status)
                } else {
                    old(self).statuses_of(i)
                }),
            final(store).chars@ == (if chars_has(old(store).chars@, req.target_entity_id)
                && req.status is ExoSkeletonStatus {
                old(store).chars@.update(
                    req.target_entity_id.0 as int,
                    Some(
                        CharacterStateComponent {
                            basic_attack_type: BasicAttackType::Ranged,
                            ..old(store).chars@[req.target_entity_id.0 as int]->Some_0
                        },
                    ),
                )
            } else {
                old(store).chars@
            }),
            final(str_effects)@ == (if chars_has(old(store).chars@, req.target_entity_id)
                && req.status is ExoSkeletonStatus {
                old(str_effects)@.push(
                    StrEffectComponent {
                        effect_id: StrEffectType::Cart,
                        pos: old(store).chars@[req.target_entity_id.0 as int]->Some_0.pos,
                        start_time: now,
                        die_at: None,
                        play_mode: ActionPlayMode::Once,
                    },
                )
            } else {
                old(str_effects)@
            }),
    {
        let target = req.target_entity_id;
        let maybe_char = store.get_char(target);
        match maybe_char {
            None => {},
            Some(mut c) => {
                if let StatusEnum::ExoSkeletonStatus(_) = req.status {
                    c.basic_attack_type = BasicAttackType::Ranged;
                    store.set_char(target, c);
                    str_effects.push(
                        StrEffectComponent {
                            effect_id: StrEffectType::Cart,
                            pos: c.pos,
                            start_time: now,
                            die_at: None,
                            play_mode: ActionPlayMode::Once,
                        },
                    );
                }
                self.ensure_index(target.0);
                let ghost pre = *self;
                let mut list = self.statuses.remove(target.0);
                list.push(req.status);
                self.statuses.insert(target.0, list);
                proof {
                    assert(self.statuses@.len() == pre.statuses@.len());
                    assert(forall|i: int|
                        0 <= i < self.statuses@.len() && i != target.0 as int
                            ==> self.statuses@[i] == pre.statuses@[i]);
                    assert(self.statuses@[target.0 as int]@ =~= pre.statuses@[
                        target.0 as int]@.push(req.status));
                    assert(forall|i: int| #[trigger]
                        self.statuses_of(i) == (if i == target.0 as int {
                            pre.statuses_of(i).push(req.status)
                        } else {
                            pre.statuses_of(i)
                        }));
                }
            },
        }
    }

    /// Drains every pending status-application request from the shared
    /// context, applying them in submission order.
    pub fn drain_apply_requests(
        &mut self,
        sys_vars: &mut SystemVariables,
        store: &mut CharacterStore,
    )
        requires
            old(self).wf(),
            old(store).wf(),
            forall|k: int|
                0 <= k < old(sys_vars).apply_statuses@.len() ==> (#[trigger] old(
                    sys_vars,
                ).apply_statuses@[k]).status.wf(),
            forall|id: int|
                #[trigger] old(self).statuses_of(id).len() + old(
                    sys_vars,
                ).apply_statuses@.len() <= STATUS_CAP,
        ensures
            final(self).wf(),
            final(store).wf(),
            final(sys_vars).apply_statuses@.len() == 0,
            final(sys_vars).time == old(sys_vars).time,
            final(sys_vars).dt_ms == old(sys_vars).dt_ms,
            final(sys_vars).hp_mod_requests@ == old(sys_vars).hp_mod_requests@,
            final(sys_vars).area_hp_mod_requests@ == old(sys_vars).area_hp_mod_requests@,
            final(sys_vars).sound_effects@ == old(sys_vars).sound_effects@,
            forall|id: int| #[trigger]
                final(self).statuses_of(id) == statuses_after_reqs(
                    old(self).statuses_of(id),
                    old(sys_vars).apply_statuses@,
                    id,
                    old(store).chars@,
                ),
            forall|i: int|
                0 <= i < old(store).chars@.len() ==> #[trigger] final(store).chars@[i]
                    == char_after_reqs(
                    old(store).chars@[i],
                    old(sys_vars).apply_statuses@,
                    i,
                    old(store).chars@,
                ),
            final(store).chars@.len() == old(store).chars@.len(),
            final(sys_vars).str_effects@ == effects_after_reqs(
                old(sys_vars).str_effects@,
                old(sys_vars).apply_statuses@,
                old(store).chars@,
                old(sys_vars).time,
            ),
    {
        let ghost reqs = sys_vars.apply_statuses@;
        let ghost chars0 = store.chars@;
        let ghost eng0 = *self;
        let ghost effects0 = sys_vars.str_effects@;
        let now = sys_vars.time;
        let mut k: usize = 0;
        let n = sys_vars.apply_statuses.len();
        while k < n
            invariant
                self.wf(),
                store.wf(),
                n == reqs.len(),
                0 <= k <= n,
                sys_vars.apply_statuses@ == reqs,
                sys_vars.time == now,
                sys_vars.dt_ms == old(sys_vars).dt_ms,
                sys_vars.hp_mod_requests@ == old(sys_vars).hp_mod_requests@,
                sys_vars.area_hp_mod_requests@ == old(sys_vars).area_hp_mod_requests@,
                sys_vars.sound_effects@ == old(sys_vars).sound_effects@,
                forall|j: int| 0 <= j < reqs.len() ==> (#[trigger] reqs[j]).status.wf(),
                forall|id: int| #[trigger] eng0.statuses_of(id).len() + reqs.len() <= STATUS_CAP,
                forall|id: int| #[trigger]
                    self.statuses_of(id) == statuses_after_reqs(
                        eng0.statuses_of(id),
                        reqs.subrange(0, k as int),
                        id,
                        chars0,
                    ),
                store.chars@.len() == chars0.len(),
                forall|i: int|
                    0 <= i < chars0.len() ==> #[trigger] store.chars@[i] == char_after_reqs(
                        chars0[i],
                        reqs.subrange(0, k as int),
                        i,
                        chars0,
                    ),
                sys_vars.str_effects@ == effects_after_reqs(
                    effects0,
                    reqs.subrange(0, k as int),
                    chars0,
                    now,
                ),
            decreases n - k,
        {
            let req = sys_vars.apply_statuses[k];
            let ghost pre_eng = *self;
            let ghost pre_chars = store.chars@;
            let ghost pre_effects = sys_vars.str_effects@;
            proof {
                assert(reqs.subrange(0, k + 1 as int).drop_last() =~= reqs.subrange(
                    0,
                    k as int,
                ));
                assert(reqs.subrange(0, k + 1 as int).last() == reqs[k as int]);
                // the target's current list matches the fold, so the cap holds
                assert(self.statuses_of(req.target_entity_id.0 as int) == statuses_after_reqs(
                    eng0.statuses_of(req.target_entity_id.0 as int),
                    reqs.subrange(0, k as int),
                    req.target_entity_id.0 as int,
                    chars0,
                ));
                lemma_statuses_after_len(
                    eng0.statuses_of(req.target_entity_id.0 as int),
                    reqs.subrange(0, k as int),
                    req.target_entity_id.0 as int,
                    chars0,
                );
                // existence and position of the target are stable under applies
                if (req.target_entity_id.0 as int) < chars0.len() {
                    lemma_char_after_reqs_props(
                        chars0[req.target_entity_id.0 as int],
                        reqs.subrange(0, k as int),
                        req.target_entity_id.0 as int,
                        chars0,
                    );
                }
            }
            self.apply_status(req, store, &mut sys_vars.str_effects, now);
            proof {
                assert(chars_has(pre_chars, req.target_entity_id) == chars_has(
                    chars0,
                    req.target_entity_id,
                ));
                if chars_has(chars0, req.target_entity_id) {
                    assert(pre_chars[req.target_entity_id.0 as int]->Some_0.pos == chars0[
                        req.target_entity_id.0 as int]->Some_0.pos);
                }
                assert(forall|id: int| #[trigger]
                    self.statuses_of(id) == statuses_after_reqs(
                        eng0.statuses_of(id),
                        reqs.subrange(0, k + 1 as int),
                        id,
                        chars0,
                    ));
                assert(forall|i: int|
                    0 <= i < chars0.len() ==> #[trigger] store.chars@[i] == char_after_reqs(
                        chars0[i],
                        reqs.subrange(0, k + 1 as int),
                        i,
                        chars0,
                    ));
                assert(sys_vars.str_effects@ == effects_after_reqs(
                    effects0,
                    reqs.subrange(0, k + 1 as int),
                    chars0,
                    now,
                ));
            }
            k = k + 1;
        }
        proof {
            assert(reqs.subrange(0, n as int) =~= reqs);
        }
        sys_vars.apply_statuses.clear();
    }

    /// One tick of every status of one character: each status updates
    /// against the bearer and the engine detaches those whose expiry has
    /// passed, running their teardown on the bearer.
    pub fn update_char_statuses(
        &mut self,
        target_id: CharEntityId,
        store: &mut CharacterStore,
        now: ElapsedTime,
        hp_mod_requests: &mut Vec<HpModificationRequest>,
    )
        requires
            old(self).wf(),
            old(store).wf(),
            now.wf(),
            now.0 + POISON_PERIOD_MS <= TIME_LIMIT_MS,
            old(store).spec_get(target_id) is Some,
        ensures
            final(self).wf(),
            final(store).wf(),
            forall|i: int| #[trigger]
                final(self).statuses_of(i) == (if i == target_id.0 as int {
                    surviving(old(self).statuses_of(i), now)
                } else {
                    old(self).statuses_of(i)
                }),
            final(store).chars@ == old(store).chars@.update(
                target_id.0 as int,
                Some(
                    teardown_removed(
                        old(self).statuses_of(target_id.0 as int),
                        old(store).spec_get(target_id)->Some_0,
                        now,
                    ),
                ),
            ),
            final(hp_mod_requests)@ == fired_requests(
                old(hp_mod_requests)@,
                old(self).statuses_of(target_id.0 as int),
                target_id,
                now,
            ),
    {
        self.ensure_index(target_id.0);
        let ghost list0 = self.statuses_of(target_id.0 as int);
        let mut c = store.get_char(target_id).unwrap();
        let ghost c0 = c;
        let ghost hp0 = hp_mod_requests@;
        let mut new_list: Vec<StatusEnum> = Vec::new();
        let t = target_id.0;
        let len = self.statuses[t].len();
        let mut i: usize = 0;
        while i < len
            invariant
                self.wf(),
                t < self.statuses@.len(),
                t == target_id.0,
                len == list0.len(),
                self.statuses@[t as int]@ == list0,
                0 <= i <= len,
                now.wf(),
                now.0 + POISON_PERIOD_MS <= TIME_LIMIT_MS,
                new_list@ == surviving(list0.subrange(0, i as int), now),
                c == teardown_removed(list0.subrange(0, i as int), c0, now),
                c.wf(),
                hp_mod_requests@ == fired_requests(
                    hp0,
                    list0.subrange(0, i as int),
                    target_id,
                    now,
                ),
            decreases len - i,
        {
            let mut s = self.statuses[t][i];
            proof {
                assert(list0.subrange(0, i + 1 as int).drop_last() =~= list0.subrange(
                    0,
                    i as int,
                ));
                assert(list0.subrange(0, i + 1 as int).last() == list0[i as int]);
                assert(list_wf(self.statuses_of(t as int)));
                assert(self.statuses_of(t as int) == list0);
                assert(list0[i as int].wf());
            }
            let keep = s.update(now, target_id, &mut c, hp_mod_requests);
            match keep {
                StatusUpdateResult::KeepIt => {
                    new_list.push(s);
                },
                StatusUpdateResult::RemoveIt => {},
            }
            i = i + 1;
        }
        proof {
            assert(list0.subrange(0, len as int) =~= list0);
            crate::status_engine::lemma_surviving_len(list0, now);
        }
        let ghost pre = *self;
        self.statuses.set(t, new_list);
        store.set_char(target_id, c);
        proof {
            assert(forall|i2: int|
                i2 != t as int ==> #[trigger] self.statuses_of(i2) == pre.statuses_of(i2));
            assert(self.statuses_of(t as int) == surviving(list0, now));
            lemma_surviving_wf(list0, now);
        }
    }

    /// Strips a specific caster's blast markers from one character,
    /// leaving any other caster's identically-typed marker in place.
    pub fn remove_marker_from_caster(&mut self, target_id: CharEntityId, caster: CharEntityId)
        requires
            old(self).wf(),
        ensures
            final(self).wf(),
            forall|i: int| #[trigger]
                final(self).statuses_of(i) == (if i == target_id.0 as int {
                    without_markers_of(old(self).statuses_of(i), caster)
                } else {
                    old(self).statuses_of(i)
                }),
    {
        self.ensure_index(target_id.0);
        let ghost list0 = self.statuses_of(target_id.0 as int);
        let mut new_list: Vec<StatusEnum> = Vec::new();
        let t = target_id.0;
        let len = self.statuses[t].len();
        let mut i: usize = 0;
        while i < len
            invariant
                self.wf(),
                t < self.statuses@.len(),
                len == list0.len(),
                self.statuses@[t as int]@ == list0,
                0 <= i <= len,
                new_list@ == without_markers_of(list0.subrange(0, i as int), caster),
            decreases len - i,
        {
            let s = self.statuses[t][i];
            proof {
                assert(list0.subrange(0, i + 1 as int).drop_last() =~= list0.subrange(
                    0,
                    i as int,
                ));
                assert(list0.subrange(0, i + 1 as int).last() == list0[i as int]);
            }
            let is_this_casters_marker = match s {
                StatusEnum::PyroBlastTargetStatus(m) => m.caster_entity_id.0 == caster.0,
                _ => false,
            };
            if !is_this_casters_marker {
                new_list.push(s);
            }
            i = i + 1;
        }
        proof {
            assert(list0.subrange(0, len as int) =~= list0);
            lemma_without_markers_len(list0, caster);
        }
        let ghost pre = *self;
        self.statuses.set(t, new_list);
        proof {
            assert(forall|i2: int|
                i2 != t as int ==> #[trigger] self.statuses_of(i2) == pre.statuses_of(i2));
            lemma_without_markers_wf(list0, caster);
        }
    }

    /// Recomputes one character's effective attributes at `now` from its
    /// base attributes and the modifiers its surviving statuses
    /// contribute, one composition per named attribute channel; the
    /// walking speed is also clamped into its valid range and written
    /// back to the character, where the movement code reads it.
    pub fn calc_char_attributes(
        &self,
        target_id: CharEntityId,
        store: &mut CharacterStore,
        now: ElapsedTime,
    ) -> (r: CharAttributes)
        requires
            self.wf(),
            old(store).wf(),
            old(store).spec_get(target_id) is Some,
        ensures
            final(store).wf(),
            r.armor == spec_effective(
                collected_armor(self.statuses_of(target_id.0 as int)),
                now,
                old(store).spec_get(target_id)->Some_0.base_attributes.armor as int,
            ),
            r.walking_speed == clamp_speed(
                spec_effective(
                    collected_walking_speed(self.statuses_of(target_id.0 as int)),
                    now,
                    old(store).spec_get(target_id)->Some_0.base_attributes.walking_speed as int,
                ),
            ),
            r.attack_range == spec_effective(
                collected_attack_range(self.statuses_of(target_id.0 as int)),
                now,
                old(store).spec_get(target_id)->Some_0.base_attributes.attack_range as int,
            ),
            r.attack_damage == spec_effective(
                collected_attack_damage(self.statuses_of(target_id.0 as int)),
                now,
                old(store).spec_get(target_id)->Some_0.base_attributes.attack_damage as int,
            ),
            r.attack_speed == spec_effective(
                collected_attack_speed(self.statuses_of(target_id.0 as int)),
                now,
                old(store).spec_get(target_id)->Some_0.base_attributes.attack_speed as int,
            ),
            final(store).chars@ == old(store).chars@.update(
                target_id.0 as int,
                Some(
                    CharacterStateComponent {
                        calculated_walking_speed: r.walking_speed,
                        ..old(store).spec_get(target_id)->Some_0
                    },
                ),
            ),
    {
        let mut c = store.get_char(target_id).unwrap();
        let mut collector = CharAttributeModifierCollector::new();
        let ghost list = self.statuses_of(target_id.0 as int);
        if target_id.0 < self.statuses.len() {
            let t = target_id.0;
            let len = self.statuses[t].len();
            let mut i: usize = 0;
            while i < len
                invariant
                    self.wf(),
                    t < self.statuses@.len(),
                    t == target_id.0,
                    len == list.len(),
                    self.statuses@[t as int]@ == list,
                    0 <= i <= len,
                    collector.wf(),
                    collector.armor@ == collected_armor(list.subrange(0, i as int)),
                    collector.walking_speed@ == collected_walking_speed(
                        list.subrange(0, i as int),
                    ),
                    collector.attack_range@ == collected_attack_range(
                        list.subrange(0, i as int),
                    ),
                    collector.attack_damage@ == collected_attack_damage(
                        list.subrange(0, i as int),
                    ),
                    collector.attack_speed@ == collected_attack_speed(
                        list.subrange(0, i as int),
                    ),
                    collector.armor@.len() <= i,
                    collector.walking_speed@.len() <= i,
                    collector.attack_range@.len() <= i,
                    collector.attack_damage@.len() <= i,
                    collector.attack_speed@.len() <= i,
                decreases len - i,
            {
                let s = self.statuses[t][i];
                proof {
                    assert(list.subrange(0, i + 1 as int).drop_last() =~= list.subrange(
                        0,
                        i as int,
                    ));
                    assert(list.subrange(0, i + 1 as int).last() == list[i as int]);
                    assert(list_wf(self.statuses_of(t as int)));
                    assert(self.statuses_of(t as int) == list);
                    assert(list[i as int].wf());
                    assert(i < STATUS_CAP < MODIFIER_CAP);
                }
                s.calc_attribs(&mut collector);
                i = i + 1;
            }
            proof {
                assert(list.subrange(0, len as int) =~= list);
            }
        } else {
            proof {
                assert(list =~= Seq::<StatusEnum>::empty());
                assert(collected_armor(list) =~= Seq::<ModifierEntry>::empty());
                assert(collected_walking_speed(list) =~= Seq::<ModifierEntry>::empty());
                assert(collected_attack_range(list) =~= Seq::<ModifierEntry>::empty());
                assert(collected_attack_damage(list) =~= Seq::<ModifierEntry>::empty());
                assert(collected_attack_speed(list) =~= Seq::<ModifierEntry>::empty());
            }
        }
        let armor = collector.calc_armor(now, c.base_attributes.armor);
        let raw_speed = collector.calc_walking_speed(now, c.base_attributes.walking_speed);
        let attack_range = collector.calc_attack_range(now, c.base_attributes.attack_range);
        let attack_damage = collector.calc_attack_damage(now, c.base_attributes.attack_damage);
        let attack_speed = collector.calc_attack_speed(now, c.base_attributes.attack_speed);
        let speed = if raw_speed < 0 {
            0
        } else if raw_speed > SPEED_LIMIT {
            SPEED_LIMIT
        } else {
            raw_speed
        };
        let r = CharAttributes {
            armor,
            walking_speed: speed,
            attack_range,
            attack_damage,
            attack_speed,
        };
        c.calculated_walking_speed = speed;
        store.set_char(target_id, c);
        r
    }
}

/// A walking speed clamped into its valid range.
pub open spec fn clamp_speed(v: int) -> int {
    if v < 0 {
        0
    } else if v > SPEED_LIMIT {
        SPEED_LIMIT as int
    } else {
        v
    }
}

/// Applying requests grows a status list by at most one per request.
proof fn lemma_statuses_after_len(
    init: Seq<StatusEnum>,
    reqs: Seq<ApplyStatusComponent>,
    id: int,
    chars: Seq<Option<CharacterStateComponent>>,
)
    ensures
        statuses_after_reqs(init, reqs, id, chars).len() <= init.len() + reqs.len(),
    decreases reqs.len(),
{
    if reqs.len() == 0 {
    } else {
        lemma_statuses_after_len(init, reqs.drop_last(), id, chars);
    }
}

/// The tick update never grows a status list.
pub proof fn lemma_surviving_len(list: Seq<StatusEnum>, now: ElapsedTime)
    ensures
        surviving(list, now).len() <= list.len(),
    decreases list.len(),
{
    if list.len() == 0 {
    } else {
        lemma_surviving_len(list.drop_last(), now);
    }
}

/// The tick update keeps every surviving status well-formed.
proof fn lemma_surviving_wf(list: Seq<StatusEnum>, now: ElapsedTime)
    requires
        list_wf(list),
        now.wf(),
        now.0 + POISON_PERIOD_MS <= TIME_LIMIT_MS,
    ensures
        list_wf(surviving(list, now)),
    decreases list.len(),
{
    if list.len() == 0 {
    } else {
        assert(forall|i: int|
            0 <= i < list.drop_last().len() ==> (#[trigger] list.drop_last()[i]).wf());
        lemma_surviving_wf(list.drop_last(), now);
        lemma_surviving_len(list.drop_last(), now);
        let s = list.last();
        assert(s.wf());
        if s.spec_keep(now) {
            if s.spec_poison_fires(now) {
                assert(s.spec_update(now).wf());
            } else {
                assert(s.spec_update(now) == s);
            }
        }
    }
}

/// Stripping markers never grows a status list.
proof fn lemma_without_markers_len(list: Seq<StatusEnum>, caster: CharEntityId)
    ensures
        without_markers_of(list, caster).len() <= list.len(),
    decreases list.len(),
{
    if list.len() == 0 {
    } else {
        lemma_without_markers_len(list.drop_last(), caster);
    }
}

/// Stripping markers keeps the remaining statuses well-formed.
proof fn lemma_without_markers_wf(list: Seq<StatusEnum>, caster: CharEntityId)
    requires
        list_wf(list),
    ensures
        list_wf(without_markers_of(list, caster)),
    decreases list.len(),
{
    if list.len() == 0 {
    } else {
        assert(forall|i: int|
            0 <= i < list.drop_last().len() ==> (#[trigger] list.drop_last()[i]).wf());
        lemma_without_markers_wf(list.drop_last(), caster);
        lemma_without_markers_len(list.drop_last(), caster);
        assert(list.last().wf());
    }
}

} // verus!
