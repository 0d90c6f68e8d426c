//! Time-bounded attribute modifiers and their aggregation into a
//! character's effective attributes.
//!
//! Each active status contributes zero or more modifiers per tick; the
//! collector is rebuilt from scratch on every recomputation, so expired
//! modifiers are merely excluded at query time, never deleted.
//!
//! Composition is deterministic: all active additive modifiers are summed
//! onto the base value first, then all active percentage modifiers are
//! summed onto the 100% line and applied in one multiplication, so
//! `base 100, +20 additive, +50%` yields `(100 + 20) * 150 / 100 = 180`.

use vstd::prelude::*;

verus! {

use crate::geom::trunc_div;
use crate::time::ElapsedTime;

/// A relative amount, in whole percent points (50 means +50%).
#[derive(Clone, Copy, PartialEq, Eq, Structural, Debug)]
pub struct Percentage(pub i64);

/// Bound on the magnitude of one additive modifier.
pub const MODIFIER_VALUE_LIMIT: i64 = 1_000_000;

/// Bound on the magnitude of one percentage modifier, in percent points.
pub const MODIFIER_PCT_LIMIT: i64 = 1_000;

/// Bound on how many modifiers one channel can hold at a time.
pub const MODIFIER_CAP: usize = 1024;

/// Bound on the magnitude of a base attribute value.
pub const BASE_VALUE_LIMIT: i64 = 1_000_000_000;

/// One adjustment to one attribute: either a flat amount added to the
/// base value, or a percentage applied after all flat amounts.
#[derive(Clone, Copy, PartialEq, Eq, Structural, Debug)]
pub enum CharAttributeModifier {
    Additive(i64),
    Percentage(Percentage),
}

impl CharAttributeModifier {
    pub open spec fn wf(self) -> bool {
        match self {
            CharAttributeModifier::Additive(v) => -MODIFIER_VALUE_LIMIT <= v
                <= MODIFIER_VALUE_LIMIT,
            CharAttributeModifier::Percentage(p) => -MODIFIER_PCT_LIMIT <= p.0
                <= MODIFIER_PCT_LIMIT,
        }
    }
}

/// A modifier together with the window of simulation time in which it
/// applies.  The window is half-open: the modifier is active at `now` iff
/// `valid_from <= now < valid_until`.  A modifier is never mutated after
/// registration.
#[derive(Clone, Copy, PartialEq, Eq, Structural, Debug)]
pub struct ModifierEntry {
    pub modifier: CharAttributeModifier,
    pub valid_from: ElapsedTime,
    pub valid_until: ElapsedTime,
}

impl ModifierEntry {
    pub open spec fn wf(self) -> bool {
        &&& self.modifier.wf()
        &&& self.valid_from.wf()
        &&& self.valid_until.wf()
        &&& self.valid_from.0 <= self.valid_until.0
    }

    /// Whether the modifier applies at time `now`.
    pub open spec fn is_active(self, now: ElapsedTime) -> bool {
        self.valid_from.0 <= now.0 < self.valid_until.0
    }
}

/// Sum of the active additive modifiers of a channel.
pub open spec fn sum_additive(s: Seq<ModifierEntry>, now: ElapsedTime) -> int
    decreases s.len(),
{
    if s.len() == 0 {
        0
    } else {
        sum_additive(s.drop_last(), now) + (match s.last().modifier {
            CharAttributeModifier::Additive(v) => if s.last().is_active(now) {
                v as int
            } else {
                0
            },
            CharAttributeModifier::Percentage(_) => 0,
        })
    }
}

/// Sum of the active percentage modifiers of a channel, in percent points.
pub open spec fn sum_percentage(s: Seq<ModifierEntry>, now: ElapsedTime) -> int
    decreases s.len(),
{
    if s.len() == 0 {
        0
    } else {
        sum_percentage(s.drop_last(), now) + (match s.last().modifier {
            CharAttributeModifier::Additive(_) => 0,
            CharAttributeModifier::Percentage(p) => if s.last().is_active(now) {
                p.0 as int
            } else {
                0
            },
        })
    }
}

/// The effective value of an attribute channel at time `now`: additive
/// modifiers first, then the percentage modifiers in one step.
pub open spec fn spec_effective(s: Seq<ModifierEntry>, now: ElapsedTime, base: int) -> int {
    trunc_div((base + sum_additive(s, now)) * (100 + sum_percentage(s, now)), 100)
}

/// A modifier whose validity window does not contain `now` has no effect
/// on the effective value at `now`; in particular an expired modifier
/// (one with `valid_until <= now`) contributes nothing.
pub proof fn lemma_inactive_modifier_ignored(
    s: Seq<ModifierEntry>,
    e: ModifierEntry,
    now: ElapsedTime,
    base: int,
)
    requires
        !e.is_active(now),
    ensures
        spec_effective(s.push(e), now, base) == spec_effective(s, now, base),
{
    assert(s.push(e).drop_last() =~= s);
    assert(s.push(e).last() == e);
}

/// Collects the time-bounded modifiers that the active statuses of one
/// character contribute, one channel per named attribute.
pub struct CharAttributeModifierCollector {
    pub armor: Vec<ModifierEntry>,
    pub walking_speed: Vec<ModifierEntry>,
    pub attack_range: Vec<ModifierEntry>,
    pub attack_damage: Vec<ModifierEntry>,
    pub attack_speed: Vec<ModifierEntry>,
}

pub open spec fn channel_wf(s: Seq<ModifierEntry>) -> bool {
    &&& s.len() <= MODIFIER_CAP
    &&& forall|i: int| 0 <= i < s.len() ==> #[trigger] s[i].wf()
}

impl CharAttributeModifierCollector {
    pub open spec fn wf(self) -> bool {
        &&& channel_wf(self.armor@)
        &&& channel_wf(self.walking_speed@)
        &&& channel_wf(self.attack_range@)
        &&& channel_wf(self.attack_damage@)
        &&& channel_wf(self.attack_speed@)
    }

    pub fn new() -> (r: CharAttributeModifierCollector)
        ensures
            r.wf(),
            r.armor@ =~= Seq::<ModifierEntry>::empty(),
            r.walking_speed@ =~= Seq::<ModifierEntry>::empty(),
            r.attack_range@ =~= Seq::<ModifierEntry>::empty(),
            r.attack_damage@ =~= Seq::<ModifierEntry>::empty(),
            r.attack_speed@ =~= Seq::<ModifierEntry>::empty(),
    {
        CharAttributeModifierCollector {
            armor: Vec::new(),
            walking_speed: Vec::new(),
            attack_range: Vec::new(),
            attack_damage: Vec::new(),
            attack_speed: Vec::new(),
        }
    }

    /// Registers one time-bounded armor modifier.
    pub fn change_armor(
        &mut self,
        modifier: CharAttributeModifier,
        valid_from: ElapsedTime,
        valid_until: ElapsedTime,
    )
        requires
            old(self).wf(),
            old(self).armor@.len() < MODIFIER_CAP,
            (ModifierEntry { modifier, valid_from, valid_until }).wf(),
        ensures
            final(self).wf(),
            final(self).armor@ == old(self).armor@.push(
                ModifierEntry { modifier, valid_from, valid_until },
            ),
            final(self).walking_speed@ == old(self).walking_speed@,
            final(self).attack_range@ == old(self).attack_range@,
            final(self).attack_damage@ == old(self).attack_damage@,
            final(self).attack_speed@ == old(self).attack_speed@,
    {
        self.armor.push(ModifierEntry { modifier, valid_from, valid_until });
    }

    /// Registers one time-bounded walking-speed modifier.
    pub fn change_walking_speed(
        &mut self,
        modifier: CharAttributeModifier,
        valid_from: ElapsedTime,
        valid_until: ElapsedTime,
    )
        requires
            old(self).wf(),
            old(self).walking_speed@.len() < MODIFIER_CAP,
            (ModifierEntry { modifier, valid_from, valid_until }).wf(),
        ensures
            final(self).wf(),
            final(self).walking_speed@ == old(self).walking_speed@.push(
                ModifierEntry { modifier, valid_from, valid_until },
            ),
            final(self).armor@ == old(self).armor@,
            final(self).attack_range@ == old(self).attack_range@,
            final(self).attack_damage@ == old(self).attack_damage@,
            final(self).attack_speed@ == old(self).attack_speed@,
    {
        self.walking_speed.push(ModifierEntry { modifier, valid_from, valid_until });
    }

    /// Registers one time-bounded attack-range modifier.
    pub fn change_attack_range(
        &mut self,
        modifier: CharAttributeModifier,
        valid_from: ElapsedTime,
        valid_until: ElapsedTime,
    )
        requires
            old(self).wf(),
            old(self).attack_range@.len() < MODIFIER_CAP,
            (ModifierEntry { modifier, valid_from, valid_until }).wf(),
        ensures
            final(self).wf(),
            final(self).attack_range@ == old(self).attack_range@.push(
                ModifierEntry { modifier, valid_from, valid_until },
            ),
            final(self).armor@ == old(self).armor@,
            final(self).walking_speed@ == old(self).walking_speed@,
            final(self).attack_damage@ == old(self).attack_damage@,
            final(self).attack_speed@ == old(self).attack_speed@,
    {
        self.attack_range.push(ModifierEntry { modifier, valid_from, valid_until });
    }

    /// Registers one time-bounded attack-damage modifier.
    pub fn change_attack_damage(
        &mut self,
        modifier: CharAttributeModifier,
        valid_from: ElapsedTime,
        valid_until: ElapsedTime,
    )
        requires
            old(self).wf(),
            old(self).attack_damage@.len() < MODIFIER_CAP,
            (ModifierEntry { modifier, valid_from, valid_until }).wf(),
        ensures
            final(self).wf(),
            final(self).attack_damage@ == old(self).attack_damage@.push(
                ModifierEntry { modifier, valid_from, valid_until },
            ),
            final(self).armor@ == old(self).armor@,
            final(self).walking_speed@ == old(self).walking_speed@,
            final(self).attack_range@ == old(self).attack_range@,
            final(self).attack_speed@ == old(self).attack_speed@,
    {
        self.attack_damage.push(ModifierEntry { modifier, valid_from, valid_until });
    }

    /// Registers one time-bounded attack-speed modifier.
    pub fn change_attack_speed(
        &mut self,
        modifier: CharAttributeModifier,
        valid_from: ElapsedTime,
        valid_until: ElapsedTime,
    )
        requires
            old(self).wf(),
            old(self).attack_speed@.len() < MODIFIER_CAP,
            (ModifierEntry { modifier, valid_from, valid_until }).wf(),
        ensures
            final(self).wf(),
            final(self).attack_speed@ == old(self).attack_speed@.push(
                ModifierEntry { modifier, valid_from, valid_until },
            ),
            final(self).armor@ == old(self).armor@,
            final(self).walking_speed@ == old(self).walking_speed@,
            final(self).attack_range@ == old(self).attack_range@,
            final(self).attack_damage@ == old(self).attack_damage@,
    {
        self.attack_speed.push(ModifierEntry { modifier, valid_from, valid_until });
    }

    /// The effective armor at `now`, from `base` and the registered
    /// armor modifiers.
    pub fn calc_armor(&self, now: ElapsedTime, base: i64) -> (r: i64)
        requires
            self.wf(),
            -BASE_VALUE_LIMIT <= base <= BASE_VALUE_LIMIT,
        ensures
            r == spec_effective(self.armor@, now, base as int),
    {
        calc_channel(&self.armor, now, base)
    }

    /// The effective walking speed at `now`.
    pub fn calc_walking_speed(&self, now: ElapsedTime, base: i64) -> (r: i64)
        requires
            self.wf(),
            -BASE_VALUE_LIMIT <= base <= BASE_VALUE_LIMIT,
        ensures
            r == spec_effective(self.walking_speed@, now, base as int),
    {
        calc_channel(&self.walking_speed, now, base)
    }

    /// The effective attack range at `now`.
    pub fn calc_attack_range(&self, now: ElapsedTime, base: i64) -> (r: i64)
        requires
            self.wf(),
            -BASE_VALUE_LIMIT <= base <= BASE_VALUE_LIMIT,
        ensures
            r == spec_effective(self.attack_range@, now, base as int),
    {
        calc_channel(&self.attack_range, now, base)
    }

    /// The effective attack damage at `now`.
    pub fn calc_attack_damage(&self, now: ElapsedTime, base: i64) -> (r: i64)
        requires
            self.wf(),
            -BASE_VALUE_LIMIT <= base <= BASE_VALUE_LIMIT,
        ensures
            r == spec_effective(self.attack_damage@, now, base as int),
    {
        calc_channel(&self.attack_damage, now, base)
    }

    /// The effective attack speed at `now`.
    pub fn calc_attack_speed(&self, now: ElapsedTime, base: i64) -> (r: i64)
        requires
            self.wf(),
            -BASE_VALUE_LIMIT <= base <= BASE_VALUE_LIMIT,
        ensures
            r == spec_effective(self.attack_speed@, now, base as int),
    {
        calc_channel(&self.attack_speed, now, base)
    }
}

/// The channel sums grow at most linearly with the channel length.
proof fn lemma_sum_bounds(s: Seq<ModifierEntry>, now: ElapsedTime)
    requires
        forall|i: int| 0 <= i < s.len() ==> #[trigger] s[i].wf(),
    ensures
        -MODIFIER_VALUE_LIMIT * s.len() <= sum_additive(s, now) <= MODIFIER_VALUE_LIMIT * s.len(),
        -MODIFIER_PCT_LIMIT * s.len() <= sum_percentage(s, now) <= MODIFIER_PCT_LIMIT * s.len(),
    decreases s.len(),
{
    if s.len() == 0 {
    } else {
        assert(forall|i: int|
            0 <= i < s.drop_last().len() ==> #[trigger] s.drop_last()[i].wf());
        lemma_sum_bounds(s.drop_last(), now);
        assert(s.last().wf());
        assert(MODIFIER_VALUE_LIMIT * (s.len() - 1) + MODIFIER_VALUE_LIMIT == MODIFIER_VALUE_LIMIT
            * s.len() && MODIFIER_PCT_LIMIT * (s.len() - 1) + MODIFIER_PCT_LIMIT
            == MODIFIER_PCT_LIMIT * s.len()) by (nonlinear_arith);
    }
}

/// With the channel capacity respected, the sums fit fixed numeric bounds.
proof fn lemma_sum_bounds_const(s: Seq<ModifierEntry>, now: ElapsedTime)
    requires
        channel_wf(s),
    ensures
        -1_100_000_000 <= sum_additive(s, now) <= 1_100_000_000,
        -1_100_000 <= sum_percentage(s, now) <= 1_100_000,
{
    lemma_sum_bounds(s, now);
    assert(MODIFIER_VALUE_LIMIT * s.len() <= 1_100_000_000 && MODIFIER_PCT_LIMIT * s.len()
        <= 1_100_000) by (nonlinear_arith)
        requires
            0 <= s.len() <= MODIFIER_CAP,
    ;
}

/// Folds one channel into its effective value.
fn calc_channel(entries: &Vec<ModifierEntry>, now: ElapsedTime, base: i64) -> (r: i64)
    requires
        channel_wf(entries@),
        -BASE_VALUE_LIMIT <= base <= BASE_VALUE_LIMIT,
    ensures
        r == spec_effective(entries@, now, base as int),
{
    let mut add: i64 = 0;
    let mut pct: i64 = 0;
    let mut i: usize = 0;
    while i < entries.len()
        invariant
            channel_wf(entries@),
            0 <= i <= entries@.len(),
            add == sum_additive(entries@.subrange(0, i as int), now),
            pct == sum_percentage(entries@.subrange(0, i as int), now),
        decreases entries@.len() - i,
    {
        let e = entries[i];
        proof {
            let pre = entries@.subrange(0, i as int);
            let post = entries@.subrange(0, i + 1 as int);
            assert(post.drop_last() =~= pre);
            assert(post.last() == entries@[i as int]);
            assert(entries@[i as int].wf());
            assert(forall|j: int| 0 <= j < pre.len() ==> #[trigger] pre[j].wf());
            assert(pre.len() <= MODIFIER_CAP);
            lemma_sum_bounds_const(pre, now);
        }
        let active = {
            let from_ok = e.valid_from.has_already_passed(now);
            let until_ok = e.valid_until.has_not_passed(now);
            from_ok && until_ok
        };
        match e.modifier {
            CharAttributeModifier::Additive(v) => {
                if active {
                    add = add + v;
                }
            },
            CharAttributeModifier::Percentage(p) => {
                if active {
                    pct = pct + p.0;
                }
            },
        }
        i = i + 1;
    }
    proof {
        assert(entries@.subrange(0, entries@.len() as int) =~= entries@);
        lemma_sum_bounds_const(entries@, now);
        assert((base + add) * (100 + pct) < 0x4000_0000_0000_0000 && (base + add) * (100 + pct)
            > -0x4000_0000_0000_0000) by (nonlinear_arith)
            requires
                -2_100_000_000 <= base + add <= 2_100_000_000,
                -1_100_000 <= pct <= 1_100_000,
        ;
    }
    let num = (base + add) * (100 + pct);
    crate::geom::div_trunc(num, 100)
}

} // verus!
