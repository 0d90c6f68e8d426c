//! The sentinel-turret decision loop: a stationary, controller-driven
//! unit that re-evaluates its target every tick.
//!
//! A valid preferred target always wins; otherwise the turret keeps its
//! current target while it is alive and in radius, and falls back to a
//! closest-enemy-in-radius search when it is not.

use vstd::prelude::*;

verus! {

use crate::chars::{CharEntityId, CharacterStateComponent, CharacterStore, ControllerComponent,
    EntityTarget, PlayerIntention, Team};
use crate::geom::{dist_sq2, spec_dist_sq2, Vec2Fx, COORD_LIMIT};
use crate::status_engine::chars_has;

/// What the turret decision loop decides for one turret in one tick.
#[derive(Clone, Copy, PartialEq, Eq, Structural, Debug)]
pub enum TurretTickResult {
    /// The controlled character no longer exists: the caller must delete
    /// the turret's controller entity.
    DeleteController,
    /// The intention the controller issues this tick: attack somebody,
    /// or nothing when no enemy is in radius.
    Intention(Option<PlayerIntention>),
}

/// Whether a character under `id` is an enemy of `team`, alive, not the
/// excluded entity, and strictly inside the radius around `center`.
pub open spec fn spec_enemy_candidate(
    chars: Seq<Option<CharacterStateComponent>>,
    id: int,
    center: Vec2Fx,
    radius: int,
    team: Team,
    except: CharEntityId,
) -> bool {
    &&& 0 <= id < chars.len()
    &&& chars[id] is Some
    &&& chars[id]->Some_0.team != team
    &&& chars[id]->Some_0.hp > 0
    &&& id != except.0 as int
    &&& spec_dist_sq2(chars[id]->Some_0.pos, center) < radius * radius
}

/// Linear scan for the closest live enemy strictly inside the radius,
/// nearest by planar distance; the excluded entity is never returned.
pub fn get_closest_enemy_in_area(
    store: &CharacterStore,
    center: &Vec2Fx,
    radius: i64,
    team: Team,
    except: CharEntityId,
) -> (r: Option<CharEntityId>)
    requires
        store.wf(),
        center.wf(),
        0 < radius <= COORD_LIMIT,
    ensures
        r matches Some(id) ==> {
            &&& spec_enemy_candidate(store.chars@, id.0 as int, *center, radius as int, team, except)
            &&& forall|j: int|
                spec_enemy_candidate(store.chars@, j, *center, radius as int, team, except)
                    ==> spec_dist_sq2(store.chars@[id.0 as int]->Some_0.pos, *center)
                    <= spec_dist_sq2(#[trigger] store.chars@[j]->Some_0.pos, *center)
        },
        r is None ==> forall|j: int|
            !spec_enemy_candidate(store.chars@, j, *center, radius as int, team, except),
{
    let mut best: Option<CharEntityId> = None;
    let mut best_d2: i64 = 0;
    let n = store.len();
    let mut i: usize = 0;
    while i < n
        invariant
            store.wf(),
            center.wf(),
            0 < radius <= COORD_LIMIT,
            0 <= i <= n,
            n == store.chars@.len(),
            best matches Some(id) ==> {
                &&& spec_enemy_candidate(
                    store.chars@,
                    id.0 as int,
                    *center,
                    radius as int,
                    team,
                    except,
                )
                &&& best_d2 == spec_dist_sq2(store.chars@[id.0 as int]->Some_0.pos, *center)
                &&& forall|j: int|
                    j < i && spec_enemy_candidate(
                        store.chars@,
                        j,
                        *center,
                        radius as int,
                        team,
                        except,
                    ) ==> best_d2 <= spec_dist_sq2(
                        #[trigger] store.chars@[j]->Some_0.pos,
                        *center,
                    )
            },
            best is None ==> forall|j: int|
                j < i ==> !spec_enemy_candidate(
                    store.chars@,
                    j,
                    *center,
                    radius as int,
                    team,
                    except,
                ),
        decreases n - i,
    {
        let id = CharEntityId(i);
        let maybe_char = store.get_char(id);
        match maybe_char {
            None => {},
            Some(c) => {
                let is_candidate = c.team.0 != team.0 && c.hp > 0 && i != except.0;
                if is_candidate {
                    let d2 = dist_sq2(&c.pos, center);
                    proof {
                        assert((radius as int) * (radius as int) <= COORD_LIMIT as int
                            * COORD_LIMIT as int) by (nonlinear_arith)
                            requires
                                0 < radius <= COORD_LIMIT,
                        ;
                    }
                    if d2 < radius * radius {
                        match best {
                            None => {
                                best = Some(id);
                                best_d2 = d2;
                            },
                            Some(_) => {
                                if d2 < best_d2 {
                                    best = Some(id);
                                    best_d2 = d2;
                                }
                            },
                        }
                    }
                }
            },
        }
        i = i + 1;
    }
    best
}

/// The current explicit entity target of a character, if it has one.
pub open spec fn spec_current_target(me: CharacterStateComponent) -> Option<CharEntityId> {
    match me.target {
        Some(EntityTarget::OtherEntity(id)) => Some(id),
        _ => None,
    }
}

/// The preferred target overrides everything this tick iff one is set,
/// it differs from the current target (or there is none), and it is
/// alive and strictly inside the attack radius.
pub open spec fn spec_preferred_override(
    me: CharacterStateComponent,
    chars: Seq<Option<CharacterStateComponent>>,
    radius: int,
) -> Option<CharEntityId> {
    match me.turret->Some_0.preferred_target {
        Some(p) => {
            if spec_current_target(me) != Some(p) && chars_has(chars, p) && chars[
                p.0 as int]->Some_0.hp > 0 && spec_dist_sq2(chars[p.0 as int]->Some_0.pos, me.pos)
                < radius * radius {
                Some(p)
            } else {
                None
            }
        },
        None => None,
    }
}

/// Whether the current target is still worth attacking: it exists, is
/// alive, and is not strictly outside the radius.
pub open spec fn spec_current_target_ok(
    me: CharacterStateComponent,
    chars: Seq<Option<CharacterStateComponent>>,
    radius: int,
) -> bool {
    &&& spec_current_target(me) matches Some(id)
    &&& chars_has(chars, spec_current_target(me)->Some_0)
    &&& chars[spec_current_target(me)->Some_0.0 as int]->Some_0.hp > 0
    &&& spec_dist_sq2(chars[spec_current_target(me)->Some_0.0 as int]->Some_0.pos, me.pos)
        <= radius * radius
}

/// One tick of one sentinel turret's decision loop.
///
/// If the controlled character is gone the controller must be deleted.
/// Otherwise: a valid preferred target always wins, even when the
/// current target is also still valid; failing that, a current target
/// that is alive and in radius is kept; failing that, the closest live
/// enemy in radius is attacked, or nothing when there is none.
pub fn turret_ai_tick(
    controller: &ControllerComponent,
    store: &CharacterStore,
    attack_radius: i64,
) -> (r: TurretTickResult)
    requires
        store.wf(),
        0 < attack_radius <= COORD_LIMIT,
        store.spec_get(controller.controlled_entity) matches Some(me) ==> me.turret is Some,
    ensures
        store.spec_get(controller.controlled_entity) is None ==> r
            == TurretTickResult::DeleteController,
        store.spec_get(controller.controlled_entity) matches Some(me) ==> {
            &&& spec_preferred_override(me, store.chars@, attack_radius as int) matches Some(p)
                ==> r == TurretTickResult::Intention(Some(PlayerIntention::Attack(p)))
            &&& (spec_preferred_override(me, store.chars@, attack_radius as int) is None
                && spec_current_target_ok(me, store.chars@, attack_radius as int)) ==> r
                == TurretTickResult::Intention(
                Some(PlayerIntention::Attack(spec_current_target(me)->Some_0)),
            )
            &&& (spec_preferred_override(me, store.chars@, attack_radius as int) is None
                && !spec_current_target_ok(me, store.chars@, attack_radius as int)) ==> {
                &&& r matches TurretTickResult::Intention(o)
                &&& (o matches Some(PlayerIntention::Attack(found)) ==> {
                    &&& spec_enemy_candidate(
                        store.chars@,
                        found.0 as int,
                        me.pos,
                        attack_radius as int,
                        me.team,
                        controller.controlled_entity,
                    )
                    &&& forall|j: int|
                        spec_enemy_candidate(
                            store.chars@,
                            j,
                            me.pos,
                            attack_radius as int,
                            me.team,
                            controller.controlled_entity,
                        ) ==> spec_dist_sq2(store.chars@[found.0 as int]->Some_0.pos, me.pos)
                            <= spec_dist_sq2(#[trigger] store.chars@[j]->Some_0.pos, me.pos)
                })
                &&& (o is None ==> forall|j: int|
                    !spec_enemy_candidate(
                        store.chars@,
                        j,
                        me.pos,
                        attack_radius as int,
                        me.team,
                        controller.controlled_entity,
                    ))
                &&& (o matches Some(x) ==> x is Attack)
            }
        },
{
    let maybe_me = store.get_char(controller.controlled_entity);
    let me = match maybe_me {
        None => {
            return TurretTickResult::DeleteController;
        },
        Some(c) => c,
    };
    let turret = match me.turret {
        Some(t) => t,
        None => unreached(),
    };
    proof {
        assert((attack_radius as int) * (attack_radius as int) <= COORD_LIMIT as int
            * COORD_LIMIT as int) by (nonlinear_arith)
            requires
                0 < attack_radius <= COORD_LIMIT,
        ;
    }
    // a valid preferred target overrides whatever the turret was doing
    if let Some(preferred) = turret.preferred_target {
        let differs = match me.target {
            Some(EntityTarget::OtherEntity(tid)) => tid.0 != preferred.0,
            _ => true,
        };
        if differs {
            if let Some(pc) = store.get_char(preferred) {
                let d2 = dist_sq2(&pc.pos, &me.pos);
                if !pc.is_dead() && d2 < attack_radius * attack_radius {
                    return TurretTickResult::Intention(
                        Some(PlayerIntention::Attack(preferred)),
                    );
                }
            }
        }
    }
    // keep the current target while it is alive and in radius
    let mut current_id: Option<CharEntityId> = None;
    let current_ok: bool = match me.target {
        Some(EntityTarget::OtherEntity(tid)) => {
            current_id = Some(tid);
            match store.get_char(tid) {
                Some(tc) => {
                    let d2 = dist_sq2(&tc.pos, &me.pos);
                    !tc.is_dead() && d2 <= attack_radius * attack_radius
                },
                None => false,
            }
        },
        _ => false,
    };
    if current_ok {
        let tid = match current_id {
            Some(t) => t,
            None => unreached(),
        };
        TurretTickResult::Intention(Some(PlayerIntention::Attack(tid)))
    } else {
        // current target missing, dead or out of range: nearest enemy
        let found = get_closest_enemy_in_area(
            store,
            &me.pos,
            attack_radius,
            me.team,
            controller.controlled_entity,
        );
        match found {
            Some(id) => TurretTickResult::Intention(Some(PlayerIntention::Attack(id))),
            None => TurretTickResult::Intention(None),
        }
    }
}

} // verus!
