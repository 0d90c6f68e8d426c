//! The falcon companion: an autonomous follower bound to an owner, able
//! to follow, dive-attack, or carry its owner or an ally.
//!
//! The falcon is a per-tick state machine.  Transitions into the attack
//! and the two carry states are legal only from `Follow` (a request in
//! any other state is silently dropped); an excursion ends back in
//! `Follow`, except that losing the entity a carry depends on either
//! aborts to `Follow` or destroys the falcon itself, case by case.  The
//! whole tick is specified by [`spec_falcon_tick`], an exact transition
//! function.

use vstd::prelude::*;

verus! {

use crate::chars::{CharEntityId, CharacterStore, ControllerComponent, ControllerEntityId,
    ControllerStore, PlayerIntention};
use crate::context::{ApplyStatusComponent, SystemVariables};
use crate::geom::{spec_advance2, spec_advance3, spec_clamp, spec_dist2, spec_dist3, spec_lerp3,
    advance2, advance3, clamp, dist2, dist3, div_trunc, lerp3, trunc_div, v3_to_v2,
    QuadraticBezier3Fx, Vec2Fx, Vec3Fx, COORD_LIMIT, STEP_LIMIT};
use crate::status::{FalconCarryStatus, StatusEnum};
use crate::time::{ElapsedTime, TIME_LIMIT_MS};

/// Cruising height of the falcon, in milli-units.
pub const FALCON_FLY_HEIGHT: i64 = 5_000;

/// Height at which the falcon picks up or drops a character.
pub const FALCON_LOWERED_HEIGHT: i64 = 2_000;

/// Peak height of the owner-carry flight profile.
pub const FALCON_CARRY_HEIGHT: i64 = 12_000;

/// Height at which a dive attack ends.
pub const FALCON_ATTACK_END_HEIGHT: i64 = 500;

/// Length of the pick-up phase of an owner carry, in milliseconds.
pub const FALCON_PICK_WINDOW_MS: i64 = 300;

/// Height of a carry-ally flight's control point.
pub const FALCON_BEZIER_CTRL_HEIGHT: i64 = 20_000;

/// The animation the falcon's sprite currently plays.
#[derive(Clone, Copy, PartialEq, Eq, Structural, Debug)]
pub enum CharActionIndex {
    Idle,
    Walking,
}

/// The falcon's sprite state; the decision logic only switches its
/// animation.
#[derive(Clone, Copy, PartialEq, Eq, Structural, Debug)]
pub struct SpriteState {
    pub action_index: CharActionIndex,
}

/// The falcon's behavioural state.
#[derive(Clone, Copy, PartialEq, Eq, Structural, Debug)]
#[allow(inconsistent_fields)]
pub enum FalconState {
    Follow,
    Attack {
        started_at: ElapsedTime,
        ends_at: ElapsedTime,
        start_pos: Vec3Fx,
        end_pos: Vec3Fx,
    },
    CarryOwner {
        owner_controller_id: ControllerEntityId,
        started_at: ElapsedTime,
        ends_at: ElapsedTime,
        target_is_caught: bool,
        start_pos: Vec3Fx,
    },
    CarryAlly {
        target_id: CharEntityId,
        start_pos: Vec3Fx,
        started_at: ElapsedTime,
        ends_at: ElapsedTime,
        target_is_caught: bool,
        end_pos: Vec2Fx,
    },
}

impl FalconState {
    pub open spec fn wf(self) -> bool {
        match self {
            FalconState::Follow => true,
            FalconState::Attack { started_at, ends_at, start_pos, end_pos } => {
                &&& started_at.wf()
                &&& ends_at.wf()
                &&& started_at.0 < ends_at.0
                &&& start_pos.wf()
                &&& end_pos.wf()
            },
            FalconState::CarryOwner { started_at, ends_at, start_pos, .. } => {
                &&& started_at.wf()
                &&& ends_at.wf()
                &&& started_at.0 < ends_at.0
                &&& start_pos.wf()
            },
            FalconState::CarryAlly { started_at, ends_at, start_pos, end_pos, .. } => {
                &&& started_at.wf()
                &&& ends_at.wf()
                &&& started_at.0 < ends_at.0
                &&& start_pos.wf()
                &&& end_pos.wf()
            },
        }
    }

    /// When the state's timed window began, for states that have one.
    pub open spec fn started_at_of(self) -> Option<ElapsedTime> {
        match self {
            FalconState::Follow => None,
            FalconState::Attack { started_at, .. } => Some(started_at),
            FalconState::CarryOwner { started_at, .. } => Some(started_at),
            FalconState::CarryAlly { started_at, .. } => Some(started_at),
        }
    }
}

/// The falcon entity: owner reference, behavioural state, spatial
/// position, current speed, and the flight curve of an ally carry.
#[derive(Clone, Copy)]
pub struct FalconComponent {
    pub owner_entity_id: CharEntityId,
    pub state: FalconState,
    pub pos: Vec3Fx,
    pub acceleration: i64,
    pub bezier: QuadraticBezier3Fx,
}

/// What the falcon's per-tick update decides about the falcon entity
/// itself.
#[derive(Clone, Copy, PartialEq, Eq, Structural, Debug)]
pub enum FalconUpdateResult {
    Keep,
    /// The entity the falcon depends on is gone: the caller must delete
    /// the falcon entity.
    Delete,
}

/// Everything one falcon tick produces: the new falcon, the new sprite
/// state, the status-application requests pushed, and the keep/delete
/// decision.
pub struct FalconTickOutcome {
    pub falcon: FalconComponent,
    pub sprite: SpriteState,
    pub applies: Seq<ApplyStatusComponent>,
    pub result: FalconUpdateResult,
}

/// Acceleration while following: ramps up by `0.05 * dt` and is capped
/// at 3% of the owner's effective walking speed.
pub open spec fn spec_follow_accel(accel: int, dt: int, owner_speed: int) -> int {
    let inc = accel + trunc_div(dt * 50, 1000);
    let cap = trunc_div(owner_speed * 30, 1000);
    if inc > cap {
        cap
    } else {
        inc
    }
}

/// Deceleration near the goal: drops by `0.1 * dt`, never below zero.
pub open spec fn spec_decel(accel: int, dt: int) -> int {
    let dec = trunc_div(dt * 100, 1000);
    if accel - dec < 0 {
        0
    } else {
        accel - dec
    }
}

/// Carry-flight speed: `8.57 * dt`, capped at the per-tick step limit.
pub open spec fn spec_carry_accel(dt: int) -> int {
    let a = trunc_div(dt * 8570, 1000);
    if a > STEP_LIMIT {
        STEP_LIMIT as int
    } else {
        a
    }
}

/// The owner-carry height profile over the carry window, in permille of
/// the window: rising linearly from the lowered height to the peak over
/// the first 40%, flat at the peak until 80%, then descending back to
/// the lowered height over the last 20%.
pub open spec fn spec_carry_height(p: int) -> int {
    if p < 400 {
        2000 + 25 * p
    } else {
        2000 + 10 * (1000 - 5 * (if p >= 800 {
            p - 800
        } else {
            0
        }))
    }
}

/// The position a movement intention points at, if it points anywhere.
pub open spec fn spec_intention_pos(intention: Option<PlayerIntention>) -> Option<Vec2Fx> {
    match intention {
        Some(PlayerIntention::MoveTo(p)) => Some(p),
        Some(PlayerIntention::MoveTowardsMouse(p)) => Some(p),
        _ => None,
    }
}

/// Where the carried owner wants to go: the owner's current movement
/// intention, else the last known one, else the falcon's own position;
/// lifted to the carry height `y`.
pub open spec fn spec_carry_target(
    controller: ControllerComponent,
    last_intention: Option<PlayerIntention>,
    y: int,
    fallback: Vec3Fx,
) -> Vec3Fx {
    match spec_intention_pos(controller.intention) {
        Some(p) => Vec3Fx { x: p.x, y: y as i64, z: p.y },
        None => match spec_intention_pos(last_intention) {
            Some(p) => Vec3Fx { x: p.x, y: y as i64, z: p.y },
            None => Vec3Fx { x: fallback.x, y: y as i64, z: fallback.z },
        },
    }
}

/// Whether an intention's position, if any, is in world bounds.
pub open spec fn intention_wf(intention: Option<PlayerIntention>) -> bool {
    match spec_intention_pos(intention) {
        Some(p) => p.wf(),
        None => true,
    }
}

/// How far into the pick-up phase of an owner carry the tick lies, in
/// permille of the fixed pick window.
pub open spec fn spec_pick_pm(now: ElapsedTime, started_at: ElapsedTime) -> int {
    trunc_div((now.0 - started_at.0) * 1000, FALCON_PICK_WINDOW_MS as int)
}

/// The carry-ally flight curve built at the catch moment: from the
/// falcon's position, through a control point offset sideways from the
/// falcon-to-owner line, down to the owner at the lowered height.  The
/// control point is clamped into world bounds.
pub open spec fn spec_ally_bezier(pos: Vec3Fx, owner_pos: Vec2Fx) -> QuadraticBezier3Fx {
    let line_x = pos.x - owner_pos.x;
    let line_z = pos.z - owner_pos.y;
    let ctrl_x = spec_clamp(
        pos.x + trunc_div(line_x * 200, 1000) + 5000,
        -COORD_LIMIT as int,
        COORD_LIMIT as int,
    );
    let ctrl_z = spec_clamp(
        pos.z + trunc_div(line_z * 200, 1000),
        -COORD_LIMIT as int,
        COORD_LIMIT as int,
    );
    QuadraticBezier3Fx {
        start: pos,
        ctrl: Vec3Fx { x: ctrl_x as i64, y: FALCON_BEZIER_CTRL_HEIGHT, z: ctrl_z as i64 },
        end: Vec3Fx { x: owner_pos.x, y: FALCON_LOWERED_HEIGHT, z: owner_pos.y },
    }
}

/// The carry status the falcon plants at the catch moment.
pub open spec fn spec_carry_apply(
    source: CharEntityId,
    target: CharEntityId,
    started_at: ElapsedTime,
    ends_at: ElapsedTime,
    carry_owner: bool,
    end_pos: Vec2Fx,
) -> ApplyStatusComponent {
    ApplyStatusComponent {
        source_entity_id: source,
        target_entity_id: target,
        status: StatusEnum::FalconCarryStatus(
            FalconCarryStatus { started_at, ends_at, carry_owner, end_pos },
        ),
    }
}

/// The exact transition function of one falcon tick: what the falcon,
/// its sprite, the outbound status applications and the keep/delete
/// decision become, as a function of the current state of the world.
pub open spec fn spec_falcon_tick(
    f: FalconComponent,
    sprite: SpriteState,
    store: CharacterStore,
    controllers: ControllerStore,
    last_intention: Option<PlayerIntention>,
    now: ElapsedTime,
    dt: int,
) -> FalconTickOutcome {
    match f.state {
        FalconState::Follow => spec_tick_follow(f, sprite, store, dt),
        FalconState::Attack { started_at, ends_at, start_pos, end_pos } => {
            let pm = now.spec_percentage_between(started_at, ends_at);
            if pm <= 1000 {
                FalconTickOutcome {
                    falcon: FalconComponent { pos: spec_lerp3(start_pos, end_pos, pm), ..f },
                    sprite,
                    applies: Seq::empty(),
                    result: FalconUpdateResult::Keep,
                }
            } else {
                FalconTickOutcome {
                    falcon: FalconComponent { state: FalconState::Follow, ..f },
                    sprite: SpriteState { action_index: CharActionIndex::Idle },
                    applies: Seq::empty(),
                    result: FalconUpdateResult::Keep,
                }
            }
        },
        FalconState::CarryOwner { .. } => spec_tick_carry_owner(
            f,
            sprite,
            store,
            controllers,
            last_intention,
            now,
            dt,
        ),
        FalconState::CarryAlly { .. } => spec_tick_carry_ally(f, sprite, store, now),
    }
}

/// The follow behaviour: approach the owner at cruising height while it
/// is farther than two units away, decelerate to a stop once close; a
/// falcon whose owner is gone is deleted.
pub open spec fn spec_tick_follow(
    f: FalconComponent,
    sprite: SpriteState,
    store: CharacterStore,
    dt: int,
) -> FalconTickOutcome {
    match store.spec_get(f.owner_entity_id) {
        None => FalconTickOutcome {
            falcon: f,
            sprite,
            applies: Seq::empty(),
            result: FalconUpdateResult::Delete,
        },
        Some(owner) => {
            let fp2 = Vec2Fx { x: f.pos.x, y: f.pos.z };
            let d = spec_dist2(fp2, owner.pos);
            if d > 2000 {
                let accel = spec_follow_accel(
                    f.acceleration as int,
                    dt,
                    owner.calculated_walking_speed as int,
                );
                let target = Vec3Fx { x: owner.pos.x, y: FALCON_FLY_HEIGHT, z: owner.pos.y };
                FalconTickOutcome {
                    falcon: FalconComponent {
                        pos: spec_advance3(f.pos, target, accel),
                        acceleration: accel as i64,
                        ..f
                    },
                    sprite,
                    applies: Seq::empty(),
                    result: FalconUpdateResult::Keep,
                }
            } else {
                if f.acceleration <= 0 || d == 0 {
                    FalconTickOutcome {
                        falcon: FalconComponent { acceleration: 0, ..f },
                        sprite,
                        applies: Seq::empty(),
                        result: FalconUpdateResult::Keep,
                    }
                } else {
                    let accel = spec_decel(f.acceleration as int, dt);
                    let np = spec_advance2(fp2, owner.pos, accel);
                    FalconTickOutcome {
                        falcon: FalconComponent {
                            pos: Vec3Fx { x: np.x, y: f.pos.y, z: np.y },
                            acceleration: accel as i64,
                            ..f
                        },
                        sprite,
                        applies: Seq::empty(),
                        result: FalconUpdateResult::Keep,
                    }
                }
            }
        },
    }
}

/// The owner-carry behaviour: pick up over a fixed window, then fly the
/// height profile toward the owner's movement intention while planting
/// the carry status once, then drop and return to following.
pub open spec fn spec_tick_carry_owner(
    f: FalconComponent,
    sprite: SpriteState,
    store: CharacterStore,
    controllers: ControllerStore,
    last_intention: Option<PlayerIntention>,
    now: ElapsedTime,
    dt: int,
) -> FalconTickOutcome {
    match f.state {
        FalconState::CarryOwner {
            owner_controller_id,
            started_at,
            ends_at,
            target_is_caught,
            start_pos,
        } => {
            let pick_pm = spec_pick_pm(now, started_at);
            let pm = now.spec_percentage_between(started_at, ends_at);
            if pick_pm <= 1000 {
                match store.spec_get(f.owner_entity_id) {
                    Some(owner) => FalconTickOutcome {
                        falcon: FalconComponent {
                            pos: spec_lerp3(
                                start_pos,
                                Vec3Fx {
                                    x: owner.pos.x,
                                    y: FALCON_LOWERED_HEIGHT,
                                    z: owner.pos.y,
                                },
                                pick_pm,
                            ),
                            ..f
                        },
                        sprite,
                        applies: Seq::empty(),
                        result: FalconUpdateResult::Keep,
                    },
                    None => FalconTickOutcome {
                        falcon: f,
                        sprite,
                        applies: Seq::empty(),
                        result: FalconUpdateResult::Delete,
                    },
                }
            } else if pm < 1000 {
                let state1 = FalconState::CarryOwner {
                    owner_controller_id,
                    started_at,
                    ends_at,
                    target_is_caught: true,
                    start_pos,
                };
                let sprite1 = if !target_is_caught {
                    SpriteState { action_index: CharActionIndex::Idle }
                } else {
                    sprite
                };
                let applies1 = if !target_is_caught {
                    Seq::empty().push(
                        spec_carry_apply(
                            f.owner_entity_id,
                            f.owner_entity_id,
                            started_at,
                            ends_at,
                            true,
                            Vec2Fx { x: 0, y: 0 },
                        ),
                    )
                } else {
                    Seq::empty()
                };
                let y = spec_carry_height(pm);
                match controllers.spec_get(owner_controller_id) {
                    None => FalconTickOutcome {
                        falcon: FalconComponent { state: state1, ..f },
                        sprite: sprite1,
                        applies: applies1,
                        result: FalconUpdateResult::Delete,
                    },
                    Some(controller) => {
                        let pos_y = Vec3Fx { x: f.pos.x, y: y as i64, z: f.pos.z };
                        let target = spec_carry_target(controller, last_intention, y, f.pos);
                        let d = spec_dist3(pos_y, target);
                        if d > 2000 {
                            let accel = spec_carry_accel(dt);
                            FalconTickOutcome {
                                falcon: FalconComponent {
                                    state: state1,
                                    pos: spec_advance3(pos_y, target, accel),
                                    acceleration: accel as i64,
                                    ..f
                                },
                                sprite: sprite1,
                                applies: applies1,
                                result: FalconUpdateResult::Keep,
                            }
                        } else {
                            if f.acceleration <= 0 || d == 0 {
                                FalconTickOutcome {
                                    falcon: FalconComponent {
                                        state: state1,
                                        pos: pos_y,
                                        acceleration: 0,
                                        ..f
                                    },
                                    sprite: sprite1,
                                    applies: applies1,
                                    result: FalconUpdateResult::Keep,
                                }
                            } else {
                                let accel = spec_decel(f.acceleration as int, dt);
                                FalconTickOutcome {
                                    falcon: FalconComponent {
                                        state: state1,
                                        pos: spec_advance3(pos_y, target, accel),
                                        acceleration: accel as i64,
                                        ..f
                                    },
                                    sprite: sprite1,
                                    applies: applies1,
                                    result: FalconUpdateResult::Keep,
                                }
                            }
                        }
                    },
                }
            } else {
                FalconTickOutcome {
                    falcon: FalconComponent { state: FalconState::Follow, ..f },
                    sprite: SpriteState { action_index: CharActionIndex::Idle },
                    applies: Seq::empty(),
                    result: FalconUpdateResult::Keep,
                }
            }
        },
        _ => FalconTickOutcome {
            falcon: f,
            sprite,
            applies: Seq::empty(),
            result: FalconUpdateResult::Keep,
        },
    }
}

/// The ally-carry behaviour: fly to the ally over the first 30% of the
/// window (aborting gracefully to `Follow` if the ally vanished), then
/// build the flight curve and plant the carry status once, ride the
/// curve until the window ends, then return to following.  The two
/// failure points are distinguished: an ally that vanishes before the
/// carry phase costs nothing, but one that vanishes at the moment the
/// flight curve is built destroys the falcon entity itself (as does a
/// vanished owner, whose position the curve needs).
pub open spec fn spec_tick_carry_ally(
    f: FalconComponent,
    sprite: SpriteState,
    store: CharacterStore,
    now: ElapsedTime,
) -> FalconTickOutcome {
    match f.state {
        FalconState::CarryAlly {
            target_id,
            start_pos,
            started_at,
            ends_at,
            target_is_caught,
            end_pos,
        } => {
            let pm = now.spec_percentage_between(started_at, ends_at);
            if pm <= 300 {
                match store.spec_get(target_id) {
                    Some(ally) => FalconTickOutcome {
                        falcon: FalconComponent {
                            pos: spec_lerp3(
                                start_pos,
                                Vec3Fx {
                                    x: ally.pos.x,
                                    y: FALCON_LOWERED_HEIGHT,
                                    z: ally.pos.y,
                                },
                                trunc_div(pm * 1000, 300),
                            ),
                            ..f
                        },
                        sprite,
                        applies: Seq::empty(),
                        result: FalconUpdateResult::Keep,
                    },
                    None => FalconTickOutcome {
                        falcon: FalconComponent { state: FalconState::Follow, ..f },
                        sprite: SpriteState { action_index: CharActionIndex::Idle },
                        applies: Seq::empty(),
                        result: FalconUpdateResult::Keep,
                    },
                }
            } else if pm < 1000 {
                let t = trunc_div((pm - 300) * 1000, 700);
                if !target_is_caught {
                    if store.spec_get(target_id) is None {
                        FalconTickOutcome {
                            falcon: f,
                            sprite,
                            applies: Seq::empty(),
                            result: FalconUpdateResult::Delete,
                        }
                    } else {
                        match store.spec_get(f.owner_entity_id) {
                            None => FalconTickOutcome {
                                falcon: f,
                                sprite,
                                applies: Seq::empty(),
                                result: FalconUpdateResult::Delete,
                            },
                            Some(owner) => {
                                let bez = spec_ally_bezier(f.pos, owner.pos);
                                FalconTickOutcome {
                                    falcon: FalconComponent {
                                        state: FalconState::CarryAlly {
                                            target_id,
                                            start_pos,
                                            started_at,
                                            ends_at,
                                            target_is_caught: true,
                                            end_pos: owner.pos,
                                        },
                                        pos: bez.spec_evaluate(t),
                                        bezier: bez,
                                        ..f
                                    },
                                    sprite: SpriteState {
                                        action_index: CharActionIndex::Idle,
                                    },
                                    applies: Seq::empty().push(
                                        spec_carry_apply(
                                            f.owner_entity_id,
                                            target_id,
                                            started_at,
                                            ends_at,
                                            false,
                                            owner.pos,
                                        ),
                                    ),
                                    result: FalconUpdateResult::Keep,
                                }
                            },
                        }
                    }
                } else {
                    FalconTickOutcome {
                        falcon: FalconComponent { pos: f.bezier.spec_evaluate(t), ..f },
                        sprite,
                        applies: Seq::empty(),
                        result: FalconUpdateResult::Keep,
                    }
                }
            } else {
                FalconTickOutcome {
                    falcon: FalconComponent { state: FalconState::Follow, ..f },
                    sprite: SpriteState { action_index: CharActionIndex::Idle },
                    applies: Seq::empty(),
                    result: FalconUpdateResult::Keep,
                }
            }
        },
        _ => FalconTickOutcome {
            falcon: f,
            sprite,
            applies: Seq::empty(),
            result: FalconUpdateResult::Keep,
        },
    }
}

impl FalconComponent {
    pub open spec fn wf(self) -> bool {
        &&& self.pos.wf()
        &&& self.state.wf()
        &&& 0 <= self.acceleration <= STEP_LIMIT
        &&& self.bezier.wf()
    }

    /// A fresh falcon in `Follow` state, hovering at cruising height
    /// over the given planar point.
    pub fn new(owner_entity_id: CharEntityId, start_x: i64, start_y: i64) -> (r: FalconComponent)
        requires
            -COORD_LIMIT <= start_x <= COORD_LIMIT,
            -COORD_LIMIT <= start_y <= COORD_LIMIT,
        ensures
            r.wf(),
            r.owner_entity_id == owner_entity_id,
            r.state == FalconState::Follow,
            r.pos == (Vec3Fx { x: start_x, y: FALCON_FLY_HEIGHT, z: start_y }),
            r.acceleration == 0,
    {
        FalconComponent {
            owner_entity_id,
            state: FalconState::Follow,
            pos: Vec3Fx { x: start_x, y: FALCON_FLY_HEIGHT, z: start_y },
            acceleration: 0,
            bezier: QuadraticBezier3Fx::zeros(),
        }
    }

    /// Begins carrying the owner.  Legal only from `Follow`: in any
    /// other state the request is silently dropped and nothing — not
    /// the falcon, not the sprite — changes.
    pub fn carry_owner(
        &mut self,
        owner_controller_id: ControllerEntityId,
        now: ElapsedTime,
        duration_ms: i64,
        sprite: &mut SpriteState,
    )
        requires
            old(self).wf(),
            old(self).state is Follow ==> now.wf() && 0 < duration_ms && now.0 + duration_ms
                <= TIME_LIMIT_MS,
        ensures
            final(self).wf(),
            !(old(self).state is Follow) ==> *final(self) == *old(self) && *final(sprite)
                == *old(sprite),
            old(self).state is Follow ==> {
                &&& final(self).state == (FalconState::CarryOwner {
                    owner_controller_id,
                    started_at: now,
                    ends_at: ElapsedTime((now.0 + duration_ms) as i64),
                    target_is_caught: false,
                    start_pos: old(self).pos,
                })
                &&& final(self).pos == old(self).pos
                &&& final(self).acceleration == old(self).acceleration
                &&& final(self).bezier == old(self).bezier
                &&& final(self).owner_entity_id == old(self).owner_entity_id
                &&& *final(sprite) == (SpriteState { action_index: CharActionIndex::Walking })
            },
    {
        match self.state {
            FalconState::Follow => {},
            _ => {
                return ;
            },
        }
        self.state = FalconState::CarryOwner {
            owner_controller_id,
            started_at: now,
            ends_at: now.add_millis(duration_ms),
            target_is_caught: false,
            start_pos: self.pos,
        };
        sprite.action_index = CharActionIndex::Walking;
    }

    /// Begins carrying an ally.  Legal only from `Follow`: in any other
    /// state the request is silently dropped and nothing changes.
    pub fn carry_ally(
        &mut self,
        target_entity: CharEntityId,
        now: ElapsedTime,
        duration_ms: i64,
        sprite: &mut SpriteState,
    )
        requires
            old(self).wf(),
            old(self).state is Follow ==> now.wf() && 0 < duration_ms && now.0 + duration_ms
                <= TIME_LIMIT_MS,
        ensures
            final(self).wf(),
            !(old(self).state is Follow) ==> *final(self) == *old(self) && *final(sprite)
                == *old(sprite),
            old(self).state is Follow ==> {
                &&& final(self).state == (FalconState::CarryAlly {
                    target_id: target_entity,
                    start_pos: old(self).pos,
                    started_at: now,
                    ends_at: ElapsedTime((now.0 + duration_ms) as i64),
                    target_is_caught: false,
                    end_pos: Vec2Fx { x: 0, y: 0 },
                })
                &&& final(self).pos == old(self).pos
                &&& final(self).acceleration == old(self).acceleration
                &&& final(self).bezier == old(self).bezier
                &&& final(self).owner_entity_id == old(self).owner_entity_id
                &&& *final(sprite) == (SpriteState { action_index: CharActionIndex::Walking })
            },
    {
        match self.state {
            FalconState::Follow => {},
            _ => {
                return ;
            },
        }
        self.state = FalconState::CarryAlly {
            target_id: target_entity,
            start_pos: self.pos,
            started_at: now,
            ends_at: now.add_millis(duration_ms),
            target_is_caught: false,
            end_pos: Vec2Fx::zeros(),
        };
        sprite.action_index = CharActionIndex::Walking;
    }

    /// Begins a dive attack from `start_pos` at cruising height down to
    /// `end_pos` near the ground.  Legal only from `Follow`: in any
    /// other state the request is silently dropped and nothing changes.
    pub fn set_state_to_attack(
        &mut self,
        now: ElapsedTime,
        duration_ms: i64,
        start_pos: Vec2Fx,
        end_pos: Vec2Fx,
        sprite: &mut SpriteState,
    )
        requires
            old(self).wf(),
            old(self).state is Follow ==> now.wf() && 0 < duration_ms && now.0 + duration_ms
                <= TIME_LIMIT_MS && start_pos.wf() && end_pos.wf(),
        ensures
            final(self).wf(),
            !(old(self).state is Follow) ==> *final(self) == *old(self) && *final(sprite)
                == *old(sprite),
            old(self).state is Follow ==> {
                &&& final(self).pos == (Vec3Fx {
                    x: start_pos.x,
                    y: FALCON_FLY_HEIGHT,
                    z: start_pos.y,
                })
                &&& final(self).state == (FalconState::Attack {
                    started_at: now,
                    ends_at: ElapsedTime((now.0 + duration_ms) as i64),
                    start_pos: Vec3Fx { x: start_pos.x, y: FALCON_FLY_HEIGHT, z: start_pos.y },
                    end_pos: Vec3Fx { x: end_pos.x, y: FALCON_ATTACK_END_HEIGHT, z: end_pos.y },
                })
                &&& final(self).acceleration == old(self).acceleration
                &&& final(self).bezier == old(self).bezier
                &&& final(self).owner_entity_id == old(self).owner_entity_id
                &&& *final(sprite) == (SpriteState { action_index: CharActionIndex::Walking })
            },
    {
        match self.state {
            FalconState::Follow => {},
            _ => {
                return ;
            },
        }
        self.pos = Vec3Fx { x: start_pos.x, y: FALCON_FLY_HEIGHT, z: start_pos.y };
        self.state = FalconState::Attack {
            started_at: now,
            ends_at: now.add_millis(duration_ms),
            start_pos: self.pos,
            end_pos: Vec3Fx { x: end_pos.x, y: FALCON_ATTACK_END_HEIGHT, z: end_pos.y },
        };
        sprite.action_index = CharActionIndex::Walking;
    }

    /// One tick of the falcon's state machine, exactly as
    /// [`spec_falcon_tick`] describes it.
    pub fn update(
        &mut self,
        store: &CharacterStore,
        controllers: &ControllerStore,
        last_intention: Option<PlayerIntention>,
        sprite: &mut SpriteState,
        sys_vars: &mut SystemVariables,
    ) -> (r: FalconUpdateResult)
        requires
            old(self).wf(),
            store.wf(),
            old(sys_vars).wf(),
            old(self).state.started_at_of() matches Some(st) ==> st.0 <= old(sys_vars).time.0,
            intention_wf(last_intention),
            old(self).state matches FalconState::CarryOwner { owner_controller_id, .. }
                ==> (controllers.spec_get(owner_controller_id) matches Some(c)
                ==> intention_wf(c.intention)),
        ensures
            final(self).wf(),
            final(sys_vars).wf(),
            *final(self) == spec_falcon_tick(
                *old(self),
                *old(sprite),
                *store,
                *controllers,
                last_intention,
                old(sys_vars).time,
                old(sys_vars).dt_ms as int,
            ).falcon,
            *final(sprite) == spec_falcon_tick(
                *old(self),
                *old(sprite),
                *store,
                *controllers,
                last_intention,
                old(sys_vars).time,
                old(sys_vars).dt_ms as int,
            ).sprite,
            final(sys_vars).apply_statuses@ == old(sys_vars).apply_statuses@ + spec_falcon_tick(
                *old(self),
                *old(sprite),
                *store,
                *controllers,
                last_intention,
                old(sys_vars).time,
                old(sys_vars).dt_ms as int,
            ).applies,
            r == spec_falcon_tick(
                *old(self),
                *old(sprite),
                *store,
                *controllers,
                last_intention,
                old(sys_vars).time,
                old(sys_vars).dt_ms as int,
            ).result,
            final(sys_vars).time == old(sys_vars).time,
            final(sys_vars).dt_ms == old(sys_vars).dt_ms,
            final(sys_vars).hp_mod_requests@ == old(sys_vars).hp_mod_requests@,
            final(sys_vars).area_hp_mod_requests@ == old(sys_vars).area_hp_mod_requests@,
            final(sys_vars).str_effects@ == old(sys_vars).str_effects@,
            final(sys_vars).sound_effects@ == old(sys_vars).sound_effects@,
    {
        let now = sys_vars.time;
        let dt = sys_vars.dt_ms;
        let ghost applies0 = sys_vars.apply_statuses@;
        match self.state {
            FalconState::Follow => {
                let maybe_owner = store.get_char(self.owner_entity_id);
                match maybe_owner {
                    None => {
                        proof {
                            assert(applies0 + Seq::<ApplyStatusComponent>::empty() =~= applies0);
                        }
                        FalconUpdateResult::Delete
                    },
                    Some(owner) => {
                        let fp2 = v3_to_v2(&self.pos);
                        let d = dist2(&fp2, &owner.pos);
                        if d > 2000 {
                            let accel = follow_accel(self.acceleration, dt,
                                owner.calculated_walking_speed);
                            let target = Vec3Fx {
                                x: owner.pos.x,
                                y: FALCON_FLY_HEIGHT,
                                z: owner.pos.y,
                            };
                            self.pos = advance3(&self.pos, &target, accel);
                            self.acceleration = accel;
                        } else {
                            if self.acceleration <= 0 || d == 0 {
                                self.acceleration = 0;
                            } else {
                                let accel = decel(self.acceleration, dt);
                                let np = advance2(&fp2, &owner.pos, accel);
                                self.pos = Vec3Fx { x: np.x, y: self.pos.y, z: np.y };
                                self.acceleration = accel;
                            }
                        }
                        proof {
                            assert(applies0 + Seq::<ApplyStatusComponent>::empty() =~= applies0);
                        }
                        FalconUpdateResult::Keep
                    },
                }
            },
            FalconState::Attack { started_at, ends_at, start_pos, end_pos } => {
                let pm = now.percentage_between(started_at, ends_at);
                if pm <= 1000 {
                    self.pos = lerp3(&start_pos, &end_pos, pm);
                } else {
                    self.state = FalconState::Follow;
                    sprite.action_index = CharActionIndex::Idle;
                }
                proof {
                    assert(applies0 + Seq::<ApplyStatusComponent>::empty() =~= applies0);
                }
                FalconUpdateResult::Keep
            },
            FalconState::CarryOwner {
                owner_controller_id,
                started_at,
                ends_at,
                target_is_caught,
                start_pos,
            } => {
                let pick_pm = div_trunc((now.0 - started_at.0) * 1000, FALCON_PICK_WINDOW_MS);
                let pm = now.percentage_between(started_at, ends_at);
                if pick_pm <= 1000 {
                    let maybe_owner = store.get_char(self.owner_entity_id);
                    match maybe_owner {
                        Some(owner) => {
                            let goal = Vec3Fx {
                                x: owner.pos.x,
                                y: FALCON_LOWERED_HEIGHT,
                                z: owner.pos.y,
                            };
                            self.pos = lerp3(&start_pos, &goal, pick_pm);
                            proof {
                                assert(applies0 + Seq::<ApplyStatusComponent>::empty()
                                    =~= applies0);
                            }
                            FalconUpdateResult::Keep
                        },
                        None => {
                            proof {
                                assert(applies0 + Seq::<ApplyStatusComponent>::empty()
                                    =~= applies0);
                            }
                            FalconUpdateResult::Delete
                        },
                    }
                } else if pm < 1000 {
                    if !target_is_caught {
                        sprite.action_index = CharActionIndex::Idle;
                        sys_vars.apply_statuses.push(
                            ApplyStatusComponent {
                                source_entity_id: self.owner_entity_id,
                                target_entity_id: self.owner_entity_id,
                                status: StatusEnum::FalconCarryStatus(
                                    FalconCarryStatus {
                                        started_at,
                                        ends_at,
                                        carry_owner: true,
                                        end_pos: Vec2Fx { x: 0, y: 0 },
                                    },
                                ),
                            },
                        );
                        self.state = FalconState::CarryOwner {
                            owner_controller_id,
                            started_at,
                            ends_at,
                            target_is_caught: true,
                            start_pos,
                        };
                    }
                    let y = carry_height(pm);
                    let maybe_controller = controllers.get_controller(owner_controller_id);
                    match maybe_controller {
                        None => {
                            proof {
                                if !target_is_caught {
                                    assert(applies0 + spec_falcon_tick(
                                        *old(self),
                                        *old(sprite),
                                        *store,
                                        *controllers,
                                        last_intention,
                                        now,
                                        dt as int,
                                    ).applies =~= sys_vars.apply_statuses@);
                                } else {
                                    assert(applies0 + Seq::<ApplyStatusComponent>::empty()
                                        =~= applies0);
                                }
                            }
                            FalconUpdateResult::Delete
                        },
                        Some(controller) => {
                            let pos_y = Vec3Fx { x: self.pos.x, y, z: self.pos.z };
                            let target = carry_target(&controller, last_intention, y, &self.pos);
                            let d = dist3(&pos_y, &target);
                            if d > 2000 {
                                let accel = carry_accel(dt);
                                self.pos = advance3(&pos_y, &target, accel);
                                self.acceleration = accel;
                            } else {
                                if self.acceleration <= 0 || d == 0 {
                                    self.pos = pos_y;
                                    self.acceleration = 0;
                                } else {
                                    let accel = decel(self.acceleration, dt);
                                    self.pos = advance3(&pos_y, &target, accel);
                                    self.acceleration = accel;
                                }
                            }
                            proof {
                                if !target_is_caught {
                                    assert(applies0 + spec_falcon_tick(
                                        *old(self),
                                        *old(sprite),
                                        *store,
                                        *controllers,
                                        last_intention,
                                        now,
                                        dt as int,
                                    ).applies =~= sys_vars.apply_statuses@);
                                } else {
                                    assert(applies0 + Seq::<ApplyStatusComponent>::empty()
                                        =~= applies0);
                                }
                            }
                            FalconUpdateResult::Keep
                        },
                    }
                } else {
                    self.state = FalconState::Follow;
                    sprite.action_index = CharActionIndex::Idle;
                    proof {
                        assert(applies0 + Seq::<ApplyStatusComponent>::empty() =~= applies0);
                    }
                    FalconUpdateResult::Keep
                }
            },
            FalconState::CarryAlly {
                target_id,
                start_pos,
                started_at,
                ends_at,
                target_is_caught,
                end_pos,
            } => {
                let pm = now.percentage_between(started_at, ends_at);
                if pm <= 300 {
                    let maybe_ally = store.get_char(target_id);
                    match maybe_ally {
                        Some(ally) => {
                            let goal = Vec3Fx {
                                x: ally.pos.x,
                                y: FALCON_LOWERED_HEIGHT,
                                z: ally.pos.y,
                            };
                            let t = div_trunc(pm * 1000, 300);
                            self.pos = lerp3(&start_pos, &goal, t);
                        },
                        None => {
                            self.state = FalconState::Follow;
                            sprite.action_index = CharActionIndex::Idle;
                        },
                    }
                    proof {
                        assert(applies0 + Seq::<ApplyStatusComponent>::empty() =~= applies0);
                    }
                    FalconUpdateResult::Keep
                } else if pm < 1000 {
                    let t = div_trunc((pm - 300) * 1000, 700);
                    if !target_is_caught {
                        let maybe_ally = store.get_char(target_id);
                        if maybe_ally.is_none() {
                            // the ally vanished at the very moment the flight
                            // curve is built: the falcon itself goes down with
                            // it (unlike the graceful pre-carry abort)
                            proof {
                                assert(applies0 + Seq::<ApplyStatusComponent>::empty()
                                    =~= applies0);
                            }
                            return FalconUpdateResult::Delete;
                        }
                        let maybe_owner = store.get_char(self.owner_entity_id);
                        match maybe_owner {
                            None => {
                                proof {
                                    assert(applies0 + Seq::<ApplyStatusComponent>::empty()
                                        =~= applies0);
                                }
                                FalconUpdateResult::Delete
                            },
                            Some(owner) => {
                                let bez = ally_bezier(&self.pos, &owner.pos);
                                sprite.action_index = CharActionIndex::Idle;
                                sys_vars.apply_statuses.push(
                                    ApplyStatusComponent {
                                        source_entity_id: self.owner_entity_id,
                                        target_entity_id: target_id,
                                        status: StatusEnum::FalconCarryStatus(
                                            FalconCarryStatus {
                                                started_at,
                                                ends_at,
                                                carry_owner: false,
                                                end_pos: owner.pos,
                                            },
                                        ),
                                    },
                                );
                                self.state = FalconState::CarryAlly {
                                    target_id,
                                    start_pos,
                                    started_at,
                                    ends_at,
                                    target_is_caught: true,
                                    end_pos: owner.pos,
                                };
                                self.bezier = bez;
                                self.pos = bez.evaluate(t);
                                proof {
                                    assert(applies0 + spec_falcon_tick(
                                        *old(self),
                                        *old(sprite),
                                        *store,
                                        *controllers,
                                        last_intention,
                                        now,
                                        dt as int,
                                    ).applies =~= sys_vars.apply_statuses@);
                                }
                                FalconUpdateResult::Keep
                            },
                        }
                    } else {
                        let bez = self.bezier;
                        self.pos = bez.evaluate(t);
                        proof {
                            assert(applies0 + Seq::<ApplyStatusComponent>::empty() =~= applies0);
                        }
                        FalconUpdateResult::Keep
                    }
                } else {
                    self.state = FalconState::Follow;
                    sprite.action_index = CharActionIndex::Idle;
                    proof {
                        assert(applies0 + Seq::<ApplyStatusComponent>::empty() =~= applies0);
                    }
                    FalconUpdateResult::Keep
                }
            },
        }
    }
}

/// Executable form of [`spec_follow_accel`].
fn follow_accel(accel: i64, dt: i64, owner_speed: i64) -> (r: i64)
    requires
        0 <= accel <= STEP_LIMIT,
        0 < dt <= crate::context::DT_LIMIT_MS,
        0 <= owner_speed <= crate::chars::SPEED_LIMIT,
    ensures
        r == spec_follow_accel(accel as int, dt as int, owner_speed as int),
        0 <= r <= STEP_LIMIT,
{
    proof {
        assert(0 <= (dt as int) * 50 <= 50_000 * 1000) by (nonlinear_arith)
            requires
                0 < dt <= 1_000_000,
        ;
        crate::geom::lemma_trunc_div_bounds((dt as int) * 50, 1000, 0, 50_000);
        assert(0 <= (owner_speed as int) * 30 <= 300_000 * 1000) by (nonlinear_arith)
            requires
                0 <= owner_speed <= 10_000_000,
        ;
        crate::geom::lemma_trunc_div_bounds((owner_speed as int) * 30, 1000, 0, 300_000);
    }
    let inc = accel + div_trunc(dt * 50, 1000);
    let cap = div_trunc(owner_speed * 30, 1000);
    if inc > cap {
        cap
    } else {
        inc
    }
}

/// Executable form of [`spec_decel`].
fn decel(accel: i64, dt: i64) -> (r: i64)
    requires
        0 <= accel <= STEP_LIMIT,
        0 < dt <= crate::context::DT_LIMIT_MS,
    ensures
        r == spec_decel(accel as int, dt as int),
        0 <= r <= accel,
{
    proof {
        assert(0 <= (dt as int) * 100 <= 100_000 * 1000) by (nonlinear_arith)
            requires
                0 < dt <= 1_000_000,
        ;
        crate::geom::lemma_trunc_div_bounds((dt as int) * 100, 1000, 0, 100_000);
    }
    let dec = div_trunc(dt * 100, 1000);
    if accel - dec < 0 {
        0
    } else {
        accel - dec
    }
}

/// Executable form of [`spec_carry_accel`].
fn carry_accel(dt: i64) -> (r: i64)
    requires
        0 < dt <= crate::context::DT_LIMIT_MS,
    ensures
        r == spec_carry_accel(dt as int),
        0 <= r <= STEP_LIMIT,
{
    proof {
        assert(0 <= (dt as int) * 8570 <= 8_570_000 * 1000) by (nonlinear_arith)
            requires
                0 < dt <= 1_000_000,
        ;
        crate::geom::lemma_trunc_div_bounds((dt as int) * 8570, 1000, 0, 8_570_000);
    }
    let a = div_trunc(dt * 8570, 1000);
    if a > STEP_LIMIT {
        STEP_LIMIT
    } else {
        a
    }
}

/// Executable form of [`spec_carry_height`]; the carry-phase height
/// profile stays between the lowered and the peak height.
pub fn carry_height(p: i64) -> (r: i64)
    requires
        0 <= p < 1000,
    ensures
        r == spec_carry_height(p as int),
        FALCON_LOWERED_HEIGHT <= r <= FALCON_CARRY_HEIGHT,
{
    if p < 400 {
        2000 + 25 * p
    } else {
        let over = if p >= 800 {
            p - 800
        } else {
            0
        };
        2000 + 10 * (1000 - 5 * over)
    }
}

/// Executable form of [`spec_carry_target`].
fn carry_target(
    controller: &ControllerComponent,
    last_intention: Option<PlayerIntention>,
    y: i64,
    fallback: &Vec3Fx,
) -> (r: Vec3Fx)
    requires
        intention_wf(controller.intention),
        intention_wf(last_intention),
        fallback.wf(),
        0 <= y <= crate::geom::HEIGHT_LIMIT,
    ensures
        r == spec_carry_target(*controller, last_intention, y as int, *fallback),
        r.wf(),
{
    match controller.intention {
        Some(PlayerIntention::MoveTo(p)) => Vec3Fx { x: p.x, y, z: p.y },
        Some(PlayerIntention::MoveTowardsMouse(p)) => Vec3Fx { x: p.x, y, z: p.y },
        _ => {
            match last_intention {
                Some(PlayerIntention::MoveTo(p)) => Vec3Fx { x: p.x, y, z: p.y },
                Some(PlayerIntention::MoveTowardsMouse(p)) => Vec3Fx { x: p.x, y, z: p.y },
                _ => Vec3Fx { x: fallback.x, y, z: fallback.z },
            }
        },
    }
}

/// Executable form of [`spec_ally_bezier`].
fn ally_bezier(pos: &Vec3Fx, owner_pos: &Vec2Fx) -> (r: QuadraticBezier3Fx)
    requires
        pos.wf(),
        owner_pos.wf(),
    ensures
        r == spec_ally_bezier(*pos, *owner_pos),
        r.wf(),
{
    let line_x = pos.x - owner_pos.x;
    let line_z = pos.z - owner_pos.y;
    let ctrl_x = clamp(
        pos.x + div_trunc(line_x * 200, 1000) + 5000,
        -COORD_LIMIT,
        COORD_LIMIT,
    );
    let ctrl_z = clamp(pos.z + div_trunc(line_z * 200, 1000), -COORD_LIMIT, COORD_LIMIT);
    proof {
        lemma_scaled_line_bounded(line_x as int);
        lemma_scaled_line_bounded(line_z as int);
    }
    QuadraticBezier3Fx {
        start: *pos,
        ctrl: Vec3Fx { x: ctrl_x, y: FALCON_BEZIER_CTRL_HEIGHT, z: ctrl_z },
        end: Vec3Fx { x: owner_pos.x, y: FALCON_LOWERED_HEIGHT, z: owner_pos.y },
    }
}

/// A fifth of the falcon-to-owner line stays well inside `i64`.
proof fn lemma_scaled_line_bounded(line: int)
    requires
        -2 * COORD_LIMIT <= line <= 2 * COORD_LIMIT,
    ensures
        -2 * COORD_LIMIT <= trunc_div(line * 200, 1000) <= 2 * COORD_LIMIT,
{
    assert((-2 * COORD_LIMIT as int) * 1000 <= line * 200 <= (2 * COORD_LIMIT as int) * 1000)
        by (nonlinear_arith)
        requires
            -2 * COORD_LIMIT <= line <= 2 * COORD_LIMIT,
    ;
    crate::geom::lemma_trunc_div_bounds(
        line * 200,
        1000,
        -2 * COORD_LIMIT as int,
        2 * COORD_LIMIT as int,
    );
}

} // verus!
