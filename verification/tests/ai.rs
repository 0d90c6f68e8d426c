use rustarok_core::chars::{
    BasicAttackType, CharAttributes, CharEntityId, CharacterStateComponent, CharacterStore,
    ControllerComponent, ControllerEntityId, ControllerStore, EntityTarget, PlayerIntention, Team,
    TurretComponent,
};
use rustarok_core::context::SystemVariables;
use rustarok_core::falcon::{
    carry_height, CharActionIndex, FalconComponent, FalconState, FalconUpdateResult, SpriteState,
};
use rustarok_core::geom::{Vec2Fx, Vec3Fx};
use rustarok_core::status::StatusEnum;
use rustarok_core::time::ElapsedTime;
use rustarok_core::turret::{get_closest_enemy_in_area, turret_ai_tick, TurretTickResult};

fn mk_char(x: i64, y: i64, team: u64, hp: i64) -> CharacterStateComponent {
    CharacterStateComponent {
        pos: Vec2Fx::new(x, y),
        team: Team(team),
        hp,
        target: None,
        basic_attack_type: BasicAttackType::MeleeSimple,
        base_attributes: CharAttributes {
            armor: 100,
            walking_speed: 4_000,
            attack_range: 2_000,
            attack_damage: 10,
            attack_speed: 30,
        },
        calculated_walking_speed: 4_000,
        turret: None,
    }
}

#[test]
fn preferred_target_overrides_a_valid_current_target() {
    // the sentinel is attacking A; preferred target B is set, alive and
    // in radius: the next intention is Attack(B) although A is valid too
    let mut store = CharacterStore::new();
    let sentinel = store.add_char(mk_char(0, 0, 1, 100));
    let a = store.add_char(mk_char(1_000, 0, 2, 100));
    let b = store.add_char(mk_char(2_000, 0, 2, 100));
    let mut me = store.get_char(sentinel).unwrap();
    me.target = Some(EntityTarget::OtherEntity(a));
    me.turret = Some(TurretComponent { owner_entity_id: CharEntityId(99), preferred_target: Some(b) });
    store.set_char(sentinel, me);
    let controller = ControllerComponent {
        controlled_entity: sentinel,
        intention: None,
        turret_controller: true,
    };
    let r = turret_ai_tick(&controller, &store, 10_000);
    assert_eq!(r, TurretTickResult::Intention(Some(PlayerIntention::Attack(b))));
}

#[test]
fn dead_preferred_target_falls_back_to_the_current_one() {
    let mut store = CharacterStore::new();
    let sentinel = store.add_char(mk_char(0, 0, 1, 100));
    let a = store.add_char(mk_char(1_000, 0, 2, 100));
    let b = store.add_char(mk_char(2_000, 0, 2, 0));
    let mut me = store.get_char(sentinel).unwrap();
    me.target = Some(EntityTarget::OtherEntity(a));
    me.turret = Some(TurretComponent { owner_entity_id: CharEntityId(99), preferred_target: Some(b) });
    store.set_char(sentinel, me);
    let controller = ControllerComponent {
        controlled_entity: sentinel,
        intention: None,
        turret_controller: true,
    };
    let r = turret_ai_tick(&controller, &store, 10_000);
    assert_eq!(r, TurretTickResult::Intention(Some(PlayerIntention::Attack(a))));
}

#[test]
fn dead_current_target_triggers_a_search() {
    let mut store = CharacterStore::new();
    let sentinel = store.add_char(mk_char(0, 0, 1, 100));
    let a = store.add_char(mk_char(1_000, 0, 2, 0));
    let c = store.add_char(mk_char(3_000, 0, 2, 100));
    let mut me = store.get_char(sentinel).unwrap();
    me.target = Some(EntityTarget::OtherEntity(a));
    me.turret = Some(TurretComponent { owner_entity_id: CharEntityId(99), preferred_target: None });
    store.set_char(sentinel, me);
    let controller = ControllerComponent {
        controlled_entity: sentinel,
        intention: None,
        turret_controller: true,
    };
    let r = turret_ai_tick(&controller, &store, 10_000);
    assert_eq!(r, TurretTickResult::Intention(Some(PlayerIntention::Attack(c))));
}

#[test]
fn no_enemy_in_radius_means_no_target() {
    let mut store = CharacterStore::new();
    let sentinel = store.add_char(mk_char(0, 0, 1, 100));
    store.add_char(mk_char(50_000, 0, 2, 100));
    let mut me = store.get_char(sentinel).unwrap();
    me.turret = Some(TurretComponent { owner_entity_id: CharEntityId(99), preferred_target: None });
    store.set_char(sentinel, me);
    let controller = ControllerComponent {
        controlled_entity: sentinel,
        intention: None,
        turret_controller: true,
    };
    let r = turret_ai_tick(&controller, &store, 10_000);
    assert_eq!(r, TurretTickResult::Intention(None));
}

#[test]
fn deleted_sentinel_character_deletes_its_controller() {
    let mut store = CharacterStore::new();
    let sentinel = store.add_char(mk_char(0, 0, 1, 100));
    store.delete_char(sentinel);
    let controller = ControllerComponent {
        controlled_entity: sentinel,
        intention: None,
        turret_controller: true,
    };
    assert_eq!(turret_ai_tick(&controller, &store, 10_000), TurretTickResult::DeleteController);
}

#[test]
fn closest_enemy_search_keeps_the_nearest() {
    let mut store = CharacterStore::new();
    let _ally = store.add_char(mk_char(100, 0, 1, 100));
    let far = store.add_char(mk_char(5_000, 0, 2, 100));
    let near = store.add_char(mk_char(2_000, 0, 2, 100));
    let dead = store.add_char(mk_char(500, 0, 2, 0));
    let _ = (far, dead);
    let found = get_closest_enemy_in_area(
        &store,
        &Vec2Fx::new(0, 0),
        10_000,
        Team(1),
        CharEntityId(999),
    );
    assert_eq!(found, Some(near));
}

#[test]
fn carry_height_profile_rises_peaks_and_descends() {
    // at 20% of the carry window (inside the rising 0..40% band) the
    // height is 2.0 + (0.2 / 0.4) * (12.0 - 2.0) = 7.0 units
    assert_eq!(carry_height(200), 7_000);
    assert_eq!(carry_height(0), 2_000);
    assert_eq!(carry_height(400), 12_000);
    assert_eq!(carry_height(600), 12_000);
    assert_eq!(carry_height(800), 12_000);
    assert_eq!(carry_height(900), 7_000);
    assert_eq!(carry_height(999), 2_050);
}

#[test]
fn carry_requests_are_dropped_outside_follow() {
    // invoking carry_ally while the state is Attack leaves everything
    // unchanged
    let mut falcon = FalconComponent::new(CharEntityId(1), 0, 0);
    let mut sprite = SpriteState { action_index: CharActionIndex::Idle };
    falcon.set_state_to_attack(
        ElapsedTime::new(0),
        1_000,
        Vec2Fx::new(0, 0),
        Vec2Fx::new(10_000, 0),
        &mut sprite,
    );
    let state_before = falcon.state;
    let pos_before = falcon.pos;
    sprite.action_index = CharActionIndex::Idle;
    falcon.carry_ally(CharEntityId(2), ElapsedTime::new(100), 5_000, &mut sprite);
    assert_eq!(falcon.state, state_before);
    assert_eq!(falcon.pos, pos_before);
    assert_eq!(sprite.action_index, CharActionIndex::Idle);
    falcon.carry_owner(ControllerEntityId(0), ElapsedTime::new(100), 5_000, &mut sprite);
    assert_eq!(falcon.state, state_before);
    falcon.set_state_to_attack(
        ElapsedTime::new(100),
        1_000,
        Vec2Fx::new(1, 1),
        Vec2Fx::new(2, 2),
        &mut sprite,
    );
    assert_eq!(falcon.state, state_before);
}

#[test]
fn falcon_follows_its_owner() {
    let mut store = CharacterStore::new();
    let owner = store.add_char(mk_char(10_000, 0, 1, 100));
    let controllers = ControllerStore::new();
    let mut falcon = FalconComponent::new(owner, 0, 0);
    let mut sprite = SpriteState { action_index: CharActionIndex::Idle };
    let mut sys_vars = SystemVariables::new(ElapsedTime::new(0), 100);
    let r = falcon.update(&store, &controllers, None, &mut sprite, &mut sys_vars);
    assert_eq!(r, FalconUpdateResult::Keep);
    // acceleration ramped up by 0.05 * dt and the falcon moved that far
    assert_eq!(falcon.acceleration, 5);
    assert_eq!(falcon.pos, Vec3Fx::new(5, 5_000, 0));
}

#[test]
fn falcon_without_an_owner_is_deleted() {
    let mut store = CharacterStore::new();
    let owner = store.add_char(mk_char(10_000, 0, 1, 100));
    store.delete_char(owner);
    let controllers = ControllerStore::new();
    let mut falcon = FalconComponent::new(owner, 0, 0);
    let mut sprite = SpriteState { action_index: CharActionIndex::Idle };
    let mut sys_vars = SystemVariables::new(ElapsedTime::new(0), 100);
    let r = falcon.update(&store, &controllers, None, &mut sprite, &mut sys_vars);
    assert_eq!(r, FalconUpdateResult::Delete);
}

#[test]
fn falcon_attack_interpolates_and_returns_to_follow() {
    let mut store = CharacterStore::new();
    let owner = store.add_char(mk_char(0, 0, 1, 100));
    let controllers = ControllerStore::new();
    let mut falcon = FalconComponent::new(owner, 0, 0);
    let mut sprite = SpriteState { action_index: CharActionIndex::Idle };
    falcon.set_state_to_attack(
        ElapsedTime::new(0),
        1_000,
        Vec2Fx::new(0, 0),
        Vec2Fx::new(10_000, 0),
        &mut sprite,
    );
    assert_eq!(sprite.action_index, CharActionIndex::Walking);
    let mut sys_vars = SystemVariables::new(ElapsedTime::new(500), 100);
    falcon.update(&store, &controllers, None, &mut sprite, &mut sys_vars);
    assert_eq!(falcon.pos, Vec3Fx::new(5_000, 2_750, 0));
    sys_vars.time = ElapsedTime::new(1_100);
    falcon.update(&store, &controllers, None, &mut sprite, &mut sys_vars);
    assert_eq!(falcon.state, FalconState::Follow);
    assert_eq!(sprite.action_index, CharActionIndex::Idle);
}

#[test]
fn carry_owner_flies_the_height_profile_and_plants_the_status() {
    let mut store = CharacterStore::new();
    let owner = store.add_char(mk_char(0, 0, 1, 100));
    let mut controllers = ControllerStore::new();
    let controller_id = controllers.add_controller(ControllerComponent {
        controlled_entity: owner,
        intention: Some(PlayerIntention::MoveTo(Vec2Fx::new(5_000, 0))),
        turret_controller: false,
    });
    let mut falcon = FalconComponent::new(owner, 0, 0);
    let mut sprite = SpriteState { action_index: CharActionIndex::Idle };
    falcon.carry_owner(controller_id, ElapsedTime::new(0), 10_000, &mut sprite);
    assert_eq!(sprite.action_index, CharActionIndex::Walking);

    // 20% into the window: past the pick-up, inside the rising band
    let mut sys_vars = SystemVariables::new(ElapsedTime::new(2_000), 100);
    let r = falcon.update(&store, &controllers, None, &mut sprite, &mut sys_vars);
    assert_eq!(r, FalconUpdateResult::Keep);
    // the catch happened exactly once: status planted, animation idle
    assert_eq!(sys_vars.apply_statuses.len(), 1);
    assert_eq!(sys_vars.apply_statuses[0].target_entity_id, owner);
    match sys_vars.apply_statuses[0].status {
        StatusEnum::FalconCarryStatus(s) => {
            assert!(s.carry_owner);
            assert_eq!(s.started_at.0, 0);
            assert_eq!(s.ends_at.0, 10_000);
        }
        _ => panic!("expected the carry status"),
    }
    assert_eq!(sprite.action_index, CharActionIndex::Idle);
    // height profile at 20%: 7.0 units; carry speed 8.57 * dt
    assert_eq!(falcon.pos.y, 7_000);
    assert_eq!(falcon.acceleration, 857);
    assert_eq!(falcon.pos.x, 857);
    match falcon.state {
        FalconState::CarryOwner { target_is_caught, .. } => assert!(target_is_caught),
        _ => panic!("still carrying"),
    }

    // a second tick in the carry band does not re-plant the status
    sys_vars.time = ElapsedTime::new(2_100);
    falcon.update(&store, &controllers, None, &mut sprite, &mut sys_vars);
    assert_eq!(sys_vars.apply_statuses.len(), 1);

    // past the window: drop and return to following
    sys_vars.time = ElapsedTime::new(10_000);
    falcon.update(&store, &controllers, None, &mut sprite, &mut sys_vars);
    assert_eq!(falcon.state, FalconState::Follow);
}

#[test]
fn carry_ally_aborts_gracefully_before_the_catch() {
    // the ally vanished before the carry phase: back to Follow, the
    // falcon itself survives
    let mut store = CharacterStore::new();
    let owner = store.add_char(mk_char(0, 0, 1, 100));
    let ally = store.add_char(mk_char(8_000, 0, 1, 100));
    store.delete_char(ally);
    let controllers = ControllerStore::new();
    let mut falcon = FalconComponent::new(owner, 0, 0);
    let mut sprite = SpriteState { action_index: CharActionIndex::Idle };
    falcon.carry_ally(ally, ElapsedTime::new(0), 10_000, &mut sprite);
    let mut sys_vars = SystemVariables::new(ElapsedTime::new(1_000), 100);
    let r = falcon.update(&store, &controllers, None, &mut sprite, &mut sys_vars);
    assert_eq!(r, FalconUpdateResult::Keep);
    assert_eq!(falcon.state, FalconState::Follow);
}

#[test]
fn carry_ally_dies_when_the_ally_vanishes_at_the_catch() {
    // the ally vanished at the moment the flight curve is built: unlike
    // the graceful pre-carry abort, the falcon entity itself is
    // destroyed, and no carry status is planted on the vanished ally
    let mut store = CharacterStore::new();
    let owner = store.add_char(mk_char(0, 0, 1, 100));
    let ally = store.add_char(mk_char(8_000, 0, 1, 100));
    store.delete_char(ally);
    let controllers = ControllerStore::new();
    let mut falcon = FalconComponent::new(owner, 8_000, 0);
    let mut sprite = SpriteState { action_index: CharActionIndex::Idle };
    falcon.carry_ally(ally, ElapsedTime::new(0), 10_000, &mut sprite);
    let mut sys_vars = SystemVariables::new(ElapsedTime::new(5_000), 100);
    let r = falcon.update(&store, &controllers, None, &mut sprite, &mut sys_vars);
    assert_eq!(r, FalconUpdateResult::Delete);
    assert_eq!(sys_vars.apply_statuses.len(), 0);
}

#[test]
fn carry_ally_dies_with_its_owner_at_the_catch() {
    // the owner vanished at the moment the flight curve is built: the
    // falcon entity itself is destroyed
    let mut store = CharacterStore::new();
    let owner = store.add_char(mk_char(0, 0, 1, 100));
    let ally = store.add_char(mk_char(8_000, 0, 1, 100));
    store.delete_char(owner);
    let controllers = ControllerStore::new();
    let mut falcon = FalconComponent::new(owner, 0, 0);
    let mut sprite = SpriteState { action_index: CharActionIndex::Idle };
    falcon.carry_ally(ally, ElapsedTime::new(0), 10_000, &mut sprite);
    let mut sys_vars = SystemVariables::new(ElapsedTime::new(5_000), 100);
    let r = falcon.update(&store, &controllers, None, &mut sprite, &mut sys_vars);
    assert_eq!(r, FalconUpdateResult::Delete);
}

#[test]
fn carry_ally_rides_the_flight_curve() {
    let mut store = CharacterStore::new();
    let owner = store.add_char(mk_char(0, 0, 1, 100));
    let ally = store.add_char(mk_char(8_000, 0, 1, 100));
    let controllers = ControllerStore::new();
    let mut falcon = FalconComponent::new(owner, 8_000, 0);
    let mut sprite = SpriteState { action_index: CharActionIndex::Idle };
    falcon.carry_ally(ally, ElapsedTime::new(0), 10_000, &mut sprite);
    // catch moment: the curve is built and the ally is marked carried
    let mut sys_vars = SystemVariables::new(ElapsedTime::new(5_000), 100);
    falcon.update(&store, &controllers, None, &mut sprite, &mut sys_vars);
    assert_eq!(sys_vars.apply_statuses.len(), 1);
    assert_eq!(sys_vars.apply_statuses[0].target_entity_id, ally);
    match sys_vars.apply_statuses[0].status {
        StatusEnum::FalconCarryStatus(s) => {
            assert!(!s.carry_owner);
            assert_eq!(s.end_pos, Vec2Fx::new(0, 0));
        }
        _ => panic!("expected the carry status"),
    }
    assert_eq!(falcon.bezier.end, Vec3Fx::new(0, 2_000, 0));
    assert_eq!(falcon.bezier.ctrl.y, 20_000);
    // at the end of the window the ally is dropped
    sys_vars.time = ElapsedTime::new(10_000);
    falcon.update(&store, &controllers, None, &mut sprite, &mut sys_vars);
    assert_eq!(falcon.state, FalconState::Follow);
}

#[test]
fn carry_owner_pick_phase_closes_on_the_owner() {
    // inside the fixed pick window the falcon interpolates from its
    // start position to the owner at the lowered height
    let mut store = CharacterStore::new();
    let owner = store.add_char(mk_char(6_000, 0, 1, 100));
    let mut controllers = ControllerStore::new();
    let controller_id = controllers.add_controller(ControllerComponent {
        controlled_entity: owner,
        intention: None,
        turret_controller: false,
    });
    let mut falcon = FalconComponent::new(owner, 0, 0);
    let mut sprite = SpriteState { action_index: CharActionIndex::Idle };
    falcon.carry_owner(controller_id, ElapsedTime::new(0), 10_000, &mut sprite);
    // 150 ms of a 300 ms pick window: half way down to the owner
    let mut sys_vars = SystemVariables::new(ElapsedTime::new(150), 50);
    falcon.update(&store, &controllers, None, &mut sprite, &mut sys_vars);
    assert_eq!(falcon.pos, Vec3Fx::new(3_000, 3_500, 0));
    assert_eq!(sys_vars.apply_statuses.len(), 0);
}

#[test]
fn carry_owner_dies_with_its_controller() {
    let mut store = CharacterStore::new();
    let owner = store.add_char(mk_char(0, 0, 1, 100));
    let mut controllers = ControllerStore::new();
    let controller_id = controllers.add_controller(ControllerComponent {
        controlled_entity: owner,
        intention: None,
        turret_controller: false,
    });
    controllers.delete_controller(controller_id);
    let mut falcon = FalconComponent::new(owner, 0, 0);
    let mut sprite = SpriteState { action_index: CharActionIndex::Idle };
    falcon.carry_owner(controller_id, ElapsedTime::new(0), 10_000, &mut sprite);
    let mut sys_vars = SystemVariables::new(ElapsedTime::new(2_000), 100);
    let r = falcon.update(&store, &controllers, None, &mut sprite, &mut sys_vars);
    assert_eq!(r, FalconUpdateResult::Delete);
}

#[test]
fn carried_owner_falls_back_to_the_last_intention() {
    let mut store = CharacterStore::new();
    let owner = store.add_char(mk_char(0, 0, 1, 100));
    let mut controllers = ControllerStore::new();
    let controller_id = controllers.add_controller(ControllerComponent {
        controlled_entity: owner,
        intention: None,
        turret_controller: false,
    });
    let mut falcon = FalconComponent::new(owner, 0, 0);
    let mut sprite = SpriteState { action_index: CharActionIndex::Idle };
    falcon.carry_owner(controller_id, ElapsedTime::new(0), 10_000, &mut sprite);
    let mut sys_vars = SystemVariables::new(ElapsedTime::new(2_000), 100);
    let last = Some(PlayerIntention::MoveTo(Vec2Fx::new(0, 5_000)));
    falcon.update(&store, &controllers, last, &mut sprite, &mut sys_vars);
    // moved along z toward the last known goal, at the profile height
    assert_eq!(falcon.pos, Vec3Fx::new(0, 7_000, 857));
}
