use rustarok_core::chars::{
    BasicAttackType, CharAttributes, CharEntityId, CharacterStateComponent, CharacterStore, Team,
};
use rustarok_core::context::{
    ApplyStatusComponent, AreaShape, HpModificationType, StrEffectType, SystemVariables,
};
use rustarok_core::geom::Vec2Fx;
use rustarok_core::manifest::{
    Collision, ColliderHandle, ManifestUpdateResult, PyroBlastManifest, SkillConfigPyroBlastInner,
    StatusApplierArea, StatusCreator,
};
use rustarok_core::registry::{SkillManifestation, SkillManifestationRegistry};
use rustarok_core::status::{PyroBlastTargetStatus, StatusEnum};
use rustarok_core::status_engine::StatusEngine;
use rustarok_core::time::ElapsedTime;

fn mk_char(x: i64, y: i64) -> CharacterStateComponent {
    CharacterStateComponent {
        pos: Vec2Fx::new(x, y),
        team: Team(1),
        hp: 100,
        target: None,
        basic_attack_type: BasicAttackType::MeleeSimple,
        base_attributes: CharAttributes {
            armor: 100,
            walking_speed: 4_000,
            attack_range: 2_000,
            attack_damage: 10,
            attack_speed: 30,
        },
        calculated_walking_speed: 4_000,
        turret: None,
    }
}

fn mk_area(caster: CharEntityId, handle: ColliderHandle) -> StatusApplierArea {
    StatusApplierArea::new(
        StatusCreator::Poison { damage: 10, duration_ms: 5_000 },
        &Vec2Fx::new(0, 0),
        Vec2Fx::new(4_000, 4_000),
        caster,
        handle,
    )
}

fn pyro_configs() -> SkillConfigPyroBlastInner {
    SkillConfigPyroBlastInner {
        moving_speed: 5_000,
        damage: 100,
        secondary_damage: 40,
        splash_radius: 3_000,
    }
}

#[test]
fn area_cooldown_gates_all_targets_at_once() {
    // two characters colliding in the same tick both receive the status;
    // a third 0.5 s later gets nothing (cooldown 2 s); one colliding
    // 2.1 s after the first trigger gets it again
    let caster = CharEntityId(9);
    let handle = ColliderHandle(42);
    let mut area = mk_area(caster, handle);
    let mut sys_vars = SystemVariables::new(ElapsedTime::new(0), 100);

    let both = vec![
        Collision { character_entity_id: CharEntityId(1), other_coll_handle: handle },
        Collision { character_entity_id: CharEntityId(2), other_coll_handle: handle },
    ];
    area.update(&both, &mut sys_vars);
    assert_eq!(sys_vars.apply_statuses.len(), 2);
    assert_eq!(sys_vars.apply_statuses[0].target_entity_id, CharEntityId(1));
    assert_eq!(sys_vars.apply_statuses[1].target_entity_id, CharEntityId(2));
    assert_eq!(area.next_action_at.0, 2_000);

    sys_vars.time = ElapsedTime::new(500);
    let third = vec![Collision {
        character_entity_id: CharEntityId(3),
        other_coll_handle: handle,
    }];
    area.update(&third, &mut sys_vars);
    assert_eq!(sys_vars.apply_statuses.len(), 2);

    sys_vars.time = ElapsedTime::new(2_100);
    area.update(&third, &mut sys_vars);
    assert_eq!(sys_vars.apply_statuses.len(), 3);
    assert_eq!(sys_vars.apply_statuses[2].target_entity_id, CharEntityId(3));
    assert_eq!(area.next_action_at.0, 4_100);
}

#[test]
fn area_ignores_collisions_of_other_colliders() {
    let caster = CharEntityId(9);
    let mut area = mk_area(caster, ColliderHandle(42));
    let mut sys_vars = SystemVariables::new(ElapsedTime::new(0), 100);
    let foreign = vec![Collision {
        character_entity_id: CharEntityId(1),
        other_coll_handle: ColliderHandle(43),
    }];
    area.update(&foreign, &mut sys_vars);
    assert_eq!(sys_vars.apply_statuses.len(), 0);
    // an open gate stays open when nothing matched
    assert_eq!(area.next_action_at.0, 0);
}

#[test]
fn area_plants_a_fresh_poison_with_the_trigger_time() {
    let caster = CharEntityId(9);
    let handle = ColliderHandle(42);
    let mut area = mk_area(caster, handle);
    let mut sys_vars = SystemVariables::new(ElapsedTime::new(700), 100);
    let coll = vec![Collision { character_entity_id: CharEntityId(1), other_coll_handle: handle }];
    area.update(&coll, &mut sys_vars);
    assert_eq!(sys_vars.apply_statuses.len(), 1);
    match sys_vars.apply_statuses[0].status {
        StatusEnum::PoisonStatus(p) => {
            assert_eq!(p.poison_caster_entity_id, caster);
            assert_eq!(p.started.0, 700);
            assert_eq!(p.next_damage_at.0, 700);
            assert_eq!(p.until.0, 5_700);
            assert_eq!(p.damage, 10);
        }
        _ => panic!("expected a poison status"),
    }
}

#[test]
fn projectile_arrives_in_the_expected_time() {
    // target at distance 10 units, speed 5 units/s, arrival threshold
    // 2 units: the blast lands after (10 - 2) / 5 = 1.6 simulated
    // seconds, within one tick
    let mut store = CharacterStore::new();
    let target = store.add_char(mk_char(10_000, 0));
    let caster = CharEntityId(50);
    let mut engine = StatusEngine::new();
    let mut sys_vars = SystemVariables::new(ElapsedTime::new(0), 100);
    let mut p = PyroBlastManifest::new(
        caster,
        Vec2Fx::new(0, 0),
        target,
        ElapsedTime::new(0),
        pyro_configs(),
    );
    let mut ticks: i64 = 0;
    loop {
        let r = p.update(&mut sys_vars, &store, &mut engine);
        ticks += 1;
        assert!(ticks < 100, "projectile never arrived");
        if r == ManifestUpdateResult::Remove {
            break;
        }
    }
    // 16 moving ticks of 100 ms plus the detonation tick
    assert!(ticks == 16 || ticks == 17, "arrived after {} ticks", ticks);
    // exactly one direct hit and exactly one splash that spares the target
    assert_eq!(sys_vars.hp_mod_requests.len(), 1);
    assert_eq!(sys_vars.hp_mod_requests[0].dst_entity, target);
    assert!(matches!(
        sys_vars.hp_mod_requests[0].typ,
        HpModificationType::SpellDamage(100, _)
    ));
    assert_eq!(sys_vars.area_hp_mod_requests.len(), 1);
    assert_eq!(sys_vars.area_hp_mod_requests[0].except, Some(target));
    assert_eq!(sys_vars.area_hp_mod_requests[0].area_pos, Vec2Fx::new(10_000, 0));
    assert!(matches!(
        sys_vars.area_hp_mod_requests[0].area_shape,
        AreaShape::Circle { radius: 3_000 }
    ));
    assert_eq!(sys_vars.str_effects.len(), 1);
    assert_eq!(sys_vars.str_effects[0].effect_id, StrEffectType::Explosion);
}

#[test]
fn projectile_strips_its_casters_marker_on_arrival() {
    let mut store = CharacterStore::new();
    let target = store.add_char(mk_char(1_000, 0));
    let caster = CharEntityId(50);
    let mut engine = StatusEngine::new();
    let mut effects = Vec::new();
    engine.apply_status(
        ApplyStatusComponent {
            source_entity_id: caster,
            target_entity_id: target,
            status: StatusEnum::PyroBlastTargetStatus(PyroBlastTargetStatus {
                caster_entity_id: caster,
                splash_radius: 3_000,
            }),
        },
        &mut store,
        &mut effects,
        ElapsedTime::new(0),
    );
    let mut sys_vars = SystemVariables::new(ElapsedTime::new(0), 100);
    // already inside the arrival threshold: detonates on the first tick
    let mut p = PyroBlastManifest::new(
        caster,
        Vec2Fx::new(0, 0),
        target,
        ElapsedTime::new(0),
        pyro_configs(),
    );
    assert_eq!(p.update(&mut sys_vars, &store, &mut engine), ManifestUpdateResult::Remove);
    assert_eq!(engine.statuses[target.0].len(), 0);
}

#[test]
fn projectile_dies_quietly_when_its_target_is_gone() {
    let mut store = CharacterStore::new();
    let target = store.add_char(mk_char(10_000, 0));
    store.delete_char(target);
    let mut engine = StatusEngine::new();
    let mut sys_vars = SystemVariables::new(ElapsedTime::new(0), 100);
    let mut p = PyroBlastManifest::new(
        CharEntityId(50),
        Vec2Fx::new(0, 0),
        target,
        ElapsedTime::new(0),
        pyro_configs(),
    );
    assert_eq!(p.update(&mut sys_vars, &store, &mut engine), ManifestUpdateResult::Remove);
    assert_eq!(sys_vars.hp_mod_requests.len(), 0);
    assert_eq!(sys_vars.area_hp_mod_requests.len(), 0);
}

#[test]
fn registry_removes_finished_manifestations() {
    let mut store = CharacterStore::new();
    let near_target = store.add_char(mk_char(1_000, 0));
    let far_target = store.add_char(mk_char(100_000, 0));
    let mut engine = StatusEngine::new();
    let mut sys_vars = SystemVariables::new(ElapsedTime::new(0), 100);
    let mut registry = SkillManifestationRegistry::new();
    let caster = CharEntityId(50);

    let area_id = registry.add(SkillManifestation::StatusApplierArea(mk_area(
        caster,
        ColliderHandle(42),
    )));
    let arriving = registry.add(SkillManifestation::PyroBlastManifest(PyroBlastManifest::new(
        caster,
        Vec2Fx::new(0, 0),
        near_target,
        ElapsedTime::new(0),
        pyro_configs(),
    )));
    let flying = registry.add(SkillManifestation::PyroBlastManifest(PyroBlastManifest::new(
        caster,
        Vec2Fx::new(0, 0),
        far_target,
        ElapsedTime::new(0),
        pyro_configs(),
    )));

    let collisions: Vec<Collision> = Vec::new();
    registry.update_all(&collisions, &mut sys_vars, &store, &mut engine);

    assert!(registry.entries[area_id].is_some());
    assert!(registry.entries[arriving].is_none());
    match registry.entries[flying] {
        Some(SkillManifestation::PyroBlastManifest(ref p)) => {
            // moved 5 units/s * 0.1 s = 0.5 units toward the target
            assert_eq!(p.pos, Vec2Fx::new(500, 0));
        }
        _ => panic!("the distant projectile must keep flying"),
    }

    // an externally deleted entity empties its slot
    registry.remove(area_id);
    assert!(registry.entries[area_id].is_none());
}
