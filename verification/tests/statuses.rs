use rustarok_core::attr::Percentage;
use rustarok_core::chars::{
    BasicAttackType, CharAttributes, CharEntityId, CharacterStateComponent, CharacterStore, Team,
};
use rustarok_core::context::{
    ApplyStatusComponent, HpModificationRequest, HpModificationType, StrEffectType,
    SystemVariables,
};
use rustarok_core::geom::Vec2Fx;
use rustarok_core::status::{
    ExoSkeletonStatus, PoisonStatus, PyroBlastTargetStatus, StatusEnum, StatusNature,
    StatusUpdateResult,
};
use rustarok_core::status_engine::StatusEngine;
use rustarok_core::time::ElapsedTime;

fn base_attributes() -> CharAttributes {
    CharAttributes {
        armor: 100,
        walking_speed: 4_000,
        attack_range: 2_000,
        attack_damage: 10,
        attack_speed: 30,
    }
}

fn mk_char(x: i64, y: i64, team: u64, hp: i64) -> CharacterStateComponent {
    CharacterStateComponent {
        pos: Vec2Fx::new(x, y),
        team: Team(team),
        hp,
        target: None,
        basic_attack_type: BasicAttackType::MeleeSimple,
        base_attributes: base_attributes(),
        calculated_walking_speed: 4_000,
        turret: None,
    }
}

fn mk_exo(started_ms: i64, until_ms: i64) -> ExoSkeletonStatus {
    ExoSkeletonStatus::new(
        ElapsedTime::new(started_ms),
        until_ms - started_ms,
        Percentage(50),
        Percentage(10),
        Percentage(20),
        Percentage(30),
        Percentage(40),
    )
}

#[test]
fn expired_status_update_returns_remove_it() {
    // a status whose `until` has already passed is removed on the next
    // update, whatever its variant
    let mut hp_reqs: Vec<HpModificationRequest> = Vec::new();
    let mut c = mk_char(0, 0, 1, 100);
    let target = CharEntityId(0);
    let now = ElapsedTime::new(1_000);

    let mut exo = StatusEnum::ExoSkeletonStatus(mk_exo(0, 1_000));
    assert_eq!(exo.update(now, target, &mut c, &mut hp_reqs), StatusUpdateResult::RemoveIt);

    let mut poison = StatusEnum::PoisonStatus(PoisonStatus {
        poison_caster_entity_id: CharEntityId(7),
        started: ElapsedTime::new(0),
        until: ElapsedTime::new(1_000),
        next_damage_at: ElapsedTime::new(900),
        damage: 5,
    });
    let before = hp_reqs.len();
    assert_eq!(poison.update(now, target, &mut c, &mut hp_reqs), StatusUpdateResult::RemoveIt);
    // a removed poison deals no damage on its way out
    assert_eq!(hp_reqs.len(), before);
}

#[test]
fn live_status_update_keeps_it() {
    let mut hp_reqs: Vec<HpModificationRequest> = Vec::new();
    let mut c = mk_char(0, 0, 1, 100);
    let mut exo = StatusEnum::ExoSkeletonStatus(mk_exo(0, 1_000));
    assert_eq!(
        exo.update(ElapsedTime::new(999), CharEntityId(0), &mut c, &mut hp_reqs),
        StatusUpdateResult::KeepIt
    );
}

#[test]
fn expiring_exoskeleton_resets_attack_type() {
    let mut hp_reqs: Vec<HpModificationRequest> = Vec::new();
    let mut c = mk_char(0, 0, 1, 100);
    c.basic_attack_type = BasicAttackType::Ranged;
    let mut exo = StatusEnum::ExoSkeletonStatus(mk_exo(0, 1_000));
    exo.update(ElapsedTime::new(1_500), CharEntityId(0), &mut c, &mut hp_reqs);
    assert_eq!(c.basic_attack_type, BasicAttackType::MeleeSimple);
}

#[test]
fn poison_fires_on_the_tick_it_is_applied() {
    // next_damage_at == started: damage is due immediately, and the next
    // damage time advances by one fixed period
    let mut hp_reqs: Vec<HpModificationRequest> = Vec::new();
    let mut c = mk_char(0, 0, 1, 100);
    let caster = CharEntityId(7);
    let target = CharEntityId(3);
    let mut poison = StatusEnum::PoisonStatus(PoisonStatus {
        poison_caster_entity_id: caster,
        started: ElapsedTime::new(0),
        until: ElapsedTime::new(5_000),
        next_damage_at: ElapsedTime::new(0),
        damage: 10,
    });
    assert_eq!(
        poison.update(ElapsedTime::new(0), target, &mut c, &mut hp_reqs),
        StatusUpdateResult::KeepIt
    );
    assert_eq!(hp_reqs.len(), 1);
    assert_eq!(hp_reqs[0].src_entity, caster);
    assert_eq!(hp_reqs[0].dst_entity, target);
    assert!(matches!(hp_reqs[0].typ, HpModificationType::Poison(10)));
    // not due again before one period has elapsed
    poison.update(ElapsedTime::new(500), target, &mut c, &mut hp_reqs);
    assert_eq!(hp_reqs.len(), 1);
    poison.update(ElapsedTime::new(1_000), target, &mut c, &mut hp_reqs);
    assert_eq!(hp_reqs.len(), 2);
}

#[test]
fn status_natures_are_fixed() {
    assert_eq!(StatusEnum::ExoSkeletonStatus(mk_exo(0, 10)).typ(), StatusNature::Supportive);
    let marker = StatusEnum::PyroBlastTargetStatus(PyroBlastTargetStatus {
        caster_entity_id: CharEntityId(0),
        splash_radius: 1_000,
    });
    assert_eq!(marker.typ(), StatusNature::Neutral);
}

#[test]
fn engine_applies_statuses_and_runs_on_apply_once() {
    let mut store = CharacterStore::new();
    let id = store.add_char(mk_char(0, 0, 1, 100));
    let mut engine = StatusEngine::new();
    let mut sys_vars = SystemVariables::new(ElapsedTime::new(0), 100);
    sys_vars.apply_statuses.push(ApplyStatusComponent {
        source_entity_id: id,
        target_entity_id: id,
        status: StatusEnum::ExoSkeletonStatus(mk_exo(0, 10_000)),
    });
    engine.drain_apply_requests(&mut sys_vars, &mut store);
    assert_eq!(sys_vars.apply_statuses.len(), 0);
    assert_eq!(engine.statuses[id.0].len(), 1);
    // on_apply switched the bearer to ranged attacks and scheduled a
    // one-shot cart effect at the bearer
    let c = store.get_char(id).unwrap();
    assert_eq!(c.basic_attack_type, BasicAttackType::Ranged);
    assert_eq!(sys_vars.str_effects.len(), 1);
    assert_eq!(sys_vars.str_effects[0].effect_id, StrEffectType::Cart);
}

#[test]
fn request_against_deleted_entity_is_dropped() {
    let mut store = CharacterStore::new();
    let id = store.add_char(mk_char(0, 0, 1, 100));
    store.delete_char(id);
    let mut engine = StatusEngine::new();
    let mut sys_vars = SystemVariables::new(ElapsedTime::new(0), 100);
    sys_vars.apply_statuses.push(ApplyStatusComponent {
        source_entity_id: id,
        target_entity_id: id,
        status: StatusEnum::ExoSkeletonStatus(mk_exo(0, 10_000)),
    });
    engine.drain_apply_requests(&mut sys_vars, &mut store);
    assert_eq!(engine.statuses.len(), 0);
    assert_eq!(sys_vars.str_effects.len(), 0);
}

#[test]
fn expired_status_is_absent_from_later_queries() {
    // apply a +50% armor buff until t=1000; it shapes the armor before
    // expiry and is detached (with its teardown) at expiry
    let mut store = CharacterStore::new();
    let id = store.add_char(mk_char(0, 0, 1, 100));
    let mut engine = StatusEngine::new();
    let mut sys_vars = SystemVariables::new(ElapsedTime::new(0), 100);
    sys_vars.apply_statuses.push(ApplyStatusComponent {
        source_entity_id: id,
        target_entity_id: id,
        status: StatusEnum::ExoSkeletonStatus(mk_exo(0, 1_000)),
    });
    engine.drain_apply_requests(&mut sys_vars, &mut store);
    let inside = engine.calc_char_attributes(id, &mut store, ElapsedTime::new(500));
    assert_eq!(inside.armor, 150);

    engine.update_char_statuses(
        id,
        &mut store,
        ElapsedTime::new(1_000),
        &mut sys_vars.hp_mod_requests,
    );
    assert_eq!(engine.statuses[id.0].len(), 0);
    let c = store.get_char(id).unwrap();
    assert_eq!(c.basic_attack_type, BasicAttackType::MeleeSimple);
    let after = engine.calc_char_attributes(id, &mut store, ElapsedTime::new(1_000));
    assert_eq!(after.armor, 100);
}

#[test]
fn marker_removal_is_keyed_by_caster() {
    // two identically-typed markers from different casters: stripping
    // one caster's marker leaves the other caster's in place
    let mut store = CharacterStore::new();
    let id = store.add_char(mk_char(0, 0, 1, 100));
    let mut engine = StatusEngine::new();
    let mut effects = Vec::new();
    let caster_a = CharEntityId(10);
    let caster_b = CharEntityId(11);
    for caster in [caster_a, caster_b] {
        engine.apply_status(
            ApplyStatusComponent {
                source_entity_id: caster,
                target_entity_id: id,
                status: StatusEnum::PyroBlastTargetStatus(PyroBlastTargetStatus {
                    caster_entity_id: caster,
                    splash_radius: 1_000,
                }),
            },
            &mut store,
            &mut effects,
            ElapsedTime::new(0),
        );
    }
    assert_eq!(engine.statuses[id.0].len(), 2);
    engine.remove_marker_from_caster(id, caster_a);
    assert_eq!(engine.statuses[id.0].len(), 1);
    match engine.statuses[id.0][0] {
        StatusEnum::PyroBlastTargetStatus(m) => assert_eq!(m.caster_entity_id, caster_b),
        _ => panic!("expected the other caster's marker to survive"),
    }
}

#[test]
fn blast_marker_outlives_ticks() {
    // the marker has no expiry: tick updates keep it until it is
    // explicitly stripped
    let mut store = CharacterStore::new();
    let id = store.add_char(mk_char(0, 0, 1, 100));
    let mut engine = StatusEngine::new();
    let mut effects = Vec::new();
    engine.apply_status(
        ApplyStatusComponent {
            source_entity_id: CharEntityId(10),
            target_entity_id: id,
            status: StatusEnum::PyroBlastTargetStatus(PyroBlastTargetStatus {
                caster_entity_id: CharEntityId(10),
                splash_radius: 1_000,
            }),
        },
        &mut store,
        &mut effects,
        ElapsedTime::new(0),
    );
    let mut hp_reqs = Vec::new();
    engine.update_char_statuses(id, &mut store, ElapsedTime::new(1_000_000), &mut hp_reqs);
    assert_eq!(engine.statuses[id.0].len(), 1);
}

#[test]
fn engine_tick_drives_poison_over_its_life() {
    let mut store = CharacterStore::new();
    let id = store.add_char(mk_char(0, 0, 1, 100));
    let mut engine = StatusEngine::new();
    let mut sys_vars = SystemVariables::new(ElapsedTime::new(0), 100);
    sys_vars.apply_statuses.push(ApplyStatusComponent {
        source_entity_id: CharEntityId(9),
        target_entity_id: id,
        status: StatusEnum::PoisonStatus(PoisonStatus {
            poison_caster_entity_id: CharEntityId(9),
            started: ElapsedTime::new(0),
            until: ElapsedTime::new(2_500),
            next_damage_at: ElapsedTime::new(0),
            damage: 10,
        }),
    });
    engine.drain_apply_requests(&mut sys_vars, &mut store);
    let mut fired = 0;
    for ms in [0i64, 1_000, 2_000, 2_500] {
        let before = sys_vars.hp_mod_requests.len();
        engine.update_char_statuses(
            id,
            &mut store,
            ElapsedTime::new(ms),
            &mut sys_vars.hp_mod_requests,
        );
        fired += sys_vars.hp_mod_requests.len() - before;
    }
    // three periodic hits at 0, 1000 and 2000; removal at 2500 deals none
    assert_eq!(fired, 3);
    assert_eq!(engine.statuses[id.0].len(), 0);
}

#[test]
fn drain_applies_in_submission_order() {
    let mut store = CharacterStore::new();
    let id = store.add_char(mk_char(0, 0, 1, 100));
    let mut engine = StatusEngine::new();
    let mut sys_vars = SystemVariables::new(ElapsedTime::new(0), 100);
    sys_vars.apply_statuses.push(ApplyStatusComponent {
        source_entity_id: CharEntityId(8),
        target_entity_id: id,
        status: StatusEnum::PoisonStatus(PoisonStatus {
            poison_caster_entity_id: CharEntityId(8),
            started: ElapsedTime::new(0),
            until: ElapsedTime::new(1_000),
            next_damage_at: ElapsedTime::new(0),
            damage: 1,
        }),
    });
    sys_vars.apply_statuses.push(ApplyStatusComponent {
        source_entity_id: id,
        target_entity_id: id,
        status: StatusEnum::ExoSkeletonStatus(mk_exo(0, 10_000)),
    });
    engine.drain_apply_requests(&mut sys_vars, &mut store);
    assert_eq!(engine.statuses[id.0].len(), 2);
    assert!(matches!(engine.statuses[id.0][0], StatusEnum::PoisonStatus(_)));
    assert!(matches!(engine.statuses[id.0][1], StatusEnum::ExoSkeletonStatus(_)));
}

#[test]
fn exoskeleton_completion_tracks_the_window() {
    let exo = mk_exo(0, 10_000);
    let (until, pm) = exo.get_status_completion_percent(ElapsedTime::new(2_500)).unwrap();
    assert_eq!(until.0, 10_000);
    assert_eq!(pm, 250);
}

#[test]
fn every_attribute_channel_is_composed() {
    // the exoskeleton buffs all five attributes; the recomputation
    // applies the composition to every channel consistently
    let mut store = CharacterStore::new();
    let id = store.add_char(mk_char(0, 0, 1, 100));
    let mut engine = StatusEngine::new();
    let mut sys_vars = SystemVariables::new(ElapsedTime::new(0), 100);
    sys_vars.apply_statuses.push(ApplyStatusComponent {
        source_entity_id: id,
        target_entity_id: id,
        status: StatusEnum::ExoSkeletonStatus(mk_exo(0, 10_000)),
    });
    engine.drain_apply_requests(&mut sys_vars, &mut store);
    let effective = engine.calc_char_attributes(id, &mut store, ElapsedTime::new(500));
    // bases 100/4000/2000/10/30 under +50%/+20%/+10%/+30%/+40%
    assert_eq!(effective.armor, 150);
    assert_eq!(effective.walking_speed, 4_800);
    assert_eq!(effective.attack_range, 2_200);
    assert_eq!(effective.attack_damage, 13);
    assert_eq!(effective.attack_speed, 42);
    // the recomputed walking speed is written back for the movement code
    assert_eq!(store.get_char(id).unwrap().calculated_walking_speed, 4_800);
}
