use rustarok_core::attr::Percentage;
use rustarok_core::chars::{
    BasicAttackType, CharAttributes, CharEntityId, CharacterStateComponent, CharacterStore,
    ControllerStore, Team, TurretComponent,
};
use rustarok_core::context::{
    ActionPlayMode, HpModificationType, SoundId, StrEffectType, SystemVariables,
};
use rustarok_core::geom::Vec2Fx;
use rustarok_core::registry::SkillManifestation;
use rustarok_core::skills::{
    DevConfig, ExoSkeletonConfig, ExoSkeletonSkill, GazDestroyTurretSkill, GazTurretConfig,
    GazTurretSkill, GazTurretTargetSkill, HealConfig, HealSkill, PoisonConfig, PosionSkill,
    SkillConfigPyroBlast, SkillTargetType, SkillsConfig, TurretConfig, WizPyroBlastSkill,
};
use rustarok_core::manifest::SkillConfigPyroBlastInner;
use rustarok_core::status::StatusEnum;
use rustarok_core::time::ElapsedTime;

fn mk_configs() -> DevConfig {
    DevConfig {
        skills: SkillsConfig {
            heal: HealConfig { heal: 55, sound_id: SoundId(4) },
            poison: PoisonConfig { damage: 10, duration_ms: 5_000 },
            wiz_pyroblast: SkillConfigPyroBlast {
                inner: SkillConfigPyroBlastInner {
                    moving_speed: 5_000,
                    damage: 100,
                    secondary_damage: 40,
                    splash_radius: 3_000,
                },
            },
            gaz_turret: GazTurretConfig {
                turret: TurretConfig {
                    attack_range: 10_000,
                    initial_hp: 200,
                    base_attributes: CharAttributes {
                        armor: 50,
                        walking_speed: 0,
                        attack_range: 10_000,
                        attack_damage: 20,
                        attack_speed: 10,
                    },
                },
            },
            exoskeleton: ExoSkeletonConfig {
                duration_ms: 30_000,
                armor: Percentage(50),
                attack_range: Percentage(10),
                movement_speed: Percentage(20),
                attack_damage: Percentage(30),
                attack_speed: Percentage(40),
            },
        },
    }
}

fn mk_char(x: i64, y: i64, team: u64) -> CharacterStateComponent {
    CharacterStateComponent {
        pos: Vec2Fx::new(x, y),
        team: Team(team),
        hp: 100,
        target: None,
        basic_attack_type: BasicAttackType::MeleeSimple,
        base_attributes: CharAttributes {
            armor: 100,
            walking_speed: 4_000,
            attack_range: 2_000,
            attack_damage: 10,
            attack_speed: 30,
        },
        calculated_walking_speed: 4_000,
        turret: None,
    }
}

#[test]
fn target_types_match_the_catalog() {
    assert_eq!(HealSkill.get_skill_target_type(), SkillTargetType::OnlyAllyAndSelf);
    assert_eq!(PosionSkill.get_skill_target_type(), SkillTargetType::OnlyEnemy);
    assert_eq!(WizPyroBlastSkill.get_skill_target_type(), SkillTargetType::OnlyEnemy);
    assert_eq!(ExoSkeletonSkill.get_skill_target_type(), SkillTargetType::NoTarget);
    assert_eq!(GazTurretSkill.get_skill_target_type(), SkillTargetType::Area);
    assert_eq!(
        GazDestroyTurretSkill.get_skill_target_type(),
        SkillTargetType::OnlyAllyButNoSelf
    );
    assert_eq!(GazTurretTargetSkill.get_skill_target_type(), SkillTargetType::OnlyEnemy);
}

#[test]
fn heal_enqueues_a_heal_and_a_sound() {
    let configs = mk_configs();
    let mut sys_vars = SystemVariables::new(ElapsedTime::new(100), 100);
    let caster = CharEntityId(1);
    let target = CharEntityId(2);
    let r = HealSkill.finish_cast(
        caster,
        Vec2Fx::new(500, 500),
        None,
        &Vec2Fx::new(1, 0),
        Some(target),
        &mut sys_vars,
        &configs,
    );
    assert!(r.is_none());
    assert_eq!(sys_vars.hp_mod_requests.len(), 1);
    assert_eq!(sys_vars.hp_mod_requests[0].src_entity, caster);
    assert_eq!(sys_vars.hp_mod_requests[0].dst_entity, target);
    assert!(matches!(sys_vars.hp_mod_requests[0].typ, HpModificationType::Heal(55)));
    assert_eq!(sys_vars.sound_effects.len(), 1);
    assert_eq!(sys_vars.sound_effects[0].sound_id, SoundId(4));
    assert_eq!(sys_vars.sound_effects[0].pos, Vec2Fx::new(500, 500));
}

#[test]
fn poison_cast_plants_the_status_and_the_cloud() {
    let configs = mk_configs();
    let mut sys_vars = SystemVariables::new(ElapsedTime::new(100), 100);
    let caster = CharEntityId(1);
    let target = CharEntityId(2);
    let r = PosionSkill.finish_cast(
        caster,
        Vec2Fx::new(0, 0),
        Some(Vec2Fx::new(3_000, 0)),
        &Vec2Fx::new(1, 0),
        Some(target),
        &mut sys_vars,
        &configs,
    );
    assert!(r.is_none());
    assert_eq!(sys_vars.str_effects.len(), 1);
    assert_eq!(sys_vars.str_effects[0].effect_id, StrEffectType::Poison);
    assert_eq!(sys_vars.str_effects[0].die_at, Some(ElapsedTime::new(800)));
    assert_eq!(sys_vars.str_effects[0].play_mode, ActionPlayMode::Repeat);
    assert_eq!(sys_vars.apply_statuses.len(), 1);
    match sys_vars.apply_statuses[0].status {
        StatusEnum::PoisonStatus(p) => {
            assert_eq!(p.started.0, 100);
            assert_eq!(p.until.0, 5_100);
            assert_eq!(p.next_damage_at.0, 100);
            assert_eq!(p.damage, 10);
        }
        _ => panic!("expected a poison status"),
    }
}

#[test]
fn pyro_blast_cast_marks_the_target_and_launches() {
    let configs = mk_configs();
    let mut sys_vars = SystemVariables::new(ElapsedTime::new(100), 100);
    let caster = CharEntityId(1);
    let target = CharEntityId(2);
    let r = WizPyroBlastSkill.finish_cast(
        caster,
        Vec2Fx::new(700, 800),
        None,
        &Vec2Fx::new(1, 0),
        Some(target),
        &mut sys_vars,
        &configs,
    );
    assert_eq!(sys_vars.apply_statuses.len(), 1);
    match sys_vars.apply_statuses[0].status {
        StatusEnum::PyroBlastTargetStatus(m) => {
            assert_eq!(m.caster_entity_id, caster);
            assert_eq!(m.splash_radius, 3_000);
        }
        _ => panic!("expected the blast marker"),
    }
    match r {
        Some(SkillManifestation::PyroBlastManifest(p)) => {
            assert_eq!(p.caster_entity_id, caster);
            assert_eq!(p.target_entity_id, target);
            assert_eq!(p.pos, Vec2Fx::new(700, 800));
            assert_eq!(p.created_at.0, 100);
        }
        _ => panic!("expected the projectile manifestation"),
    }
}

#[test]
fn exoskeleton_cast_buffs_the_caster_itself() {
    let configs = mk_configs();
    let mut sys_vars = SystemVariables::new(ElapsedTime::new(100), 100);
    let caster = CharEntityId(1);
    let r = ExoSkeletonSkill.finish_cast(
        caster,
        Vec2Fx::new(0, 0),
        None,
        &Vec2Fx::new(1, 0),
        None,
        &mut sys_vars,
        &configs,
    );
    assert!(r.is_none());
    assert_eq!(sys_vars.apply_statuses.len(), 1);
    assert_eq!(sys_vars.apply_statuses[0].source_entity_id, caster);
    assert_eq!(sys_vars.apply_statuses[0].target_entity_id, caster);
    match sys_vars.apply_statuses[0].status {
        StatusEnum::ExoSkeletonStatus(s) => {
            assert_eq!(s.started.0, 100);
            assert_eq!(s.until.0, 30_100);
            assert_eq!(s.armor, Percentage(50));
        }
        _ => panic!("expected the exoskeleton status"),
    }
}

#[test]
fn turret_cast_builds_a_turret_on_the_casters_team() {
    let configs = mk_configs();
    let mut store = CharacterStore::new();
    let caster = store.add_char(mk_char(0, 0, 3));
    let mut controllers = ControllerStore::new();
    let r = GazTurretSkill.finish_cast(
        caster,
        Vec2Fx::new(0, 0),
        Some(Vec2Fx::new(7_000, 0)),
        &Vec2Fx::new(1, 0),
        None,
        &mut store,
        &mut controllers,
        &configs,
    );
    assert!(r.is_none());
    assert_eq!(store.len(), 2);
    let turret_id = CharEntityId(1);
    let turret = store.get_char(turret_id).unwrap();
    assert_eq!(turret.team, Team(3));
    assert_eq!(turret.pos, Vec2Fx::new(7_000, 0));
    assert_eq!(turret.hp, 200);
    let t = turret.turret.unwrap();
    assert_eq!(t.owner_entity_id, caster);
    assert_eq!(t.preferred_target, None);
    assert_eq!(controllers.len(), 1);
    let controller = controllers
        .get_controller(rustarok_core::chars::ControllerEntityId(0))
        .unwrap();
    assert_eq!(controller.controlled_entity, turret_id);
    assert!(controller.turret_controller);
}

#[test]
fn turret_cast_by_a_deleted_caster_does_nothing() {
    let configs = mk_configs();
    let mut store = CharacterStore::new();
    let caster = store.add_char(mk_char(0, 0, 3));
    store.delete_char(caster);
    let mut controllers = ControllerStore::new();
    GazTurretSkill.finish_cast(
        caster,
        Vec2Fx::new(0, 0),
        Some(Vec2Fx::new(7_000, 0)),
        &Vec2Fx::new(1, 0),
        None,
        &mut store,
        &mut controllers,
        &configs,
    );
    assert_eq!(store.len(), 1);
    assert_eq!(controllers.len(), 0);
}

#[test]
fn destroy_turret_only_fells_the_casters_own() {
    let mut store = CharacterStore::new();
    let caster = store.add_char(mk_char(0, 0, 1));
    let other = store.add_char(mk_char(0, 0, 1));
    let mut own_turret = mk_char(5_000, 0, 1);
    own_turret.turret = Some(TurretComponent {
        owner_entity_id: caster,
        preferred_target: None,
    });
    let own_id = store.add_char(own_turret);
    let mut foreign_turret = mk_char(6_000, 0, 1);
    foreign_turret.turret = Some(TurretComponent {
        owner_entity_id: other,
        preferred_target: None,
    });
    let foreign_id = store.add_char(foreign_turret);

    GazDestroyTurretSkill.finish_cast(
        caster,
        Vec2Fx::new(0, 0),
        None,
        &Vec2Fx::new(1, 0),
        Some(foreign_id),
        &mut store,
    );
    assert_eq!(store.get_char(foreign_id).unwrap().hp, 100);

    GazDestroyTurretSkill.finish_cast(
        caster,
        Vec2Fx::new(0, 0),
        None,
        &Vec2Fx::new(1, 0),
        Some(own_id),
        &mut store,
    );
    assert_eq!(store.get_char(own_id).unwrap().hp, 0);

    // a plain character is never torn down by this cast
    GazDestroyTurretSkill.finish_cast(
        caster,
        Vec2Fx::new(0, 0),
        None,
        &Vec2Fx::new(1, 0),
        Some(other),
        &mut store,
    );
    assert_eq!(store.get_char(other).unwrap().hp, 100);
}

#[test]
fn retarget_touches_every_owned_turret_and_nothing_else() {
    let mut store = CharacterStore::new();
    let caster = store.add_char(mk_char(0, 0, 1));
    let other = store.add_char(mk_char(0, 0, 1));
    let enemy = store.add_char(mk_char(9_000, 0, 2));
    let mut own_turret = mk_char(5_000, 0, 1);
    own_turret.turret = Some(TurretComponent {
        owner_entity_id: caster,
        preferred_target: None,
    });
    let own_id = store.add_char(own_turret);
    let mut foreign_turret = mk_char(6_000, 0, 1);
    foreign_turret.turret = Some(TurretComponent {
        owner_entity_id: other,
        preferred_target: None,
    });
    let foreign_id = store.add_char(foreign_turret);

    GazTurretTargetSkill.finish_cast(
        caster,
        Vec2Fx::new(0, 0),
        None,
        &Vec2Fx::new(1, 0),
        Some(enemy),
        &mut store,
    );
    assert_eq!(
        store.get_char(own_id).unwrap().turret.unwrap().preferred_target,
        Some(enemy)
    );
    assert_eq!(store.get_char(foreign_id).unwrap().turret.unwrap().preferred_target, None);
}
