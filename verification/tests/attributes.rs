use rustarok_core::attr::{CharAttributeModifier, CharAttributeModifierCollector, Percentage};
use rustarok_core::time::ElapsedTime;

#[test]
fn additive_applies_before_percentage() {
    // base armor 100, +20 additive, +50% over the whole window:
    // (100 + 20) * 150 / 100 = 180 anywhere inside the window
    let from = ElapsedTime::new(0);
    let until = ElapsedTime::new(10_000);
    let mut collector = CharAttributeModifierCollector::new();
    collector.change_armor(CharAttributeModifier::Additive(20), from, until);
    collector.change_armor(CharAttributeModifier::Percentage(Percentage(50)), from, until);
    assert_eq!(collector.calc_armor(ElapsedTime::new(0), 100), 180);
    assert_eq!(collector.calc_armor(ElapsedTime::new(5_000), 100), 180);
    assert_eq!(collector.calc_armor(ElapsedTime::new(9_999), 100), 180);
}

#[test]
fn expired_modifier_is_excluded_not_deleted() {
    let from = ElapsedTime::new(0);
    let until = ElapsedTime::new(1_000);
    let mut collector = CharAttributeModifierCollector::new();
    collector.change_armor(CharAttributeModifier::Additive(20), from, until);
    // active strictly before `until`, excluded from `until` on
    assert_eq!(collector.calc_armor(ElapsedTime::new(999), 100), 120);
    assert_eq!(collector.calc_armor(ElapsedTime::new(1_000), 100), 100);
    assert_eq!(collector.calc_armor(ElapsedTime::new(5_000), 100), 100);
}

#[test]
fn modifier_not_yet_valid_is_excluded() {
    let mut collector = CharAttributeModifierCollector::new();
    collector.change_armor(
        CharAttributeModifier::Additive(20),
        ElapsedTime::new(500),
        ElapsedTime::new(1_000),
    );
    assert_eq!(collector.calc_armor(ElapsedTime::new(499), 100), 100);
    assert_eq!(collector.calc_armor(ElapsedTime::new(500), 100), 120);
}

#[test]
fn channels_are_independent() {
    let from = ElapsedTime::new(0);
    let until = ElapsedTime::new(10_000);
    let now = ElapsedTime::new(100);
    let mut collector = CharAttributeModifierCollector::new();
    collector.change_walking_speed(
        CharAttributeModifier::Percentage(Percentage(100)),
        from,
        until,
    );
    collector.change_attack_damage(CharAttributeModifier::Additive(7), from, until);
    assert_eq!(collector.calc_armor(now, 100), 100);
    assert_eq!(collector.calc_walking_speed(now, 4_000), 8_000);
    assert_eq!(collector.calc_attack_damage(now, 10), 17);
    assert_eq!(collector.calc_attack_range(now, 250), 250);
    assert_eq!(collector.calc_attack_speed(now, 30), 30);
}

#[test]
fn percentage_modifiers_stack_on_the_percent_line() {
    let from = ElapsedTime::new(0);
    let until = ElapsedTime::new(10_000);
    let mut collector = CharAttributeModifierCollector::new();
    collector.change_armor(CharAttributeModifier::Percentage(Percentage(50)), from, until);
    collector.change_armor(CharAttributeModifier::Percentage(Percentage(-30)), from, until);
    // (100) * (100 + 50 - 30) / 100 = 120
    assert_eq!(collector.calc_armor(ElapsedTime::new(1), 100), 120);
}
