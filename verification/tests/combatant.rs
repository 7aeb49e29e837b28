use druid_game::combatant::CombatStats;
use druid_game::combatant::Combatant;
use druid_game::weapon::Weapon;

#[test]
fn test_new_combatant_defaults() {
    let hero = Combatant::new("Hero of the Week".to_string());
    assert_eq!("Hero of the Week", hero.name);
    assert_eq!(0, hero.stats.accuracy);
    assert_eq!(0, hero.stats.evasion);
    assert_eq!(0, hero.stats.strength);
    assert_eq!(0, hero.stats.defense);
    assert_eq!(10, hero.health.current());
    assert_eq!(10, hero.health.max());
    assert!(hero.current_weapon().is_none());
}

#[test]
fn test_give_weapon_equips_it() {
    let mut wielder = Combatant::new("Mysterious Figure".to_string());
    wielder.give_weapon(Weapon::new("Blessed Longsword".to_string(), 90, 12));

    let weapon = wielder.current_weapon().as_ref().expect("the weapon must be equipped");
    assert_eq!("Blessed Longsword", weapon.name);
    assert_eq!(90, weapon.hit_rate);
    assert_eq!(12, weapon.damage);
}

#[test]
fn test_give_weapon_replaces_the_old_one() {
    let mut wielder = Combatant::new("Hero of the Week".to_string());
    wielder.give_weapon(Weapon::new("Longsword".to_string(), 80, 10));
    wielder.give_weapon(Weapon::new("Dagger".to_string(), 95, 3));

    let weapon = wielder.current_weapon().as_ref().expect("a weapon must be equipped");
    assert_eq!("Dagger", weapon.name);
}

#[test]
fn test_new_stats_are_all_zero() {
    let stats = CombatStats::new();
    assert_eq!(0, stats.accuracy);
    assert_eq!(0, stats.evasion);
    assert_eq!(0, stats.strength);
    assert_eq!(0, stats.defense);
}

#[test]
fn test_default_stats_match_new() {
    let stats: CombatStats = Default::default();
    assert_eq!(0, stats.accuracy);
    assert_eq!(0, stats.evasion);
    assert_eq!(0, stats.strength);
    assert_eq!(0, stats.defense);
}

#[test]
fn test_weapon_construction() {
    let weapon = Weapon::new("Blessed Longsword".to_string(), 90, 12);
    assert_eq!("Blessed Longsword", weapon.name);
    assert_eq!(90, weapon.hit_rate);
    assert_eq!(12, weapon.damage);
}
