use druid_game::battle;
use druid_game::battle::AttackResult;
use druid_game::combatant::Combatant;
use druid_game::weapon::Weapon;

fn armed(name: &str, hit_rate: i32, damage: i32) -> Combatant {
    let mut combatant = Combatant::new(name.to_string());
    combatant.give_weapon(Weapon::new("Dummy Weapon".to_string(), hit_rate, damage));
    combatant
}

#[test]
fn test_direct_hit_scenario() {
    let attacker = armed("Attacker", 70, 8);
    let defender = Combatant::new("Defender".to_string());

    let result = battle::resolve_attack(50, &attacker, &defender);
    assert_eq!(AttackResult::DirectHit, result);

    let damage = battle::calculate_damage(&result, &attacker, &defender);
    assert_eq!(Some(8), damage);
}

#[test]
fn test_glancing_blow_scenario() {
    let attacker = armed("Attacker", 50, 10);
    let defender = Combatant::new("Defender".to_string());

    let result = battle::resolve_attack(60, &attacker, &defender);
    assert_eq!(AttackResult::GlancingBlow, result);

    let damage = battle::calculate_damage(&result, &attacker, &defender);
    assert_eq!(Some(5), damage);
}

#[test]
fn test_roll_equal_to_hit_rate_is_direct_hit() {
    let attacker = armed("Attacker", 50, 10);
    let defender = Combatant::new("Defender".to_string());

    let result = battle::resolve_attack(50, &attacker, &defender);
    assert_eq!(AttackResult::DirectHit, result);
}

#[test]
fn test_hit_rate_of_at_least_100_always_hits() {
    let mut attacker = armed("Attacker", 90, 5);
    attacker.stats.accuracy = 10;
    let defender = Combatant::new("Defender".to_string());

    for dice_roll in 1..=100 {
        let result = battle::resolve_attack(dice_roll, &attacker, &defender);
        assert_eq!(AttackResult::DirectHit, result);
    }
}

#[test]
fn test_hit_rate_of_at_most_0_always_glances() {
    let attacker = armed("Attacker", 0, 5);
    let defender = Combatant::new("Defender".to_string());

    for dice_roll in 1..=100 {
        let result = battle::resolve_attack(dice_roll, &attacker, &defender);
        assert_eq!(AttackResult::GlancingBlow, result);
    }
}

#[test]
fn test_hit_rate_formula() {
    let mut attacker = armed("Attacker", 50, 5);
    let mut defender = Combatant::new("Defender".to_string());

    assert_eq!(Some(50), battle::calculate_hit_rate(&attacker, &defender));

    attacker.stats.accuracy = 10;
    assert_eq!(Some(60), battle::calculate_hit_rate(&attacker, &defender));

    defender.stats.evasion = 25;
    assert_eq!(Some(35), battle::calculate_hit_rate(&attacker, &defender));

    // No clamping: the hit rate may leave [0, 100].
    attacker.stats.accuracy = 100;
    assert_eq!(Some(125), battle::calculate_hit_rate(&attacker, &defender));
    defender.stats.evasion = 200;
    assert_eq!(Some(-50), battle::calculate_hit_rate(&attacker, &defender));
}

#[test]
fn test_hit_rate_without_weapon_is_none() {
    let attacker = Combatant::new("Attacker".to_string());
    let defender = Combatant::new("Defender".to_string());
    assert_eq!(None, battle::calculate_hit_rate(&attacker, &defender));
}

#[test]
fn test_direct_hit_damage_formula() {
    let mut attacker = armed("Attacker", 50, 10);
    let mut defender = Combatant::new("Defender".to_string());

    attacker.stats.strength = 5;
    let damage = battle::calculate_damage(&AttackResult::DirectHit, &attacker, &defender);
    assert_eq!(Some(15), damage);

    defender.stats.defense = 7;
    let damage = battle::calculate_damage(&AttackResult::DirectHit, &attacker, &defender);
    assert_eq!(Some(8), damage);

    // No clamping: damage may be negative.
    defender.stats.defense = 20;
    let damage = battle::calculate_damage(&AttackResult::DirectHit, &attacker, &defender);
    assert_eq!(Some(-5), damage);
}

#[test]
fn test_glancing_blow_damage_truncates_toward_zero() {
    let attacker = armed("Attacker", 50, 5);
    let defender = Combatant::new("Defender".to_string());

    let damage = battle::calculate_damage(&AttackResult::GlancingBlow, &attacker, &defender);
    assert_eq!(Some(2), damage);
}

#[test]
fn test_negative_glancing_blow_damage_truncates_toward_zero() {
    let mut attacker = armed("Attacker", 50, 0);
    let defender = Combatant::new("Defender".to_string());

    attacker.stats.strength = -5;
    let damage = battle::calculate_damage(&AttackResult::GlancingBlow, &attacker, &defender);
    assert_eq!(Some(-2), damage);
}

#[test]
fn test_miss_and_no_weapon_deal_no_damage() {
    let attacker = armed("Attacker", 50, 10);
    let defender = Combatant::new("Defender".to_string());

    let damage = battle::calculate_damage(&AttackResult::Miss, &attacker, &defender);
    assert_eq!(None, damage);

    let damage = battle::calculate_damage(&AttackResult::NoWeapon, &attacker, &defender);
    assert_eq!(None, damage);
}

#[test]
fn test_unarmed_attacker_resolves_to_no_weapon() {
    let mut attacker = Combatant::new("Attacker".to_string());
    attacker.stats.accuracy = 1000;
    attacker.stats.strength = 1000;
    let defender = Combatant::new("Defender".to_string());

    for dice_roll in [1, 50, 100] {
        let result = battle::resolve_attack(dice_roll, &attacker, &defender);
        assert_eq!(AttackResult::NoWeapon, result);
        let damage = battle::calculate_damage(&result, &attacker, &defender);
        assert_eq!(None, damage);
    }
}
