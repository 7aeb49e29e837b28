use druid_game::battle::AttackResult;
use druid_game::combat;
use druid_game::combatant::Combatant;
use druid_game::combatant::HealthStatus;
use druid_game::weapon::Weapon;

fn longsword_wielder(name: &str) -> Combatant {
    let mut combatant = Combatant::new(name.to_string());
    combatant.give_weapon(Weapon::new("Longsword".to_string(), 70, 8));
    combatant
}

#[test]
fn test_take_turn_direct_hit() {
    let attacker = longsword_wielder("Alice");
    let mut defender = longsword_wielder("Vim");

    let record = combat::take_turn(50, &attacker, &mut defender);
    assert_eq!("Alice", record.attacker);
    assert_eq!("Vim", record.defender);
    assert_eq!(AttackResult::DirectHit, record.attack_result);
    assert_eq!(Some(8), record.damage);
    assert_eq!(HealthStatus::Hurt, record.defender_status);
    assert_eq!(2, defender.health.current());
}

#[test]
fn test_take_turn_without_weapon_changes_nothing() {
    let attacker = Combatant::new("Alice".to_string());
    let mut defender = longsword_wielder("Vim");

    let record = combat::take_turn(50, &attacker, &mut defender);
    assert_eq!(AttackResult::NoWeapon, record.attack_result);
    assert_eq!(None, record.damage);
    assert_eq!(HealthStatus::Healthy, record.defender_status);
    assert_eq!(10, defender.health.current());
}

#[test]
fn test_battle_halts_when_a_combatant_is_defeated() {
    let alice = longsword_wielder("Alice");
    let vim = longsword_wielder("Vim");
    let rolls = vec![50; 10];

    let (records, next_attacker, next_defender) = combat::run_battle(alice, vim, &rolls);

    // Alice strikes Vim for 8, Vim strikes back for 8, and Alice's second
    // strike defeats Vim: the remaining rolls go unused.
    assert_eq!(3, records.len());

    assert_eq!("Alice", records[0].attacker);
    assert_eq!("Vim", records[0].defender);
    assert_eq!(AttackResult::DirectHit, records[0].attack_result);
    assert_eq!(Some(8), records[0].damage);
    assert_eq!(HealthStatus::Hurt, records[0].defender_status);

    assert_eq!("Vim", records[1].attacker);
    assert_eq!("Alice", records[1].defender);
    assert_eq!(Some(8), records[1].damage);

    assert_eq!("Alice", records[2].attacker);
    assert_eq!("Vim", records[2].defender);
    assert_eq!(HealthStatus::Defeated, records[2].defender_status);

    assert_eq!("Vim", next_attacker.name);
    assert_eq!(0, next_attacker.health.current());
    assert_eq!("Alice", next_defender.name);
    assert_eq!(2, next_defender.health.current());
}

#[test]
fn test_battle_consumes_every_roll_without_a_defeat() {
    let alice = Combatant::new("Alice".to_string());
    let vim = Combatant::new("Vim".to_string());
    let rolls = vec![50, 60, 70];

    let (records, _, _) = combat::run_battle(alice, vim, &rolls);

    assert_eq!(3, records.len());
    for record in &records {
        assert_eq!(AttackResult::NoWeapon, record.attack_result);
        assert_eq!(None, record.damage);
        assert_eq!(HealthStatus::Healthy, record.defender_status);
    }
}

#[test]
fn test_battle_with_no_rolls_takes_no_turns() {
    let alice = longsword_wielder("Alice");
    let vim = longsword_wielder("Vim");
    let rolls: Vec<i32> = Vec::new();

    let (records, next_attacker, next_defender) = combat::run_battle(alice, vim, &rolls);
    assert_eq!(0, records.len());
    assert_eq!("Alice", next_attacker.name);
    assert_eq!("Vim", next_defender.name);
}

#[test]
fn test_glancing_battle_roll() {
    let mut alice = Combatant::new("Alice".to_string());
    alice.give_weapon(Weapon::new("Longsword".to_string(), 50, 10));
    let mut vim = Combatant::new("Vim".to_string());

    let record = combat::take_turn(60, &alice, &mut vim);
    assert_eq!(AttackResult::GlancingBlow, record.attack_result);
    assert_eq!(Some(5), record.damage);
    assert_eq!(HealthStatus::Hurt, record.defender_status);
    assert_eq!(5, vim.health.current());
}
