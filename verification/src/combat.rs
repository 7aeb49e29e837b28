//! The turn orchestrator: drives repeated attacker/defender exchanges using
//! the battle resolver, applying each result to the defender's health, until
//! the die rolls run out or a combatant is defeated.

use vstd::prelude::*;

use crate::battle::base_damage_fits;
use crate::battle::hit_rate_fits;
use crate::battle::spec_calculate_damage;
use crate::battle::spec_resolve_attack;
use crate::battle::AttackResult;
use crate::battle::calculate_damage;
use crate::battle::resolve_attack;
use crate::combatant::Combatant;
use crate::combatant::HealthStatus;

verus! {

/// An observable record of one turn: who struck whom, how the attack
/// resolved, the damage dealt if any, and the defender's resulting health
/// status. The record is advisory output for a presentation layer and is
/// never consumed back into combat logic.
pub struct TurnRecord {
    /// The name of the combatant that attacked.
    pub attacker: String,
    /// The name of the combatant that was attacked.
    pub defender: String,
    /// How the attack resolved.
    pub attack_result: AttackResult,
    /// The damage applied to the defender, or no value when the attack had
    /// no effect.
    pub damage: Option<i32>,
    /// The defender's health status once the damage, if any, was applied.
    pub defender_status: HealthStatus,
}

/// The damage value one turn applies to the defender: the damage of the
/// attack outcome that the die roll resolves to.
pub open spec fn spec_turn_damage(dice_roll: i32, attacker: Combatant, defender: Combatant) -> Option<int> {
    spec_calculate_damage(spec_resolve_attack(dice_roll, attacker, defender), attacker, defender)
}

/// The defender as one turn leaves them: unchanged when the attack had no
/// effect, otherwise with the turn's damage applied to their health.
pub open spec fn spec_defender_after_turn(dice_roll: i32, attacker: Combatant, defender: Combatant) -> Combatant {
    match spec_turn_damage(dice_roll, attacker, defender) {
        None => defender,
        Some(amount) => defender.spec_with_health(defender.health.spec_after_damage(amount)),
    }
}

/// The record one turn emits.
pub open spec fn spec_turn_record(dice_roll: i32, attacker: Combatant, defender: Combatant) -> TurnRecord {
    TurnRecord {
        attacker: attacker.name,
        defender: defender.name,
        attack_result: spec_resolve_attack(dice_roll, attacker, defender),
        damage: match spec_turn_damage(dice_roll, attacker, defender) {
            None => None,
            Some(amount) => Some(amount as i32),
        },
        defender_status: spec_defender_after_turn(dice_roll, attacker, defender).health.spec_status(),
    }
}

/// Whether the battle arithmetic between these two combatants stays within
/// 32-bit bounds in both directions, and both healths have a well-formed
/// maximum. Health is the only thing a battle changes, so this holds for a
/// whole battle as soon as it holds at its start.
pub open spec fn battle_fits(first: Combatant, second: Combatant) -> bool {
    &&& hit_rate_fits(first, second)
    &&& base_damage_fits(first, second)
    &&& hit_rate_fits(second, first)
    &&& base_damage_fits(second, first)
    &&& first.health.spec_max() >= 0
    &&& second.health.spec_max() >= 0
}

/// The records and final combatants of a whole battle: the attacker and
/// defender exchange roles after every turn, consuming one die roll per
/// turn, until the rolls run out or either combatant is defeated. The two
/// combatants are returned in next-attacker, next-defender order.
pub open spec fn spec_battle(attacker: Combatant, defender: Combatant, rolls: Seq<i32>) -> (Seq<
    TurnRecord,
>, Combatant, Combatant)
    decreases rolls.len(),
{
    if rolls.len() == 0 || attacker.health.spec_status() is Defeated
        || defender.health.spec_status() is Defeated {
        (Seq::<TurnRecord>::empty(), attacker, defender)
    } else {
        let record = spec_turn_record(rolls[0], attacker, defender);
        let survivor = spec_defender_after_turn(rolls[0], attacker, defender);
        let rest = spec_battle(survivor, attacker, rolls.skip(1));
        (seq![record] + rest.0, rest.1, rest.2)
    }
}

/// Executes one turn: resolves the attack for the given die roll, applies
/// the resulting damage (if any) to the defender's health, and returns the
/// observable record of the turn. The attacker is never changed by its own
/// turn.
pub fn take_turn(dice_roll: i32, attacker: &Combatant, defender: &mut Combatant) -> (record: TurnRecord)
    requires
        hit_rate_fits(*attacker, *old(defender)),
        base_damage_fits(*attacker, *old(defender)),
        old(defender).health.spec_max() >= 0,
    ensures
        record == spec_turn_record(dice_roll, *attacker, *old(defender)),
        *final(defender) == spec_defender_after_turn(dice_roll, *attacker, *old(defender)),
        final(defender).name == old(defender).name,
        final(defender).stats == old(defender).stats,
        final(defender).current_weapon == old(defender).current_weapon,
        final(defender).health.spec_max() == old(defender).health.spec_max(),
{
    let attack_result = resolve_attack(dice_roll, attacker, &*defender);
    let damage = calculate_damage(&attack_result, attacker, &*defender);
    let defender_status = match damage {
        None => defender.health.check_status(),
        Some(amount) => defender.health.damage(amount),
    };
    TurnRecord {
        attacker: attacker.name.clone(),
        defender: defender.name.clone(),
        attack_result,
        damage,
        defender_status,
    }
}

/// Whether the combatant's health status is `Defeated`.
fn is_defeated(combatant: &Combatant) -> (defeated: bool)
    ensures
        defeated == (combatant.health.spec_status() is Defeated),
{
    matches!(combatant.health.check_status(), HealthStatus::Defeated)
}

/// Runs a whole battle: the first combatant strikes first, the roles swap
/// after every turn, and one die roll is consumed per turn. The battle halts
/// as soon as the rolls run out or either combatant's health status is
/// `Defeated`, and returns the per-turn records together with the two
/// combatants in next-attacker, next-defender order.
pub fn run_battle(attacker: Combatant, defender: Combatant, rolls: &Vec<i32>) -> (outcome: (
    Vec<TurnRecord>,
    Combatant,
    Combatant,
))
    requires
        battle_fits(attacker, defender),
    ensures
        outcome.0@ == spec_battle(attacker, defender, rolls@).0,
        outcome.1 == spec_battle(attacker, defender, rolls@).1,
        outcome.2 == spec_battle(attacker, defender, rolls@).2,
{
    let ghost initial_attacker = attacker;
    let ghost initial_defender = defender;
    let mut current_attacker = attacker;
    let mut current_defender = defender;
    let mut records: Vec<TurnRecord> = Vec::new();
    let mut i: usize = 0;
    proof {
        assert(rolls@.skip(0) =~= rolls@);
        assert(Seq::<TurnRecord>::empty() + spec_battle(initial_attacker, initial_defender, rolls@).0
            =~= spec_battle(initial_attacker, initial_defender, rolls@).0);
    }
    while i < rolls.len() && !is_defeated(&current_attacker) && !is_defeated(&current_defender)
        invariant
            i <= rolls.len(),
            battle_fits(current_attacker, current_defender),
            spec_battle(initial_attacker, initial_defender, rolls@).0 == records@ + spec_battle(
                current_attacker,
                current_defender,
                rolls@.skip(i as int),
            ).0,
            spec_battle(initial_attacker, initial_defender, rolls@).1 == spec_battle(
                current_attacker,
                current_defender,
                rolls@.skip(i as int),
            ).1,
            spec_battle(initial_attacker, initial_defender, rolls@).2 == spec_battle(
                current_attacker,
                current_defender,
                rolls@.skip(i as int),
            ).2,
        decreases rolls.len() - i,
    {
        let ghost pre_attacker = current_attacker;
        let ghost pre_defender = current_defender;
        let ghost pre_records = records@;
        let ghost remaining = rolls@.skip(i as int);
        let record = take_turn(rolls[i], &current_attacker, &mut current_defender);
        records.push(record);
        proof {
            assert(remaining[0] == rolls@[i as int]);
            assert(remaining.skip(1) =~= rolls@.skip(i as int + 1));
            let step = spec_turn_record(remaining[0], pre_attacker, pre_defender);
            let rest = spec_battle(
                spec_defender_after_turn(remaining[0], pre_attacker, pre_defender),
                pre_attacker,
                remaining.skip(1),
            );
            assert(spec_battle(pre_attacker, pre_defender, remaining).0 == seq![step] + rest.0);
            assert(pre_records + (seq![step] + rest.0) =~= pre_records.push(step) + rest.0);
        }
        let swap_temp = current_attacker;
        current_attacker = current_defender;
        current_defender = swap_temp;
        i += 1;
    }
    proof {
        assert(spec_battle(current_attacker, current_defender, rolls@.skip(i as int)).0
            == Seq::<TurnRecord>::empty());
        assert(records@ + Seq::<TurnRecord>::empty() =~= records@);
    }
    (records, current_attacker, current_defender)
}

} // verus!
