//! This module contains a set of functions for determining the outcome
//! of battle.

use vstd::prelude::*;

use crate::combatant::Combatant;

verus! {

/// A list specifying possible results of an attempted attack.
#[derive(PartialEq, Eq, Structural, Debug)]
pub enum AttackResult {
    /// The attack will deal maximum damage.
    DirectHit,
    /// The attack will deal half damage.
    GlancingBlow,
    /// The attacker missed and dealt no damage.
    Miss,
    /// The attacker doesn't have a weapon to attack with.
    NoWeapon,
}

/// The chance of the attacker hitting the defender: the wielded weapon's hit
/// rate, raised by the attacker's accuracy and lowered by the defender's
/// evasion. Meaningful only when the attacker wields a weapon.
///
/// The value is deliberately not clamped to `[0, 100]`: against a die roll
/// bounded to `[1, 100]`, a hit rate of 100 or more guarantees a direct hit
/// and one at or below 0 guarantees a glancing blow.
pub open spec fn spec_hit_rate(attacker: Combatant, defender: Combatant) -> int
    recommends
        attacker.current_weapon is Some,
{
    attacker.current_weapon->0.hit_rate + attacker.stats.accuracy - defender.stats.evasion
}

/// Whether the hit-rate arithmetic, performed step by step on 32-bit
/// integers exactly as [`calculate_hit_rate`] performs it, stays in bounds.
/// Trivially true for an unarmed attacker.
pub open spec fn hit_rate_fits(attacker: Combatant, defender: Combatant) -> bool {
    attacker.current_weapon matches Some(weapon) ==> {
        &&& i32::MIN <= weapon.hit_rate + attacker.stats.accuracy <= i32::MAX
        &&& i32::MIN <= spec_hit_rate(attacker, defender) <= i32::MAX
    }
}

/// The categorical outcome of one attack attempt: `NoWeapon` for an unarmed
/// attacker, otherwise `DirectHit` when the die roll is at or below the hit
/// rate ("if you meet it, you beat it") and `GlancingBlow` when it is above.
pub open spec fn spec_resolve_attack(dice_roll: i32, attacker: Combatant, defender: Combatant) -> AttackResult {
    if attacker.current_weapon is None {
        AttackResult::NoWeapon
    } else if dice_roll <= spec_hit_rate(attacker, defender) {
        AttackResult::DirectHit
    } else {
        AttackResult::GlancingBlow
    }
}

/// The base damage of an attack: the wielded weapon's damage, raised by the
/// attacker's strength and lowered by the defender's defense. Meaningful only
/// when the attacker wields a weapon. Deliberately not clamped: a negative
/// base damage is a valid (healing) outcome.
pub open spec fn spec_base_damage(attacker: Combatant, defender: Combatant) -> int
    recommends
        attacker.current_weapon is Some,
{
    attacker.current_weapon->0.damage + attacker.stats.strength - defender.stats.defense
}

/// Whether the base-damage arithmetic, performed step by step on 32-bit
/// integers exactly as [`calculate_damage`] performs it, stays in bounds.
/// Trivially true for an unarmed attacker.
pub open spec fn base_damage_fits(attacker: Combatant, defender: Combatant) -> bool {
    attacker.current_weapon matches Some(weapon) ==> {
        &&& i32::MIN <= weapon.damage + attacker.stats.strength <= i32::MAX
        &&& i32::MIN <= spec_base_damage(attacker, defender) <= i32::MAX
    }
}

/// Half of the given value, truncated toward zero. This is the exact rule for
/// glancing-blow damage: `-5` halves to `-2`, not to `-3`.
pub open spec fn truncate_half(value: int) -> int {
    if value >= 0 {
        value / 2
    } else {
        -((-value) / 2)
    }
}

/// The damage dealt by an attack with the given outcome: the full base damage
/// on a direct hit, half of it (truncated toward zero) on a glancing blow,
/// and no value at all on a miss or for an unarmed attacker.
pub open spec fn spec_calculate_damage(
    attack_result: AttackResult,
    attacker: Combatant,
    defender: Combatant,
) -> Option<int> {
    match attack_result {
        AttackResult::Miss => None,
        AttackResult::NoWeapon => None,
        AttackResult::DirectHit => match attacker.current_weapon {
            None => None,
            Some(_) => Some(spec_base_damage(attacker, defender)),
        },
        AttackResult::GlancingBlow => match attacker.current_weapon {
            None => None,
            Some(_) => Some(truncate_half(spec_base_damage(attacker, defender))),
        },
    }
}

/// Resolves the result of an attack based on a dice roll and the stats of an
/// attacker and defender. The provided die roll is compared with a hit rate
/// provided by [`calculate_hit_rate`].
///
/// The dice roll is usually assumed to be between 1 and 100 inclusive: a low
/// roll is more likely to provide a direct hit, a high roll a glancing blow,
/// and a roll equal to the hit rate is a direct hit. If the given attacker is
/// not wielding a weapon, the attack has no effect and the result is
/// [`AttackResult::NoWeapon`].
pub fn resolve_attack(dice_roll: i32, attacker: &Combatant, defender: &Combatant) -> (result: AttackResult)
    requires
        hit_rate_fits(*attacker, *defender),
    ensures
        result == spec_resolve_attack(dice_roll, *attacker, *defender),
{
    if attacker.current_weapon().is_none() {
        return AttackResult::NoWeapon;
    }

    let hit_rate = match calculate_hit_rate(attacker, defender) {
        None => return AttackResult::Miss,  // Automatic miss
        Some(hit_rate) => hit_rate,
    };

    if dice_roll <= hit_rate {
        AttackResult::DirectHit
    } else {
        AttackResult::GlancingBlow
    }
}

/// Calculates the chance of the attacker hitting the defender with an attack
/// using their currently-wielded weapon, or no value when the attacker is
/// unarmed.
///
/// A higher weapon hit rate or attacker accuracy raises the result; a higher
/// defender evasion lowers it. The result is not clamped to `[0, 100]`.
pub fn calculate_hit_rate(attacker: &Combatant, defender: &Combatant) -> (hit_rate: Option<i32>)
    requires
        hit_rate_fits(*attacker, *defender),
    ensures
        hit_rate is Some <==> attacker.current_weapon is Some,
        hit_rate matches Some(rate) ==> rate == spec_hit_rate(*attacker, *defender),
{
    let mut hit_rate = match attacker.current_weapon() {
        None => return None,
        Some(weapon) => weapon.hit_rate,
    };

    // Attacker accuracy
    hit_rate += attacker.stats.accuracy;

    // Defender evasion
    hit_rate -= defender.stats.evasion;

    Some(hit_rate)
}

/// Calculates the damage of an attack based on the attack result and the
/// stats of the attacker and defender.
///
/// [`AttackResult::DirectHit`] deals the full base damage and
/// [`AttackResult::GlancingBlow`] half of it, truncated toward zero;
/// [`AttackResult::Miss`] and [`AttackResult::NoWeapon`] deal no value at
/// all. A higher weapon damage or attacker strength raises the result; a
/// higher defender defense lowers it.
pub fn calculate_damage(attack_result: &AttackResult, attacker: &Combatant, defender: &Combatant) -> (damage: Option<i32>)
    requires
        (*attack_result is DirectHit || *attack_result is GlancingBlow) ==> base_damage_fits(
            *attacker,
            *defender,
        ),
    ensures
        damage is Some <==> spec_calculate_damage(*attack_result, *attacker, *defender) is Some,
        damage matches Some(amount) ==> spec_calculate_damage(*attack_result, *attacker, *defender)
            == Some(amount as int),
{
    // Attack effectiveness multiplier
    let halve = match attack_result {
        AttackResult::Miss => return None,
        AttackResult::NoWeapon => return None,
        AttackResult::DirectHit => false,
        AttackResult::GlancingBlow => true,
    };

    // Calculate base damage
    let mut damage = match attacker.current_weapon() {
        None => return None,
        Some(weapon) => weapon.damage,
    };
    damage += attacker.stats.strength;
    damage -= defender.stats.defense;

    // Multiplier
    let damage = if halve {
        damage.checked_div(2).unwrap()
    } else {
        damage
    };

    Some(damage)
}

/// A hit rate of at least 100 guarantees a direct hit for every die roll in
/// `[1, 100]`.
pub proof fn lemma_high_hit_rate_guarantees_direct_hit(dice_roll: i32, attacker: Combatant, defender: Combatant)
    requires
        attacker.current_weapon is Some,
        spec_hit_rate(attacker, defender) >= 100,
        1 <= dice_roll <= 100,
    ensures
        spec_resolve_attack(dice_roll, attacker, defender) == AttackResult::DirectHit,
{
}

/// A hit rate at or below 0 guarantees a glancing blow for every die roll in
/// `[1, 100]`, since the minimum roll of 1 already exceeds the hit rate.
pub proof fn lemma_low_hit_rate_guarantees_glancing_blow(dice_roll: i32, attacker: Combatant, defender: Combatant)
    requires
        attacker.current_weapon is Some,
        spec_hit_rate(attacker, defender) <= 0,
        1 <= dice_roll <= 100,
    ensures
        spec_resolve_attack(dice_roll, attacker, defender) == AttackResult::GlancingBlow,
{
}

/// Ties favor the attacker: a die roll equal to the hit rate is a direct hit.
pub proof fn lemma_roll_meeting_hit_rate_is_direct_hit(dice_roll: i32, attacker: Combatant, defender: Combatant)
    requires
        attacker.current_weapon is Some,
        dice_roll == spec_hit_rate(attacker, defender),
    ensures
        spec_resolve_attack(dice_roll, attacker, defender) == AttackResult::DirectHit,
{
}

/// A direct hit deals exactly the base damage: weapon damage plus attacker
/// strength minus defender defense, with no truncation effect.
pub proof fn lemma_direct_hit_damage_is_exact(attacker: Combatant, defender: Combatant)
    requires
        attacker.current_weapon is Some,
    ensures
        spec_calculate_damage(AttackResult::DirectHit, attacker, defender) == Some(
            spec_base_damage(attacker, defender),
        ),
{
}

/// A glancing blow deals exactly half the base damage, truncated toward zero.
pub proof fn lemma_glancing_blow_damage_is_halved(attacker: Combatant, defender: Combatant)
    requires
        attacker.current_weapon is Some,
    ensures
        spec_calculate_damage(AttackResult::GlancingBlow, attacker, defender) == Some(
            truncate_half(spec_base_damage(attacker, defender)),
        ),
{
}

/// A miss or an unarmed attack deals no damage value at all, whatever the
/// stats of the two combatants.
pub proof fn lemma_no_damage_without_hit(attack_result: AttackResult, attacker: Combatant, defender: Combatant)
    requires
        attack_result is Miss || attack_result is NoWeapon,
    ensures
        spec_calculate_damage(attack_result, attacker, defender) is None,
{
}

/// A combatant with no equipped weapon always resolves to `NoWeapon`, and the
/// attack deals no damage value, regardless of die roll or stats.
pub proof fn lemma_unarmed_attacker_never_connects(dice_roll: i32, attacker: Combatant, defender: Combatant)
    requires
        attacker.current_weapon is None,
    ensures
        spec_resolve_attack(dice_roll, attacker, defender) == AttackResult::NoWeapon,
        spec_calculate_damage(
            spec_resolve_attack(dice_roll, attacker, defender),
            attacker,
            defender,
        ) is None,
{
}

} // verus!
