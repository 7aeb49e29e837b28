//! This module specifies the [`Combatant`] type, as well as [`CombatStats`]
//! and [`Health`] for use by it.

use vstd::prelude::*;

use crate::weapon::Weapon;

verus! {

/// A representation of a character that might participate in combat.
pub struct Combatant {
    /// The combatant's name, used to refer to them in text.
    pub name: String,
    /// Combat statistics.
    pub stats: CombatStats,
    /// How much damage they can take before being defeated.
    pub health: Health,
    /// The weapon the combatant currently wields, if any. Prefer the
    /// [`Combatant::current_weapon`] and [`Combatant::give_weapon`] methods
    /// over touching this field directly.
    pub current_weapon: Option<Weapon>,
}

impl Combatant {
    /// The same combatant with its health replaced; name, stats, and weapon
    /// are kept.
    pub open spec fn spec_with_health(self, health: Health) -> Combatant {
        Combatant { health, ..self }
    }

    /// Initializes a combatant with health of 10 and default stats of all 0.
    pub fn new(name: String) -> (combatant: Combatant)
        ensures
            combatant.name == name,
            combatant.stats == (CombatStats { accuracy: 0, evasion: 0, strength: 0, defense: 0 }),
            combatant.health.spec_current() == 10,
            combatant.health.spec_max() == 10,
            combatant.current_weapon is None,
    {
        Combatant {
            name,
            stats: CombatStats::new(),
            health: Health::new(10),
            current_weapon: None,
        }
    }

    /// Borrows a reference to the combatant's current weapon.
    pub fn current_weapon(&self) -> (weapon: &Option<Weapon>)
        ensures
            *weapon == self.current_weapon,
    {
        &self.current_weapon
    }

    /// The combatant takes ownership of the given weapon and equips it as
    /// their current weapon. Any previously held weapon is dropped.
    pub fn give_weapon(&mut self, weapon: Weapon)
        ensures
            final(self).current_weapon == Some(weapon),
            final(self).name == old(self).name,
            final(self).stats == old(self).stats,
            final(self).health == old(self).health,
    {
        self.current_weapon = Some(weapon);
    }
}

/// A set of stats used in calculating combat values.
///
/// Every field may hold any integer, including a negative one; the stats are
/// purely additive or subtractive inputs to the battle formulas.
pub struct CombatStats {
    /// Affects how likely they are to direct-hit with an attack.
    pub accuracy: i32,
    /// Affects how likely they are to avoid suffering a direct hit.
    pub evasion: i32,
    /// Affects how much damage their attacks deal.
    pub strength: i32,
    /// Affects how much they can reduce the damage they take.
    pub defense: i32,
}

impl CombatStats {
    /// Initialize a set of combat stats with all `0` values.
    pub fn new() -> (stats: CombatStats)
        ensures
            stats == (CombatStats { accuracy: 0, evasion: 0, strength: 0, defense: 0 }),
    {
        CombatStats {
            accuracy: 0,
            evasion: 0,
            strength: 0,
            defense: 0,
        }
    }
}

impl Default for CombatStats {
    fn default() -> (stats: CombatStats)
        ensures
            stats == (CombatStats { accuracy: 0, evasion: 0, strength: 0, defense: 0 }),
    {
        CombatStats::new()
    }
}

/// Enum specifying general health states.
#[derive(PartialEq, Eq, Structural, Clone, Copy, Debug)]
pub enum HealthStatus {
    /// The subject has its maximum health.
    Healthy,
    /// The subject has less than its maximum health.
    Hurt,
    /// The subject has 0 health.
    Defeated,
}

/// An integer clamped to the range `[0, max]`.
pub open spec fn clamped_to(value: int, max: int) -> int {
    if value < 0 {
        0
    } else if value > max {
        max
    } else {
        value
    }
}

/// A creature's vitality, as represented by an integer.
///
/// Health is bound between `0` and a maximum value: every mutation clamps the
/// current value back into that range rather than erroring. Most functions
/// which alter health also return a [`HealthStatus`] to gauge current health
/// relative to the maximum.
pub struct Health {
    /// The current health, between `0` and `max` whenever the value is
    /// well-formed. Prefer the [`Health::current`] and [`Health::damage`]
    /// methods over touching this field directly.
    pub current: i32,
    /// The bound the current health is clamped to.
    pub max: i32,
}

impl Health {
    /// The current health, as seen by specifications.
    pub open spec fn spec_current(&self) -> int {
        self.current as int
    }

    /// The maximum health, as seen by specifications.
    pub open spec fn spec_max(&self) -> int {
        self.max as int
    }

    /// The invariant every mutation re-establishes: the current value lies
    /// between zero and the maximum.
    pub open spec fn wf(&self) -> bool {
        0 <= self.spec_current() <= self.spec_max()
    }

    /// The derived classification, never stored: `Healthy` at the maximum,
    /// `Defeated` at or below zero, `Hurt` in between.
    pub open spec fn spec_status(&self) -> HealthStatus {
        if self.spec_current() >= self.spec_max() {
            HealthStatus::Healthy
        } else if self.spec_current() <= 0 {
            HealthStatus::Defeated
        } else {
            HealthStatus::Hurt
        }
    }

    /// The health value left after taking the given amount of damage: the
    /// subtraction is exact, then clamped to `[0, max]`. A negative amount
    /// heals, which is permitted and likewise clamped.
    pub open spec fn spec_after_damage(self, amount: int) -> Health {
        Health {
            current: clamped_to(self.spec_current() - amount, self.spec_max()) as i32,
            max: self.max,
        }
    }

    /// Construct a new `Health` object, with a maximum and current value of
    /// the given value.
    pub fn new(max: i32) -> (health: Health)
        ensures
            health.spec_current() == max,
            health.spec_max() == max,
            max >= 0 ==> health.wf(),
            max >= 0 ==> health.spec_status() == HealthStatus::Healthy,
    {
        Health { current: max, max }
    }

    /// Returns the current health.
    pub fn current(&self) -> (current: i32)
        ensures
            current == self.spec_current(),
    {
        self.current
    }

    /// Returns the maximum health.
    pub fn max(&self) -> (max: i32)
        ensures
            max == self.spec_max(),
    {
        self.max
    }

    /// Reduces the current health by the given amount, clamps the result to
    /// `[0, max]`, then returns the resulting health status.
    ///
    /// Whatever the amount's magnitude or sign, the current value never
    /// leaves `[0, max]`.
    pub fn damage(&mut self, amount: i32) -> (status: HealthStatus)
        requires
            old(self).spec_max() >= 0,
        ensures
            *final(self) == old(self).spec_after_damage(amount as int),
            final(self).spec_current() == clamped_to(
                old(self).spec_current() - amount,
                old(self).spec_max(),
            ),
            final(self).spec_max() == old(self).spec_max(),
            final(self).wf(),
            status == final(self).spec_status(),
    {
        let next: i64 = self.current as i64 - amount as i64;
        let max64: i64 = self.max as i64;
        let clamped: i64 = if next < 0 {
            0
        } else if next > max64 {
            max64
        } else {
            next
        };
        self.current = clamped as i32;
        self.check_status()
    }

    /// Return a `HealthStatus` based on the current health compared to
    /// the maximum.
    ///
    /// The status is `Healthy` when the current health is at its maximum
    /// value, `Hurt` when it is between 0 and the maximum, and `Defeated` if
    /// it's at 0.
    pub fn check_status(&self) -> (status: HealthStatus)
        ensures
            status == self.spec_status(),
    {
        if self.current >= self.max {
            return HealthStatus::Healthy;
        } else if self.current <= 0 {
            return HealthStatus::Defeated;
        }
        HealthStatus::Hurt
    }
}

/// Damage at least as large as the maximum health always empties the health
/// bar and defeats its owner, from any starting value within bounds.
pub proof fn lemma_overwhelming_damage_defeats(health: Health, amount: int)
    requires
        health.wf(),
        health.spec_max() > 0,
        amount >= health.spec_max(),
    ensures
        health.spec_after_damage(amount).spec_current() == 0,
        health.spec_after_damage(amount).spec_status() == HealthStatus::Defeated,
{
}

} // verus!
