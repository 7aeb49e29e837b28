//! This module specifies the [`Weapon`] type.

use vstd::prelude::*;

verus! {

/// A representation of a weapon used in combat.
///
/// A weapon is immutable after construction and is owned outright by the
/// combatant that equips it.
pub struct Weapon {
    /// The name used to refer to the weapon in text.
    pub name: String,
    /// The base frequency with which this weapon hits, compared to a roll
    /// from 1 through 100.
    pub hit_rate: i32,
    /// The base amount of damage this weapon deals on a direct hit.
    pub damage: i32,
}

impl Weapon {
    /// Constructs a weapon with the given parameters.
    ///
    /// No validation is performed on ranges: hit rates or damage values
    /// outside any expected bound are accepted as given.
    pub fn new(name: String, hit_rate: i32, damage: i32) -> (weapon: Weapon)
        ensures
            weapon.name == name,
            weapon.hit_rate == hit_rate,
            weapon.damage == damage,
    {
        Weapon { name, hit_rate, damage }
    }
}

} // verus!
