//! A turn-based combat resolution engine.
//!
//! Given an attacker, a defender, and a die roll, the library determines
//! whether an attack connects, how hard, and how that damage affects a
//! target's vitality. The combat core is pure: the data model lives in
//! [`weapon`] and [`combatant`], the resolution algorithm in [`battle`],
//! and the turn sequencing in [`combat`]. The remaining modules hold the
//! narrow value contracts at the platform boundary (rendering, asset
//! loading, input) that a front end implements.

pub mod app;
pub mod battle;
pub mod combat;
pub mod combatant;
pub mod input;
pub mod io;
pub mod render;
pub mod service;
pub mod weapon;
