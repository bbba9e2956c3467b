//! The rules of an active-time-battle role-playing game: combatants and
//! their numbers, the party, the spell, enemy and hero libraries, the
//! battle menus, turns, damage, the end of a battle and what a victory
//! earns.

pub mod stats;
pub mod combat;
pub mod spells;
pub mod text;
pub mod input;
pub mod menu;
pub mod party;
pub mod battle_system;
pub mod rewards;
pub mod laws;
