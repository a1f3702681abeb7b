//! Spell composition and casting: loadouts of spell descriptors are compiled
//! into behaviour trees, behaviours are cast through a persistent chain of
//! projectile modifiers, and casters pace the firing of compiled behaviours.

pub mod numeric;
pub mod assets;
pub mod projectile;
pub mod modifier;
pub mod spell;
pub mod effect;
pub mod casting;
pub mod timer;
pub mod caster;
pub mod triggers;
pub mod collision;
pub mod storage;
