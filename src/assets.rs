//! Identifiers of the visual assets a spawned spell asks the presentation
//! layer for, and the team a projectile fights for.

use vstd::prelude::*;

verus! {

/// Particle effect attached to a spawned spell.
#[derive(Clone, Copy, Debug, PartialEq, Eq, Hash, Structural)]
pub enum ParticleAsset {
    Zap,
    Bang,
    ArcaneArrow,
    SplitterBolts,
    Enemy,
}

/// Sprite of a spawned spell.
#[derive(Clone, Copy, Debug, PartialEq, Eq, Hash, Structural)]
pub enum SpellGFXAsset {
    Zap,
    ArcaneArrow,
    SplitterBolts,
    Enemy,
}

/// How a spawned spell is drawn.
#[derive(Clone, Copy, Debug, PartialEq, Eq, Structural)]
pub enum SpellModel {
    Hidden,
    StaticSprite(SpellGFXAsset),
}

/// The side a projectile belongs to; it never damages its own side.
#[derive(Clone, Copy, Debug, PartialEq, Eq, Hash, Structural)]
pub enum ProjectileTeam {
    Player,
    Enemy,
}

} // verus!
