//! What a spawned projectile carries, as plain values.

use std::sync::Arc;
use vstd::prelude::*;
use vstd::string::StringExecFns;

use crate::assets::ProjectileTeam;
use crate::effect::{trees_of, SpellEffect};
use crate::spell::SpellTree;

verus! {

/// What a homing projectile steers towards.
#[derive(Clone, Copy, Debug, PartialEq, Eq, Structural)]
pub enum HomingTarget {
    ClosestEnemy,
    PlayerOrbit,
}

/// Display name of a homing target.
pub open spec fn homing_target_name(t: HomingTarget) -> Seq<char> {
    match t {
        HomingTarget::ClosestEnemy => "Enemies"@,
        HomingTarget::PlayerOrbit => "Player"@,
    }
}

impl HomingTarget {
    pub fn get_name(&self) -> (r: String)
        ensures
            r@ == homing_target_name(*self),
    {
        match self {
            HomingTarget::ClosestEnemy => String::from_str("Enemies"),
            HomingTarget::PlayerOrbit => String::from_str("Player"),
        }
    }
}

/// Steering attached to a projectile by a homing modifier.
#[derive(Clone, Copy, Debug, PartialEq, Eq, Structural)]
pub struct HomingComponent {
    /// Blend rate towards the target, in thousandths.
    pub rate: u64,
    /// Search radius.
    pub range: u64,
    pub target: HomingTarget,
}

/// Numbers a leaf behaviour spawns its projectile with.
#[derive(Clone, Copy, Debug, PartialEq, Eq, Structural)]
pub struct ProjectileStats {
    pub radius: u64,
    pub speed: u64,
    /// Damage in thousandths of a point.
    pub damage: u64,
    pub num_hits: i64,
    /// Lifetime in nanoseconds.
    pub lifetime: u64,
    pub knockback_force: u64,
}

/// The damaging side of a projectile.
#[derive(Clone, Copy, Debug, PartialEq, Eq, Structural)]
pub struct ProjectileDamage {
    pub team: ProjectileTeam,
    /// Damage in thousandths of a point.
    pub damage: u64,
    /// How many more targets the projectile may hit.
    pub hits_remaining: i64,
    pub knockback_force: u64,
}

impl ProjectileDamage {
    /// Whether the projectile has no hits left and should disappear.
    pub fn is_spent(&self) -> (r: bool)
        ensures
            r == (self.hits_remaining <= 0),
    {
        self.hits_remaining <= 0
    }
}

/// Every plain value of a projectile.
#[derive(Clone, Copy, Debug, PartialEq, Eq, Structural)]
pub struct ProjectileBody {
    pub damage: ProjectileDamage,
    pub radius: u64,
    pub speed: u64,
    /// Lifetime in nanoseconds.
    pub lifetime: u64,
    pub homing: Option<HomingComponent>,
}

/// A projectile as a cast produces it: its values, and the behaviours it
/// casts when it hits something, if a collision trigger was attached.
pub struct Projectile {
    pub body: ProjectileBody,
    pub collision_trigger: Option<Arc<Vec<Arc<SpellEffect>>>>,
}

/// Mathematical content of a projectile.
pub struct ProjectileModel {
    pub body: ProjectileBody,
    pub collision_trigger: Option<Seq<SpellTree>>,
}

impl View for Projectile {
    type V = ProjectileModel;

    open spec fn view(&self) -> ProjectileModel {
        ProjectileModel {
            body: self.body,
            collision_trigger: match self.collision_trigger {
                Some(v) => Some(trees_of(v@)),
                None => None,
            },
        }
    }
}

/// The body a projectile of `team` starts with, before any modifier.
pub open spec fn initial_body(team: ProjectileTeam, stats: ProjectileStats) -> ProjectileBody {
    ProjectileBody {
        damage: ProjectileDamage {
            team,
            damage: stats.damage,
            hits_remaining: stats.num_hits,
            knockback_force: stats.knockback_force,
        },
        radius: stats.radius,
        speed: stats.speed,
        lifetime: stats.lifetime,
        homing: None,
    }
}

impl Projectile {
    /// A fresh projectile of `team` with the given stats.
    pub fn new(team: ProjectileTeam, stats: ProjectileStats) -> (r: Projectile)
        ensures
            r@ == (ProjectileModel { body: initial_body(team, stats), collision_trigger: None }),
    {
        Projectile {
            body: ProjectileBody {
                damage: ProjectileDamage {
                    team,
                    damage: stats.damage,
                    hits_remaining: stats.num_hits,
                    knockback_force: stats.knockback_force,
                },
                radius: stats.radius,
                speed: stats.speed,
                lifetime: stats.lifetime,
                homing: None,
            },
            collision_trigger: None,
        }
    }
}

} // verus!
