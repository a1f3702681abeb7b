//! The persistent modifier chain: post-spawn changes that behaviours push
//! onto a cast context and that every projectile spawned under that context
//! goes through.

use std::sync::Arc;
use vstd::prelude::*;
use vstd::string::StringExecFns;

use crate::effect::{trees_of, SpellEffect};
use crate::numeric::{add_hits, hits_plus, scale, scaled};
use crate::projectile::{HomingComponent, Projectile, ProjectileBody, ProjectileModel};
use crate::spell::SpellTree;

verus! {

/// A change to the plain values of a projectile.
#[derive(Clone, Copy, Debug, PartialEq, Eq, Structural)]
pub enum ProjectileTweak {
    /// Multiplies damage by a ratio in thousandths.
    DamageScale(u64),
    /// Adds hits and multiplies speed by a ratio in thousandths.
    Pierce { pierce_increase: u32, speed_increase: u64 },
    /// Multiplies lifetime by a ratio in thousandths.
    LifetimeScale(u64),
    /// Makes the projectile steer.
    Homing(HomingComponent),
}

/// What a tweak does to a projectile body.
pub open spec fn tweaked(t: ProjectileTweak, b: ProjectileBody) -> ProjectileBody {
    match t {
        ProjectileTweak::DamageScale(k) => ProjectileBody {
            damage: crate::projectile::ProjectileDamage {
                damage: scaled(b.damage.damage as nat, k as nat) as u64,
                ..b.damage
            },
            ..b
        },
        ProjectileTweak::Pierce { pierce_increase, speed_increase } => ProjectileBody {
            damage: crate::projectile::ProjectileDamage {
                hits_remaining: hits_plus(b.damage.hits_remaining as int, pierce_increase as int) as i64,
                ..b.damage
            },
            speed: scaled(b.speed as nat, speed_increase as nat) as u64,
            ..b
        },
        ProjectileTweak::LifetimeScale(k) => ProjectileBody {
            lifetime: scaled(b.lifetime as nat, k as nat) as u64,
            ..b
        },
        ProjectileTweak::Homing(h) => ProjectileBody { homing: Some(h), ..b },
    }
}

impl ProjectileTweak {
    pub fn apply(&self, b: &mut ProjectileBody)
        ensures
            *final(b) == tweaked(*self, *old(b)),
    {
        match self {
            ProjectileTweak::DamageScale(k) => {
                b.damage.damage = scale(b.damage.damage, *k);
            },
            ProjectileTweak::Pierce { pierce_increase, speed_increase } => {
                b.damage.hits_remaining = add_hits(b.damage.hits_remaining, *pierce_increase);
                b.speed = scale(b.speed, *speed_increase);
            },
            ProjectileTweak::LifetimeScale(k) => {
                b.lifetime = scale(b.lifetime, *k);
            },
            ProjectileTweak::Homing(h) => {
                b.homing = Some(*h);
            },
        }
    }
}

/// One post-spawn change pushed by a behaviour.
pub enum SpellModifier {
    Tweak(ProjectileTweak),
    /// Attaches a collision trigger that casts these behaviours on impact.
    CollisionTrigger(Arc<Vec<Arc<SpellEffect>>>),
}

/// Mathematical content of a modifier.
pub enum ModifierModel {
    Tweak(ProjectileTweak),
    CollisionTrigger(Seq<SpellTree>),
}

impl View for SpellModifier {
    type V = ModifierModel;

    open spec fn view(&self) -> ModifierModel {
        match self {
            SpellModifier::Tweak(t) => ModifierModel::Tweak(*t),
            SpellModifier::CollisionTrigger(v) => ModifierModel::CollisionTrigger(trees_of(v@)),
        }
    }
}

/// What one modifier does to a projectile.
pub open spec fn modified(m: ModifierModel, p: ProjectileModel) -> ProjectileModel {
    match m {
        ModifierModel::Tweak(t) => ProjectileModel { body: tweaked(t, p.body), ..p },
        ModifierModel::CollisionTrigger(s) => ProjectileModel { collision_trigger: Some(s), ..p },
    }
}

/// Runs a chain from its head: the first element, the most recently added
/// modifier, acts first.
pub open spec fn apply_chain(ms: Seq<ModifierModel>, p: ProjectileModel) -> ProjectileModel
    decreases ms.len(),
{
    if ms.len() == 0 {
        p
    } else {
        apply_chain(ms.drop_first(), modified(ms[0], p))
    }
}

impl SpellModifier {
    pub fn apply(&self, p: &mut Projectile)
        ensures
            final(p)@ == modified(self@, old(p)@),
    {
        match self {
            SpellModifier::Tweak(t) => {
                t.apply(&mut p.body);
            },
            SpellModifier::CollisionTrigger(v) => {
                p.collision_trigger = Some(v.clone());
            },
        }
    }
}

/// A node of the persistent modifier chain. Nodes never change; extending a
/// chain makes a new head that shares the old chain.
pub enum SpellModifierNode {
    Node { id: String, modifier: SpellModifier, prev: Option<Arc<SpellModifierNode>> },
    Root,
}

/// The modifiers of a chain, head first.
pub open spec fn chain_of(n: &SpellModifierNode) -> Seq<ModifierModel>
    decreases n,
{
    match n {
        SpellModifierNode::Root => seq![],
        SpellModifierNode::Node { id: _, modifier, prev } => seq![modifier@] + match prev {
            Some(p) => chain_of(&**p),
            None => seq![],
        },
    }
}

impl View for SpellModifierNode {
    type V = Seq<ModifierModel>;

    open spec fn view(&self) -> Seq<ModifierModel> {
        chain_of(self)
    }
}

impl SpellModifierNode {
    /// The empty chain.
    pub fn root() -> (r: Arc<SpellModifierNode>)
        ensures
            r@ == Seq::<ModifierModel>::empty(),
    {
        Arc::new(SpellModifierNode::Root)
    }

    /// A new head holding `new_modifier` in front of `modifier`; the old
    /// chain is left as it was.
    pub fn with_new(id: &str, modifier: Arc<SpellModifierNode>, new_modifier: SpellModifier) -> (r:
        Arc<Self>)
        ensures
            r@ == seq![new_modifier@] + modifier@,
    {
        Arc::new(SpellModifierNode::Node {
            id: String::from_str(id),
            modifier: new_modifier,
            prev: Some(modifier),
        })
    }

    /// Runs every modifier of the chain on `p`, head first.
    pub fn apply(&self, p: &mut Projectile)
        ensures
            final(p)@ == apply_chain(self@, old(p)@),
        decreases self,
    {
        match self {
            SpellModifierNode::Root => {
                assert(self@.len() == 0);
            },
            SpellModifierNode::Node { id: _, modifier, prev } => {
                modifier.apply(p);
                match prev {
                    Some(prev) => {
                        prev.apply(p);
                    },
                    None => {
                        assert(apply_chain(Seq::<ModifierModel>::empty(), p@) == p@);
                    },
                }
                assert(self@.drop_first() =~= match prev {
                    Some(q) => chain_of(&**q),
                    None => Seq::<ModifierModel>::empty(),
                });
            },
        }
    }
}

} // verus!
