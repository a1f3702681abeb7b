//! Compiled behaviours: immutable, shareable trees built from descriptors.

use std::sync::Arc;
use vstd::prelude::*;

use crate::projectile::HomingTarget;
use crate::spell::{
    node, ArcaneArrowSpellData, BangSpellData, BurstCastData, ContactCasterData, DmgUpSpellModData,
    DuplicateData, HomingData, LifetimeData, PiercingData, ScatterCastData, SpellData, SpellTree,
    SplitterBoltsSpellData, ZapSpellData, template_name,
};

verus! {

broadcast use vstd::std_specs::vec::axiom_vec_index_decreases;

#[derive(Clone, Copy, Debug, PartialEq, Eq, Structural)]
pub struct ZapSpell {
    pub base_damage: u64,
}

#[derive(Clone, Copy, Debug, PartialEq, Eq, Structural)]
pub struct BangSpell {
    pub base_damage: u64,
    pub radius: u64,
}

#[derive(Clone, Copy, Debug, PartialEq, Eq, Structural)]
pub struct ArcaneArrowSpell {
    pub base_damage: u64,
    pub speed: u64,
    pub num_hits: u32,
}

#[derive(Clone, Copy, Debug, PartialEq, Eq, Structural)]
pub struct SplitterBoltsSpell {
    pub base_damage: u64,
    pub projectile_count: u32,
}

/// The bolt enemies fire.
#[derive(Clone, Copy, Debug, PartialEq, Eq, Structural)]
pub struct EnemySpell;

pub struct DmgUpSpellMod {
    pub damage_increase: u64,
    pub spell: Arc<SpellEffect>,
}

pub struct Piercing {
    pub pierce_increase: u32,
    pub speed_increase: u64,
    pub spell: Arc<SpellEffect>,
}

pub struct Duplicate {
    pub spread_increase: u64,
    pub bullet_count: u32,
    pub damage_decrease: u64,
    pub spell: Arc<SpellEffect>,
}

pub struct Lifetime {
    pub lifetime_increase: u64,
    pub spell: Arc<SpellEffect>,
}

/// Casts `trigger_spell`, whose projectiles cast `spells_triggered` when
/// they hit something.
pub struct ContactCaster {
    /// How many triggered spells the template asked for.
    pub trigger_count: usize,
    pub trigger_spell: Arc<SpellEffect>,
    pub spells_triggered: Arc<Vec<Arc<SpellEffect>>>,
}

/// Casts all its children at once.
pub struct BurstCast {
    /// How many children the template asked for.
    pub spell_count: usize,
    pub spells: Arc<Vec<Arc<SpellEffect>>>,
}

/// Casts all its children at once with extra spread.
pub struct ScatterCast {
    pub spell_count: usize,
    pub spread: u64,
    pub spells: Arc<Vec<Arc<SpellEffect>>>,
}

pub struct Homing {
    pub homing_range: u64,
    pub homing_rate: u64,
    pub target: HomingTarget,
    pub spell: Arc<SpellEffect>,
}

/// A compiled behaviour.
pub enum SpellEffect {
    Zap(ZapSpell),
    Bang(BangSpell),
    ArcaneArrow(ArcaneArrowSpell),
    SplitterBolts(SplitterBoltsSpell),
    Enemy(EnemySpell),
    DmgUp(DmgUpSpellMod),
    Piercing(Piercing),
    Duplicate(Duplicate),
    Lifetime(Lifetime),
    ContactCaster(ContactCaster),
    BurstCast(BurstCast),
    ScatterCast(ScatterCast),
    Homing(Homing),
}

/// The tree a behaviour stands for: the template of each node and its
/// children.
pub open spec fn tree_of(e: &SpellEffect) -> SpellTree
    decreases e,
{
    match e {
        SpellEffect::Zap(z) => node(SpellData::Zap(ZapSpellData { base_damage: z.base_damage }), seq![]),
        SpellEffect::Bang(b) => node(
            SpellData::Bang(BangSpellData { base_damage: b.base_damage, radius: b.radius }),
            seq![],
        ),
        SpellEffect::ArcaneArrow(a) => node(
            SpellData::ArcaneArrow(
                ArcaneArrowSpellData { base_damage: a.base_damage, speed: a.speed, num_hits: a.num_hits },
            ),
            seq![],
        ),
        SpellEffect::SplitterBolts(s) => node(
            SpellData::SplitterBolts(
                SplitterBoltsSpellData { base_damage: s.base_damage, projectile_count: s.projectile_count },
            ),
            seq![],
        ),
        SpellEffect::Enemy(_) => node(SpellData::Enemy, seq![]),
        SpellEffect::DmgUp(m) => node(
            SpellData::DmgUp(DmgUpSpellModData { damage_increase: m.damage_increase }),
            seq![tree_of(&*m.spell)],
        ),
        SpellEffect::Piercing(m) => node(
            SpellData::Piercing(
                PiercingData { pierce_increase: m.pierce_increase, speed_increase: m.speed_increase },
            ),
            seq![tree_of(&*m.spell)],
        ),
        SpellEffect::Duplicate(m) => node(
            SpellData::Duplicate(
                DuplicateData {
                    spread_increase: m.spread_increase,
                    bullet_count: m.bullet_count,
                    damage_decrease: m.damage_decrease,
                },
            ),
            seq![tree_of(&*m.spell)],
        ),
        SpellEffect::Lifetime(m) => node(
            SpellData::Lifetime(LifetimeData { lifetime_increase: m.lifetime_increase }),
            seq![tree_of(&*m.spell)],
        ),
        SpellEffect::Homing(m) => node(
            SpellData::Homing(
                HomingData { homing_range: m.homing_range, homing_rate: m.homing_rate, target: m.target },
            ),
            seq![tree_of(&*m.spell)],
        ),
        SpellEffect::ContactCaster(c) => node(
            SpellData::ContactCaster(ContactCasterData { spells_triggered: c.trigger_count }),
            seq![tree_of(&*c.trigger_spell)] + Seq::new(
                c.spells_triggered@.len(),
                |i: int|
                    if 0 <= i < c.spells_triggered@.len() {
                        tree_of(&*c.spells_triggered@[i])
                    } else {
                        node(SpellData::Enemy, seq![])
                    },
            ),
        ),
        SpellEffect::BurstCast(b) => node(
            SpellData::BurstCast(BurstCastData { spell_count: b.spell_count }),
            Seq::new(
                b.spells@.len(),
                |i: int|
                    if 0 <= i < b.spells@.len() {
                        tree_of(&*b.spells@[i])
                    } else {
                        node(SpellData::Enemy, seq![])
                    },
            ),
        ),
        SpellEffect::ScatterCast(b) => node(
            SpellData::ScatterCast(ScatterCastData { spell_count: b.spell_count, spread: b.spread }),
            Seq::new(
                b.spells@.len(),
                |i: int|
                    if 0 <= i < b.spells@.len() {
                        tree_of(&*b.spells@[i])
                    } else {
                        node(SpellData::Enemy, seq![])
                    },
            ),
        ),
    }
}

/// The trees of a list of behaviours, in order.
pub open spec fn trees_of(v: Seq<Arc<SpellEffect>>) -> Seq<SpellTree> {
    Seq::new(v.len(), |i: int| tree_of(&*v[i]))
}

impl View for SpellEffect {
    type V = SpellTree;

    open spec fn view(&self) -> SpellTree {
        tree_of(self)
    }
}

impl SpellEffect {
    /// The template this behaviour was built from.
    pub fn template(&self) -> (r: SpellData)
        ensures
            r == self@.data,
    {
        match self {
            SpellEffect::Zap(z) => SpellData::Zap(ZapSpellData { base_damage: z.base_damage }),
            SpellEffect::Bang(b) => SpellData::Bang(BangSpellData { base_damage: b.base_damage, radius: b.radius }),
            SpellEffect::ArcaneArrow(a) => SpellData::ArcaneArrow(
                ArcaneArrowSpellData { base_damage: a.base_damage, speed: a.speed, num_hits: a.num_hits },
            ),
            SpellEffect::SplitterBolts(s) => SpellData::SplitterBolts(
                SplitterBoltsSpellData { base_damage: s.base_damage, projectile_count: s.projectile_count },
            ),
            SpellEffect::Enemy(_) => SpellData::Enemy,
            SpellEffect::DmgUp(m) => SpellData::DmgUp(DmgUpSpellModData { damage_increase: m.damage_increase }),
            SpellEffect::Piercing(m) => SpellData::Piercing(
                PiercingData { pierce_increase: m.pierce_increase, speed_increase: m.speed_increase },
            ),
            SpellEffect::Duplicate(m) => SpellData::Duplicate(
                DuplicateData {
                    spread_increase: m.spread_increase,
                    bullet_count: m.bullet_count,
                    damage_decrease: m.damage_decrease,
                },
            ),
            SpellEffect::Lifetime(m) => SpellData::Lifetime(LifetimeData { lifetime_increase: m.lifetime_increase }),
            SpellEffect::Homing(m) => SpellData::Homing(
                HomingData { homing_range: m.homing_range, homing_rate: m.homing_rate, target: m.target },
            ),
            SpellEffect::ContactCaster(c) => SpellData::ContactCaster(
                ContactCasterData { spells_triggered: c.trigger_count },
            ),
            SpellEffect::BurstCast(b) => SpellData::BurstCast(BurstCastData { spell_count: b.spell_count }),
            SpellEffect::ScatterCast(b) => SpellData::ScatterCast(
                ScatterCastData { spell_count: b.spell_count, spread: b.spread },
            ),
        }
    }

    /// Display name: that of the template it was built from.
    pub fn get_name(&self) -> (r: String)
        ensures
            r@ == template_name(self@.data),
    {
        self.template().get_name()
    }
}

} // verus!
