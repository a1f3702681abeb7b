//! Spell descriptors and the behaviour-tree builder.
//!
//! A loadout is a flat list of descriptors holding one or more trees in
//! prefix order: each template pulls as many following descriptors as it
//! needs for its children, each of which does the same.

use std::sync::Arc;
use vstd::prelude::*;
use vstd::string::StringExecFns;

use crate::effect::{
    tree_of, trees_of, ArcaneArrowSpell, BangSpell, BurstCast, ContactCaster, DmgUpSpellMod, Duplicate,
    EnemySpell, Homing, Lifetime, Piercing, ScatterCast, SpellEffect, SplitterBoltsSpell, ZapSpell,
};
use crate::numeric::{decimal, decimal_text};
use crate::projectile::{homing_target_name, HomingTarget};

verus! {

#[derive(Clone, Copy, Debug, PartialEq, Eq, Structural)]
pub struct ZapSpellData {
    /// Damage in thousandths of a point.
    pub base_damage: u64,
}

#[derive(Clone, Copy, Debug, PartialEq, Eq, Structural)]
pub struct BangSpellData {
    pub base_damage: u64,
    pub radius: u64,
}

#[derive(Clone, Copy, Debug, PartialEq, Eq, Structural)]
pub struct ArcaneArrowSpellData {
    pub base_damage: u64,
    pub speed: u64,
    pub num_hits: u32,
}

#[derive(Clone, Copy, Debug, PartialEq, Eq, Structural)]
pub struct SplitterBoltsSpellData {
    pub base_damage: u64,
    pub projectile_count: u32,
}

#[derive(Clone, Copy, Debug, PartialEq, Eq, Structural)]
pub struct DmgUpSpellModData {
    /// Damage ratio in thousandths.
    pub damage_increase: u64,
}

#[derive(Clone, Copy, Debug, PartialEq, Eq, Structural)]
pub struct PiercingData {
    pub pierce_increase: u32,
    /// Speed ratio in thousandths.
    pub speed_increase: u64,
}

#[derive(Clone, Copy, Debug, PartialEq, Eq, Structural)]
pub struct DuplicateData {
    /// Extra spread in degrees.
    pub spread_increase: u64,
    pub bullet_count: u32,
    /// Damage ratio in thousandths.
    pub damage_decrease: u64,
}

#[derive(Clone, Copy, Debug, PartialEq, Eq, Structural)]
pub struct LifetimeData {
    /// Lifetime ratio in thousandths.
    pub lifetime_increase: u64,
}

#[derive(Clone, Copy, Debug, PartialEq, Eq, Structural)]
pub struct ContactCasterData {
    pub spells_triggered: usize,
}

#[derive(Clone, Copy, Debug, PartialEq, Eq, Structural)]
pub struct BurstCastData {
    pub spell_count: usize,
}

#[derive(Clone, Copy, Debug, PartialEq, Eq, Structural)]
pub struct ScatterCastData {
    pub spell_count: usize,
    /// Extra spread in degrees.
    pub spread: u64,
}

#[derive(Clone, Copy, Debug, PartialEq, Eq, Structural)]
pub struct HomingData {
    pub homing_range: u64,
    /// Steering rate in thousandths.
    pub homing_rate: u64,
    pub target: HomingTarget,
}

/// A spell template: what a descriptor builds, and how many following
/// descriptors it consumes for its children.
#[derive(Clone, Copy, Debug, PartialEq, Eq, Structural)]
pub enum SpellData {
    Zap(ZapSpellData),
    Bang(BangSpellData),
    ArcaneArrow(ArcaneArrowSpellData),
    SplitterBolts(SplitterBoltsSpellData),
    Enemy,
    DmgUp(DmgUpSpellModData),
    Piercing(PiercingData),
    Duplicate(DuplicateData),
    Lifetime(LifetimeData),
    ContactCaster(ContactCasterData),
    BurstCast(BurstCastData),
    ScatterCast(ScatterCastData),
    Homing(HomingData),
}

/// One element of a loadout.
#[derive(Clone, Copy, Debug, PartialEq, Eq, Structural)]
pub struct SpellComponent {
    pub data: SpellData,
    pub icon_id: usize,
}

/// A compiled behaviour as a mathematical tree: the template that built
/// each node, and the node's children in order.
pub struct SpellTree {
    pub data: SpellData,
    pub children: Seq<SpellTree>,
}

/// How a template takes its children from the stream.
pub enum Arity {
    /// No children.
    Leaf,
    /// Exactly one child; without it the template builds nothing.
    Single,
    /// Exactly this many children; if fewer can be built, nothing.
    Multi(nat),
    /// One trigger child, then exactly this many more; if fewer can be
    /// built, nothing.
    Contact(nat),
}

pub open spec fn arity(d: SpellData) -> Arity {
    match d {
        SpellData::Zap(_) | SpellData::Bang(_) | SpellData::ArcaneArrow(_)
        | SpellData::SplitterBolts(_) | SpellData::Enemy => Arity::Leaf,
        SpellData::DmgUp(_) | SpellData::Piercing(_) | SpellData::Duplicate(_)
        | SpellData::Lifetime(_) | SpellData::Homing(_) => Arity::Single,
        SpellData::BurstCast(b) => Arity::Multi(b.spell_count as nat),
        SpellData::ScatterCast(s) => Arity::Multi(s.spell_count as nat),
        SpellData::ContactCaster(c) => Arity::Contact(c.spells_triggered as nat),
    }
}

pub open spec fn node(d: SpellData, children: Seq<SpellTree>) -> SpellTree {
    SpellTree { data: d, children }
}

/// Pops the descriptor at `pos` and builds it; the position after what was
/// consumed comes second.
pub open spec fn parse_next(s: Seq<SpellComponent>, pos: int) -> (Option<SpellTree>, int)
    decreases s.len() - pos, 0int, 0int,
{
    if pos < 0 || pos >= s.len() {
        (None, pos)
    } else {
        parse_template(s[pos].data, s, pos + 1)
    }
}

/// Builds template `d` with its children taken from `s` at `pos`.
pub open spec fn parse_template(d: SpellData, s: Seq<SpellComponent>, pos: int) -> (
    Option<SpellTree>,
    int,
)
    decreases s.len() - pos, 2int, 0int,
{
    match arity(d) {
        Arity::Leaf => (Some(node(d, seq![])), pos),
        Arity::Single => {
            let c = parse_next(s, pos);
            match c.0 {
                Some(t) => (Some(node(d, seq![t])), c.1),
                None => (None, c.1),
            }
        },
        Arity::Multi(n) => {
            let cs = parse_children(s, pos, n);
            match cs.0 {
                Some(children) => (Some(node(d, children)), cs.1),
                None => (None, cs.1),
            }
        },
        Arity::Contact(n) => {
            let c = parse_next(s, pos);
            match c.0 {
                Some(t) => if pos <= c.1 <= s.len() {
                    let cs = parse_children(s, c.1, n);
                    match cs.0 {
                        Some(children) => (Some(node(d, seq![t] + children)), cs.1),
                        None => (None, cs.1),
                    }
                } else {
                    (None, c.1)
                },
                None => (None, c.1),
            }
        },
    }
}

/// Builds exactly `n` children in a row; `None` as soon as one cannot be
/// built or the stream ends first. The position after what was consumed
/// comes second either way.
pub open spec fn parse_children(s: Seq<SpellComponent>, pos: int, n: nat) -> (Option<Seq<SpellTree>>, int)
    decreases s.len() - pos, 1int, n as int,
{
    if n == 0 {
        (Some(seq![]), pos)
    } else if pos < 0 || pos >= s.len() {
        (None, pos)
    } else {
        let c = parse_next(s, pos);
        match c.0 {
            Some(t) => if pos < c.1 <= s.len() {
                let rest = parse_children(s, c.1, (n - 1) as nat);
                match rest.0 {
                    Some(ts) => (Some(seq![t] + ts), rest.1),
                    None => (None, rest.1),
                }
            } else {
                (None, c.1)
            },
            None => (None, c.1),
        }
    }
}

/// The top-level behaviours of a loadout from `pos` on: pop-and-build until
/// the stream ends or a build fails.
pub open spec fn parse_all(s: Seq<SpellComponent>, pos: int) -> Seq<SpellTree>
    decreases s.len() - pos,
{
    if pos < 0 || pos >= s.len() {
        seq![]
    } else {
        let c = parse_next(s, pos);
        match c.0 {
            Some(t) => if pos < c.1 <= s.len() {
                seq![t] + parse_all(s, c.1)
            } else {
                seq![t]
            },
            None => seq![],
        }
    }
}

pub open spec fn tree_opt(r: Option<Arc<SpellEffect>>) -> Option<SpellTree> {
    match r {
        Some(e) => Some(tree_of(&*e)),
        None => None,
    }
}

/// Pops the next descriptor and builds it, returning the behaviour (if any)
/// and the position after everything consumed.
pub fn build_next(spells: &Vec<SpellComponent>, pos: usize) -> (r: (Option<Arc<SpellEffect>>, usize))
    requires
        pos <= spells.len(),
    ensures
        tree_opt(r.0) == parse_next(spells@, pos as int).0,
        r.1 == parse_next(spells@, pos as int).1,
        pos <= r.1 <= spells.len(),
        r.0.is_some() ==> pos < r.1,
    decreases spells.len() - pos, 0int, 0int,
{
    if pos >= spells.len() {
        (None, pos)
    } else {
        spells[pos].data.build(spells, pos + 1)
    }
}

pub open spec fn trees_opt(r: Option<Vec<Arc<SpellEffect>>>) -> Option<Seq<SpellTree>> {
    match r {
        Some(v) => Some(trees_of(v@)),
        None => None,
    }
}

/// Builds exactly `count` children in a row from `pos`, or `None`.
fn build_children(spells: &Vec<SpellComponent>, pos: usize, count: usize) -> (r: (
    Option<Vec<Arc<SpellEffect>>>,
    usize,
))
    requires
        pos <= spells.len(),
    ensures
        trees_opt(r.0) == parse_children(spells@, pos as int, count as nat).0,
        r.1 == parse_children(spells@, pos as int, count as nat).1,
        pos <= r.1 <= spells.len(),
    decreases spells.len() - pos, 1int, count as int,
{
    let mut children: Vec<Arc<SpellEffect>> = Vec::new();
    let mut p: usize = pos;
    let mut left: usize = count;
    while left > 0
        invariant
            pos <= p <= spells.len(),
            left <= count,
            ({
                let whole = parse_children(spells@, pos as int, count as nat);
                let rest = parse_children(spells@, p as int, left as nat);
                &&& whole.1 == rest.1
                &&& whole.0 == match rest.0 {
                    Some(ts) => Some(trees_of(children@) + ts),
                    None => None::<Seq<SpellTree>>,
                }
            }),
        decreases left,
    {
        if p >= spells.len() {
            return (None, p);
        }
        let (c, q) = build_next(spells, p);
        match c {
            Some(e) => {
                proof {
                    assert(trees_of(children@.push(e)) =~= trees_of(children@) + seq![tree_of(&*e)]);
                    let rest = parse_children(spells@, q as int, (left - 1) as nat);
                    match rest.0 {
                        Some(ts) => {
                            assert(trees_of(children@) + (seq![tree_of(&*e)] + ts) =~= trees_of(
                                children@.push(e),
                            ) + ts);
                        },
                        None => {},
                    }
                }
                children.push(e);
                p = q;
                left = left - 1;
            },
            None => {
                return (None, q);
            },
        }
    }
    proof {
        assert(trees_of(children@) + Seq::<SpellTree>::empty() =~= trees_of(children@));
    }
    (Some(children), p)
}

impl SpellData {
    /// Builds this template, taking its children from `spells` at `pos`.
    pub fn build(&self, spells: &Vec<SpellComponent>, pos: usize) -> (r: (
        Option<Arc<SpellEffect>>,
        usize,
    ))
        requires
            pos <= spells.len(),
        ensures
            tree_opt(r.0) == parse_template(*self, spells@, pos as int).0,
            r.1 == parse_template(*self, spells@, pos as int).1,
            pos <= r.1 <= spells.len(),
        decreases spells.len() - pos, 2int, 0int,
    {
        match self {
            SpellData::Zap(z) => (Some(Arc::new(SpellEffect::Zap(ZapSpell { base_damage: z.base_damage }))), pos),
            SpellData::Bang(b) => (Some(Arc::new(SpellEffect::Bang(BangSpell { base_damage: b.base_damage, radius: b.radius }))), pos),
            SpellData::ArcaneArrow(a) => (Some(Arc::new(SpellEffect::ArcaneArrow(ArcaneArrowSpell {
                base_damage: a.base_damage,
                speed: a.speed,
                num_hits: a.num_hits,
            }))), pos),
            SpellData::SplitterBolts(s) => (Some(Arc::new(SpellEffect::SplitterBolts(SplitterBoltsSpell {
                base_damage: s.base_damage,
                projectile_count: s.projectile_count,
            }))), pos),
            SpellData::Enemy => (Some(Arc::new(SpellEffect::Enemy(EnemySpell))), pos),
            SpellData::DmgUp(m) => {
                let (c, p) = build_next(spells, pos);
                match c {
                    Some(spell) => (Some(Arc::new(SpellEffect::DmgUp(DmgUpSpellMod {
                        damage_increase: m.damage_increase,
                        spell,
                    }))), p),
                    None => (None, p),
                }
            },
            SpellData::Piercing(m) => {
                let (c, p) = build_next(spells, pos);
                match c {
                    Some(spell) => (Some(Arc::new(SpellEffect::Piercing(Piercing {
                        pierce_increase: m.pierce_increase,
                        speed_increase: m.speed_increase,
                        spell,
                    }))), p),
                    None => (None, p),
                }
            },
            SpellData::Duplicate(m) => {
                let (c, p) = build_next(spells, pos);
                match c {
                    Some(spell) => (Some(Arc::new(SpellEffect::Duplicate(Duplicate {
                        spread_increase: m.spread_increase,
                        bullet_count: m.bullet_count,
                        damage_decrease: m.damage_decrease,
                        spell,
                    }))), p),
                    None => (None, p),
                }
            },
            SpellData::Lifetime(m) => {
                let (c, p) = build_next(spells, pos);
                match c {
                    Some(spell) => (Some(Arc::new(SpellEffect::Lifetime(Lifetime {
                        lifetime_increase: m.lifetime_increase,
                        spell,
                    }))), p),
                    None => (None, p),
                }
            },
            SpellData::Homing(m) => {
                let (c, p) = build_next(spells, pos);
                match c {
                    Some(spell) => (Some(Arc::new(SpellEffect::Homing(Homing {
                        homing_range: m.homing_range,
                        homing_rate: m.homing_rate,
                        target: m.target,
                        spell,
                    }))), p),
                    None => (None, p),
                }
            },
            SpellData::BurstCast(m) => {
                let (cs, p) = build_children(spells, pos, m.spell_count);
                match cs {
                    Some(cs) => {
                        let r = BurstCast { spell_count: m.spell_count, spells: Arc::new(cs) };
                        proof {
                            assert(tree_of(&SpellEffect::BurstCast(r)).children =~= trees_of(cs@));
                        }
                        (Some(Arc::new(SpellEffect::BurstCast(r))), p)
                    },
                    None => (None, p),
                }
            },
            SpellData::ScatterCast(m) => {
                let (cs, p) = build_children(spells, pos, m.spell_count);
                match cs {
                    Some(cs) => {
                        let r = ScatterCast { spell_count: m.spell_count, spread: m.spread, spells: Arc::new(cs) };
                        proof {
                            assert(tree_of(&SpellEffect::ScatterCast(r)).children =~= trees_of(cs@));
                        }
                        (Some(Arc::new(SpellEffect::ScatterCast(r))), p)
                    },
                    None => (None, p),
                }
            },
            SpellData::ContactCaster(m) => {
                let (c, p) = build_next(spells, pos);
                match c {
                    Some(trigger_spell) => {
                        let (cs, q) = build_children(spells, p, m.spells_triggered);
                        match cs {
                            Some(cs) => {
                                let r = ContactCaster {
                                    trigger_count: m.spells_triggered,
                                    trigger_spell,
                                    spells_triggered: Arc::new(cs),
                                };
                                proof {
                                    assert(tree_of(&SpellEffect::ContactCaster(r)).children =~= seq![
                                        tree_of(&*trigger_spell),
                                    ] + trees_of(cs@));
                                }
                                (Some(Arc::new(SpellEffect::ContactCaster(r))), q)
                            },
                            None => (None, q),
                        }
                    },
                    None => (None, p),
                }
            },
        }
    }
}

/// A single-child template with nothing left in the stream builds nothing
/// and consumes nothing; a loadout holding only such a template compiles to
/// no behaviour at all.
pub proof fn lemma_modifier_without_child(d: SpellData, s: Seq<SpellComponent>, icon_id: usize)
    requires
        arity(d) is Single,
    ensures
        parse_template(d, s, s.len() as int) == (None::<SpellTree>, s.len() as int),
        parse_all(seq![SpellComponent { data: d, icon_id }], 0) == Seq::<SpellTree>::empty(),
{
    let one = seq![SpellComponent { data: d, icon_id }];
    assert(parse_next(one, 1) == (None::<SpellTree>, 1int));
    assert(parse_template(d, one, 1) == (None::<SpellTree>, 1int));
    assert(parse_next(one, 0) == (None::<SpellTree>, 1int));
}

/// How many children a node of template `d` has when nothing was missing.
pub open spec fn full_arity(d: SpellData) -> nat {
    match arity(d) {
        Arity::Leaf => 0,
        Arity::Single => 1,
        Arity::Multi(n) => n,
        Arity::Contact(n) => n + 1,
    }
}

/// The prefix encoding of a tree: its template, then its children's
/// encodings in order.
pub open spec fn encode(t: SpellTree) -> Seq<SpellData>
    decreases t, 0int,
{
    seq![t.data] + encode_from(t.children, 0)
}

/// Encodings of `cs[i..]`, back to back.
pub open spec fn encode_from(cs: Seq<SpellTree>, i: int) -> Seq<SpellData>
    decreases cs, cs.len() - i,
{
    if i < 0 || i >= cs.len() {
        seq![]
    } else {
        encode(cs[i]) + encode_from(cs, i + 1)
    }
}

/// Whether every node of `t` has all the children its template asks for.
pub open spec fn complete(t: SpellTree) -> bool
    decreases t, 0int,
{
    t.children.len() == full_arity(t.data) && complete_from(t.children, 0)
}

pub open spec fn complete_from(cs: Seq<SpellTree>, i: int) -> bool
    decreases cs, cs.len() - i,
{
    i < 0 || i >= cs.len() || (complete(cs[i]) && complete_from(cs, i + 1))
}

/// Whether the descriptors of `s` from `pos` on start with `e`.
pub open spec fn holds_at(s: Seq<SpellComponent>, pos: int, e: Seq<SpellData>) -> bool {
    &&& 0 <= pos
    &&& pos + e.len() <= s.len()
    &&& forall|k: int| 0 <= k < e.len() ==> #[trigger] s[pos + k].data == e[k]
}

proof fn lemma_holds_split(s: Seq<SpellComponent>, pos: int, a: Seq<SpellData>, b: Seq<SpellData>)
    requires
        holds_at(s, pos, a + b),
    ensures
        holds_at(s, pos, a),
        holds_at(s, pos + a.len(), b),
{
    assert forall|k: int| 0 <= k < a.len() implies #[trigger] s[pos + k].data == a[k] by {
        assert(s[pos + k].data == (a + b)[k]);
    }
    assert forall|k: int| 0 <= k < b.len() implies #[trigger] s[pos + a.len() + k].data == b[k] by {
        assert(s[pos + (a.len() + k)].data == (a + b)[a.len() + k]);
    }
}

/// Decoding inverts the encoding: wherever the encoding of a complete tree
/// stands in a loadout, building from there gives back that tree and stops
/// right after it.
pub proof fn lemma_build_inverts_encoding(t: SpellTree, s: Seq<SpellComponent>, pos: int)
    requires
        complete(t),
        holds_at(s, pos, encode(t)),
    ensures
        parse_next(s, pos) == (Some(t), pos + encode(t).len()),
    decreases t, 0int,
{
    let rest = encode_from(t.children, 0);
    lemma_holds_split(s, pos, seq![t.data], rest);
    assert(s[pos + 0].data == seq![t.data][0]);
    let n = t.children.len();
    match arity(t.data) {
        Arity::Leaf => {
            assert(rest =~= Seq::<SpellData>::empty());
            assert(t.children =~= Seq::<SpellTree>::empty());
        },
        Arity::Single => {
            let c = t.children[0];
            assert(rest == encode(c) + encode_from(t.children, 1));
            assert(encode_from(t.children, 1) =~= Seq::<SpellData>::empty());
            assert(rest =~= encode(c));
            lemma_build_inverts_encoding(c, s, pos + 1);
            assert(t.children =~= seq![c]);
        },
        Arity::Multi(m) => {
            lemma_build_children(t.children, 0, s, pos + 1);
            assert(t.children.subrange(0, n as int) =~= t.children);
        },
        Arity::Contact(m) => {
            let c = t.children[0];
            assert(rest == encode(c) + encode_from(t.children, 1));
            lemma_holds_split(s, pos + 1, encode(c), encode_from(t.children, 1));
            lemma_build_inverts_encoding(c, s, pos + 1);
            lemma_build_children(t.children, 1, s, pos + 1 + encode(c).len());
            assert(seq![c] + t.children.subrange(1, n as int) =~= t.children);
        },
    }
}

/// A loadout made of the encodings of complete trees, back to back,
/// compiles to exactly those trees.
pub proof fn lemma_loadout_of_trees(ts: Seq<SpellTree>, s: Seq<SpellComponent>)
    requires
        complete_from(ts, 0),
        holds_at(s, 0, encode_from(ts, 0)),
        s.len() == encode_from(ts, 0).len(),
    ensures
        parse_all(s, 0) == ts,
{
    lemma_loadout_from(ts, 0, s, 0);
    assert(ts.subrange(0, ts.len() as int) =~= ts);
}

proof fn lemma_loadout_from(ts: Seq<SpellTree>, i: int, s: Seq<SpellComponent>, pos: int)
    requires
        0 <= i <= ts.len(),
        complete_from(ts, i),
        holds_at(s, pos, encode_from(ts, i)),
        s.len() == pos + encode_from(ts, i).len(),
    ensures
        parse_all(s, pos) == ts.subrange(i, ts.len() as int),
    decreases ts.len() - i,
{
    if i < ts.len() {
        let t = ts[i];
        lemma_holds_split(s, pos, encode(t), encode_from(ts, i + 1));
        lemma_build_inverts_encoding(t, s, pos);
        assert(encode(t).len() >= 1);
        lemma_loadout_from(ts, i + 1, s, pos + encode(t).len());
        assert(seq![t] + ts.subrange(i + 1, ts.len() as int) =~= ts.subrange(i, ts.len() as int));
    } else {
        assert(ts.subrange(i, ts.len() as int) =~= Seq::<SpellTree>::empty());
    }
}

/// The children part: from child `i` on, up to the end of `cs`.
proof fn lemma_build_children(cs: Seq<SpellTree>, i: int, s: Seq<SpellComponent>, pos: int)
    requires
        0 <= i <= cs.len(),
        complete_from(cs, i),
        holds_at(s, pos, encode_from(cs, i)),
    ensures
        parse_children(s, pos, (cs.len() - i) as nat) == (Some(cs.subrange(i, cs.len() as int)), pos + encode_from(
            cs,
            i,
        ).len()),
    decreases cs, cs.len() - i,
{
    if i < cs.len() {
        let c = cs[i];
        lemma_holds_split(s, pos, encode(c), encode_from(cs, i + 1));
        lemma_build_inverts_encoding(c, s, pos);
        assert(encode(c).len() >= 1);
        lemma_build_children(cs, i + 1, s, pos + encode(c).len());
        assert(seq![c] + cs.subrange(i + 1, cs.len() as int) =~= cs.subrange(i, cs.len() as int));
    } else {
        assert(cs.subrange(i, cs.len() as int) =~= Seq::<SpellTree>::empty());
    }
}

proof fn lemma_next_advances(s: Seq<SpellComponent>, pos: int)
    requires
        0 <= pos,
    ensures
        parse_next(s, pos).1 >= pos,
        pos < s.len() ==> parse_next(s, pos).1 > pos,
    decreases s.len() - pos, 0int, 0int,
{
    if pos < s.len() {
        lemma_template_advances(s[pos].data, s, pos + 1);
    }
}

proof fn lemma_template_advances(d: SpellData, s: Seq<SpellComponent>, pos: int)
    requires
        0 <= pos,
    ensures
        parse_template(d, s, pos).1 >= pos,
    decreases s.len() - pos, 2int, 0int,
{
    match arity(d) {
        Arity::Leaf => {},
        Arity::Single => {
            lemma_next_advances(s, pos);
        },
        Arity::Multi(n) => {
            lemma_children_advance(s, pos, n);
        },
        Arity::Contact(n) => {
            lemma_next_advances(s, pos);
            let c = parse_next(s, pos);
            if c.0 is Some && pos <= c.1 <= s.len() {
                lemma_children_advance(s, c.1, n);
            }
        },
    }
}

proof fn lemma_children_advance(s: Seq<SpellComponent>, pos: int, n: nat)
    requires
        0 <= pos,
    ensures
        parse_children(s, pos, n).1 >= pos,
    decreases s.len() - pos, 1int, n as int,
{
    if n > 0 && pos < s.len() {
        lemma_next_advances(s, pos);
        let c = parse_next(s, pos);
        if c.0 is Some && pos < c.1 <= s.len() {
            lemma_children_advance(s, c.1, (n - 1) as nat);
        }
    }
}

proof fn lemma_children_need_room(s: Seq<SpellComponent>, pos: int, n: nat)
    requires
        0 <= pos <= s.len(),
        n > s.len() - pos,
    ensures
        parse_children(s, pos, n).0 is None,
    decreases s.len() - pos,
{
    if pos < s.len() {
        let c = parse_next(s, pos);
        if c.0 is Some && pos < c.1 <= s.len() {
            lemma_children_need_room(s, c.1, (n - 1) as nat);
        }
    }
}

/// A multicaster takes all its declared children or nothing: when fewer
/// descriptors follow it than it declares children (each child takes at
/// least one), it builds nothing, and neither does a collision trigger
/// followed by fewer than its trigger spell and its declared payload.
pub proof fn lemma_short_multicaster_builds_nothing(d: SpellData, s: Seq<SpellComponent>, pos: int)
    requires
        0 <= pos <= s.len(),
        match arity(d) {
            Arity::Multi(n) => n > s.len() - pos,
            Arity::Contact(n) => n + 1 > s.len() - pos,
            _ => false,
        },
    ensures
        parse_template(d, s, pos).0 is None,
{
    match arity(d) {
        Arity::Multi(n) => {
            lemma_children_need_room(s, pos, n);
        },
        Arity::Contact(n) => {
            lemma_next_advances(s, pos);
            let c = parse_next(s, pos);
            if c.0 is Some && pos <= c.1 <= s.len() {
                lemma_children_need_room(s, c.1, n);
            }
        },
        _ => {},
    }
}

/// Compiling is a function of the loadout alone: the same loadout always
/// compiles to the same list of trees, hence to the same names in the same
/// order.
pub proof fn lemma_build_deterministic(a: Seq<SpellComponent>, b: Seq<SpellComponent>)
    requires
        a == b,
    ensures
        parse_all(a, 0) == parse_all(b, 0),
        parse_all(a, 0).len() == parse_all(b, 0).len(),
        forall|i: int|
            0 <= i < parse_all(a, 0).len() ==> template_name(#[trigger] parse_all(a, 0)[i].data) == template_name(
                parse_all(b, 0)[i].data,
            ),
{
}

/// Display name of a template.
pub open spec fn template_name(d: SpellData) -> Seq<char> {
    match d {
        SpellData::Zap(_) => "Zap"@,
        SpellData::Bang(_) => "Bang"@,
        SpellData::ArcaneArrow(_) => "Arrow"@,
        SpellData::SplitterBolts(_) => "split"@,
        SpellData::Enemy => "Enemy"@,
        SpellData::DmgUp(_) => "DMG UP"@,
        SpellData::Piercing(_) => "Penetration"@,
        SpellData::Duplicate(m) => "Dupe: "@ + decimal_text(m.bullet_count as nat),
        SpellData::Lifetime(_) => "Lifetime Up"@,
        SpellData::ContactCaster(_) => "Collision Trigger"@,
        SpellData::BurstCast(b) => "Burst "@ + decimal_text(b.spell_count as nat),
        SpellData::ScatterCast(b) => "Scatter "@ + decimal_text(b.spell_count as nat),
        SpellData::Homing(h) => "Homing: "@ + homing_target_name(h.target),
    }
}

/// Whole points of a value in thousandths.
pub open spec fn points_text(v: u64) -> Seq<char> {
    decimal_text((v / 1000) as nat)
}

/// Change, in whole percent, that a ratio in thousandths makes, with a
/// leading minus when it lowers the value.
pub open spec fn percent_text(per_mille: u64) -> Seq<char> {
    if per_mille >= 1000 {
        decimal_text(((per_mille - 1000) / 10) as nat)
    } else {
        "-"@ + decimal_text(((1000 - per_mille) / 10) as nat)
    }
}

/// Description of a template.
pub open spec fn template_desc(d: SpellData) -> Seq<char> {
    match d {
        SpellData::Zap(z) => "Fires a jolt of energy dealing: "@ + points_text(z.base_damage) + " damage."@,
        SpellData::Bang(b) => "Explodes dealing: "@ + points_text(b.base_damage) + " damage in a "@ + decimal_text(
            b.radius as nat,
        ) + " radius."@,
        SpellData::ArcaneArrow(a) => "Fires an arrow dealing: "@ + points_text(a.base_damage)
            + " damage and pierces through: "@ + decimal_text(a.num_hits as nat) + " enemies."@,
        SpellData::SplitterBolts(s) => "Fires: "@ + decimal_text(s.projectile_count as nat) + " bolts dealing: "@
            + points_text(s.base_damage) + " damage each."@,
        SpellData::Enemy => "Fires a bolt at the player."@,
        SpellData::DmgUp(m) => "The next spells gains: \n- Damage: +"@ + percent_text(m.damage_increase) + "%"@,
        SpellData::Piercing(m) => "The next spells gains: \n- Pierce: +"@ + decimal_text(m.pierce_increase as nat)
            + "\n- Speed: +"@ + percent_text(m.speed_increase) + "%"@,
        SpellData::Duplicate(m) => "The next spells gains: \n- Bullets: +"@ + decimal_text(m.bullet_count as nat)
            + "\n- Spread: +"@ + decimal_text(m.spread_increase as nat) + "\n- Damage: "@ + percent_text(
            m.damage_decrease,
        ) + "%"@,
        SpellData::Lifetime(m) => "The next spells gains: \n- Lifetime: +"@ + percent_text(m.lifetime_increase)
            + "%"@,
        SpellData::ContactCaster(_) =>
            "When the following spell's projectiles collide with something, they cast the immediately following spell."@,
        SpellData::BurstCast(b) => "Casts the following "@ + decimal_text(b.spell_count as nat)
            + " spells at the same time."@,
        SpellData::ScatterCast(b) => "Casts the following "@ + decimal_text(b.spell_count as nat)
            + " spells, with a random spread."@,
        SpellData::Homing(h) => "Causes the spell to home in on: "@ + homing_target_name(h.target),
    }
}

/// `s` followed by `t`.
fn cat(s: String, t: &str) -> (r: String)
    ensures
        r@ == s@ + t@,
{
    s.concat(t)
}

fn points(v: u64) -> (r: String)
    ensures
        r@ == points_text(v),
{
    decimal(v / 1000)
}

fn percent(per_mille: u64) -> (r: String)
    ensures
        r@ == percent_text(per_mille),
{
    if per_mille >= 1000 {
        decimal((per_mille - 1000) / 10)
    } else {
        joined("-", decimal((1000 - per_mille) / 10))
    }
}

/// `prefix` followed by `tail`.
fn joined(prefix: &str, tail: String) -> (r: String)
    ensures
        r@ == prefix@ + tail@,
{
    String::from_str(prefix).concat(tail.as_str())
}

impl SpellData {
    pub fn get_name(&self) -> (r: String)
        ensures
            r@ == template_name(*self),
    {
        match self {
            SpellData::Zap(_) => String::from_str("Zap"),
            SpellData::Bang(_) => String::from_str("Bang"),
            SpellData::ArcaneArrow(_) => String::from_str("Arrow"),
            SpellData::SplitterBolts(_) => String::from_str("split"),
            SpellData::Enemy => String::from_str("Enemy"),
            SpellData::DmgUp(_) => String::from_str("DMG UP"),
            SpellData::Piercing(_) => String::from_str("Penetration"),
            SpellData::Duplicate(m) => joined("Dupe: ", decimal(m.bullet_count as u64)),
            SpellData::Lifetime(_) => String::from_str("Lifetime Up"),
            SpellData::ContactCaster(_) => String::from_str("Collision Trigger"),
            SpellData::BurstCast(b) => joined("Burst ", decimal(b.spell_count as u64)),
            SpellData::ScatterCast(b) => joined("Scatter ", decimal(b.spell_count as u64)),
            SpellData::Homing(h) => joined("Homing: ", h.target.get_name()),
        }
    }

    pub fn get_desc(&self) -> (r: String)
        ensures
            r@ == template_desc(*self),
    {
        match self {
            SpellData::Zap(z) => cat(joined("Fires a jolt of energy dealing: ", points(z.base_damage)), " damage."),
            SpellData::Bang(b) => cat(
                cat(joined("Explodes dealing: ", points(b.base_damage)), " damage in a ").concat(
                    decimal(b.radius).as_str(),
                ),
                " radius.",
            ),
            SpellData::ArcaneArrow(a) => cat(
                cat(joined("Fires an arrow dealing: ", points(a.base_damage)), " damage and pierces through: ").concat(
                    decimal(a.num_hits as u64).as_str(),
                ),
                " enemies.",
            ),
            SpellData::SplitterBolts(s) => cat(
                cat(joined("Fires: ", decimal(s.projectile_count as u64)), " bolts dealing: ").concat(
                    points(s.base_damage).as_str(),
                ),
                " damage each.",
            ),
            SpellData::Enemy => String::from_str("Fires a bolt at the player."),
            SpellData::DmgUp(m) => cat(
                joined("The next spells gains: \n- Damage: +", percent(m.damage_increase)),
                "%",
            ),
            SpellData::Piercing(m) => cat(
                cat(
                    joined("The next spells gains: \n- Pierce: +", decimal(m.pierce_increase as u64)),
                    "\n- Speed: +",
                ).concat(percent(m.speed_increase).as_str()),
                "%",
            ),
            SpellData::Duplicate(m) => cat(
                cat(
                    cat(
                        joined("The next spells gains: \n- Bullets: +", decimal(m.bullet_count as u64)),
                        "\n- Spread: +",
                    ).concat(decimal(m.spread_increase).as_str()),
                    "\n- Damage: ",
                ).concat(percent(m.damage_decrease).as_str()),
                "%",
            ),
            SpellData::Lifetime(m) => cat(
                joined("The next spells gains: \n- Lifetime: +", percent(m.lifetime_increase)),
                "%",
            ),
            SpellData::ContactCaster(_) => String::from_str(
                "When the following spell's projectiles collide with something, they cast the immediately following spell.",
            ),
            SpellData::BurstCast(b) => cat(
                joined("Casts the following ", decimal(b.spell_count as u64)),
                " spells at the same time.",
            ),
            SpellData::ScatterCast(b) => cat(
                joined("Casts the following ", decimal(b.spell_count as u64)),
                " spells, with a random spread.",
            ),
            SpellData::Homing(h) => joined("Causes the spell to home in on: ", h.target.get_name()),
        }
    }
}

} // verus!
