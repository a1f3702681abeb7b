//! Cast contexts and what casting a behaviour spawns.
//!
//! Casting is a function of the behaviour tree and the context: each leaf
//! spawns projectiles, modifiers push onto the context's chain before their
//! child is cast, and multicasters give every branch its own copy of the
//! context so that nothing one branch adds reaches its siblings.

use std::sync::Arc;
use vstd::prelude::*;

use crate::assets::{ParticleAsset, ProjectileTeam, SpellGFXAsset, SpellModel};
use crate::effect::{tree_of, trees_of, SpellEffect};
use crate::modifier::{apply_chain, modified, tweaked, ModifierModel, ProjectileTweak, SpellModifier, SpellModifierNode};
use crate::numeric::{capped_sum, scaled};
use crate::projectile::{initial_body, HomingComponent, Projectile, ProjectileModel, ProjectileStats};
use crate::spell::{
    node, parse_all, parse_next, parse_template, DmgUpSpellModData, SpellComponent, SpellData, SpellTree,
    ZapSpellData,
};

verus! {

broadcast use vstd::seq_lib::group_seq_properties, vstd::std_specs::vec::axiom_vec_index_decreases;

/// Extra spread, in degrees, of each splitter bolt.
pub const SPLITTER_SPREAD: u64 = 30;

/// Values threaded down a cast: spread and the modifier chain.
pub struct SpellCastValues {
    /// Spread in degrees.
    pub spread: u64,
    pub modifiers: Arc<SpellModifierNode>,
}

impl SpellCastValues {
    /// No spread and an empty chain.
    pub fn new() -> (r: SpellCastValues)
        ensures
            r.spread == 0,
            r.modifiers@ == Seq::<ModifierModel>::empty(),
    {
        SpellCastValues { spread: 0, modifiers: SpellModifierNode::root() }
    }

    /// A copy sharing the chain.
    pub fn share(&self) -> (r: SpellCastValues)
        ensures
            r.spread == self.spread,
            r.modifiers@ == self.modifiers@,
    {
        SpellCastValues { spread: self.spread, modifiers: self.modifiers.clone() }
    }
}

/// The context a behaviour is cast with.
pub struct SpellCastContext {
    /// The object the cast comes from.
    pub caster: u64,
    /// Delay in nanoseconds committed to the caster after the cast.
    pub spell_delay: u64,
    pub values: SpellCastValues,
}

/// Mathematical content of a cast context, as far as casting reads it.
pub struct CastModel {
    pub caster: u64,
    pub spread: u64,
    pub chain: Seq<ModifierModel>,
}

impl View for SpellCastContext {
    type V = CastModel;

    open spec fn view(&self) -> CastModel {
        CastModel { caster: self.caster, spread: self.values.spread, chain: self.values.modifiers@ }
    }
}

/// The context with `m` pushed on the front of its chain.
pub open spec fn pushed(ctx: CastModel, m: ModifierModel) -> CastModel {
    CastModel { chain: seq![m] + ctx.chain, ..ctx }
}

/// The context with `extra` degrees of spread added.
pub open spec fn widened(ctx: CastModel, extra: u64) -> CastModel {
    CastModel { spread: capped_sum(ctx.spread as nat, extra as nat) as u64, ..ctx }
}

impl SpellCastContext {
    /// Pushes a modifier on the front of the chain.
    pub fn add_modifier(&mut self, id: &str, modifier: SpellModifier)
        ensures
            final(self)@ == pushed(old(self)@, modifier@),
            final(self).spell_delay == old(self).spell_delay,
    {
        let chain = self.values.modifiers.clone();
        self.values.modifiers = SpellModifierNode::with_new(id, chain, modifier);
    }

    /// Adds spread in degrees, capped at `u64::MAX`.
    pub fn add_spread(&mut self, extra: u64)
        ensures
            final(self)@ == widened(old(self)@, extra),
            final(self).spell_delay == old(self).spell_delay,
    {
        self.values.spread = self.values.spread.saturating_add(extra);
    }

    /// An independent copy for a spun-off branch of a cast.
    pub fn fresh_clone(&self) -> (r: SpellCastContext)
        ensures
            r@ == self@,
            r.spell_delay == self.spell_delay,
    {
        SpellCastContext { caster: self.caster, spell_delay: self.spell_delay, values: self.values.share() }
    }
}

/// A projectile a cast asks to be spawned.
pub struct SpellSpawn {
    pub caster: u64,
    /// Angular jitter bound, in degrees, for the firing direction.
    pub spread: u64,
    pub model: SpellModel,
    pub particles: Option<ParticleAsset>,
    pub projectile: Projectile,
}

pub struct SpawnModel {
    pub caster: u64,
    pub spread: u64,
    pub model: SpellModel,
    pub particles: Option<ParticleAsset>,
    pub projectile: ProjectileModel,
}

impl View for SpellSpawn {
    type V = SpawnModel;

    open spec fn view(&self) -> SpawnModel {
        SpawnModel {
            caster: self.caster,
            spread: self.spread,
            model: self.model,
            particles: self.particles,
            projectile: self.projectile@,
        }
    }
}

pub open spec fn spawn_views(s: Seq<SpellSpawn>) -> Seq<SpawnModel> {
    Seq::new(s.len(), |i: int| s[i]@)
}

/// What spawning under `ctx` produces: the projectile from `stats`, then the
/// context's chain run over it.
pub open spec fn spawned(
    ctx: CastModel,
    team: ProjectileTeam,
    model: SpellModel,
    particles: Option<ParticleAsset>,
    stats: ProjectileStats,
) -> SpawnModel {
    SpawnModel {
        caster: ctx.caster,
        spread: ctx.spread,
        model,
        particles,
        projectile: apply_chain(
            ctx.chain,
            ProjectileModel { body: initial_body(team, stats), collision_trigger: None },
        ),
    }
}

/// Builds the projectile, runs the chain over it, and returns the request.
pub fn spawn_spell_projectile(
    context: &SpellCastContext,
    team: ProjectileTeam,
    spell_model: SpellModel,
    spell_particles: Option<ParticleAsset>,
    stats: ProjectileStats,
) -> (r: SpellSpawn)
    ensures
        r@ == spawned(context@, team, spell_model, spell_particles, stats),
{
    let mut projectile = Projectile::new(team, stats);
    context.values.modifiers.apply(&mut projectile);
    SpellSpawn {
        caster: context.caster,
        spread: context.values.spread,
        model: spell_model,
        particles: spell_particles,
        projectile,
    }
}

/// The team, look and numbers of the projectile a leaf spawns.
pub open spec fn leaf_spawn(d: SpellData) -> (ProjectileTeam, SpellModel, Option<ParticleAsset>, ProjectileStats) {
    match d {
        SpellData::Zap(z) => (
            ProjectileTeam::Player,
            SpellModel::StaticSprite(SpellGFXAsset::Zap),
            Some(ParticleAsset::Zap),
            ProjectileStats {
                radius: 5,
                speed: 200_000,
                damage: z.base_damage,
                num_hits: 1,
                lifetime: 2_000_000_000,
                knockback_force: 200_000,
            },
        ),
        SpellData::Bang(b) => (
            ProjectileTeam::Player,
            SpellModel::Hidden,
            Some(ParticleAsset::Bang),
            ProjectileStats {
                radius: b.radius,
                speed: 0,
                damage: b.base_damage,
                num_hits: 1000,
                lifetime: 50_000_000,
                knockback_force: 100_000,
            },
        ),
        SpellData::ArcaneArrow(a) => (
            ProjectileTeam::Player,
            SpellModel::StaticSprite(SpellGFXAsset::ArcaneArrow),
            Some(ParticleAsset::ArcaneArrow),
            ProjectileStats {
                radius: 5,
                speed: a.speed,
                damage: a.base_damage,
                num_hits: a.num_hits as i64,
                lifetime: 2_000_000_000,
                knockback_force: 100_000,
            },
        ),
        SpellData::SplitterBolts(s) => (
            ProjectileTeam::Player,
            SpellModel::StaticSprite(SpellGFXAsset::SplitterBolts),
            Some(ParticleAsset::SplitterBolts),
            ProjectileStats {
                radius: 5,
                speed: 250_000,
                damage: s.base_damage,
                num_hits: 1,
                lifetime: 2_000_000_000,
                knockback_force: 50_000,
            },
        ),
        _ => (
            ProjectileTeam::Enemy,
            SpellModel::StaticSprite(SpellGFXAsset::Enemy),
            Some(ParticleAsset::Enemy),
            ProjectileStats {
                radius: 5,
                speed: 100_000,
                damage: 1_000,
                num_hits: 1,
                lifetime: 5_000_000_000,
                knockback_force: 200_000,
            },
        ),
    }
}

/// What a leaf template spawns under `ctx`.
pub open spec fn leaf_spawned(ctx: CastModel, d: SpellData) -> SpawnModel {
    let l = leaf_spawn(d);
    spawned(ctx, l.0, l.1, l.2, l.3)
}

/// The team, look and numbers of the projectile a leaf template spawns.
pub fn leaf_params(d: &SpellData) -> (r: (ProjectileTeam, SpellModel, Option<ParticleAsset>, ProjectileStats))
    ensures
        r == leaf_spawn(*d),
{
    match d {
        SpellData::Zap(z) => (
            ProjectileTeam::Player,
            SpellModel::StaticSprite(SpellGFXAsset::Zap),
            Some(ParticleAsset::Zap),
            ProjectileStats {
                radius: 5,
                speed: 200_000,
                damage: z.base_damage,
                num_hits: 1,
                lifetime: 2_000_000_000,
                knockback_force: 200_000,
            },
        ),
        SpellData::Bang(b) => (
            ProjectileTeam::Player,
            SpellModel::Hidden,
            Some(ParticleAsset::Bang),
            ProjectileStats {
                radius: b.radius,
                speed: 0,
                damage: b.base_damage,
                num_hits: 1000,
                lifetime: 50_000_000,
                knockback_force: 100_000,
            },
        ),
        SpellData::ArcaneArrow(a) => (
            ProjectileTeam::Player,
            SpellModel::StaticSprite(SpellGFXAsset::ArcaneArrow),
            Some(ParticleAsset::ArcaneArrow),
            ProjectileStats {
                radius: 5,
                speed: a.speed,
                damage: a.base_damage,
                num_hits: a.num_hits as i64,
                lifetime: 2_000_000_000,
                knockback_force: 100_000,
            },
        ),
        SpellData::SplitterBolts(s) => (
            ProjectileTeam::Player,
            SpellModel::StaticSprite(SpellGFXAsset::SplitterBolts),
            Some(ParticleAsset::SplitterBolts),
            ProjectileStats {
                radius: 5,
                speed: 250_000,
                damage: s.base_damage,
                num_hits: 1,
                lifetime: 2_000_000_000,
                knockback_force: 50_000,
            },
        ),
        _ => (
            ProjectileTeam::Enemy,
            SpellModel::StaticSprite(SpellGFXAsset::Enemy),
            Some(ParticleAsset::Enemy),
            ProjectileStats {
                radius: 5,
                speed: 100_000,
                damage: 1_000,
                num_hits: 1,
                lifetime: 5_000_000_000,
                knockback_force: 200_000,
            },
        ),
    }
}

/// Spawns what leaf template `d` spawns under `context`.
fn spawn_leaf(context: &SpellCastContext, d: &SpellData) -> (r: SpellSpawn)
    ensures
        r@ == leaf_spawned(context@, *d),
{
    let (team, model, particles, stats) = leaf_params(d);
    spawn_spell_projectile(context, team, model, particles, stats)
}

/// The tweak a single-child template pushes before casting its child.
pub open spec fn tweak_of(d: SpellData) -> ProjectileTweak {
    match d {
        SpellData::DmgUp(m) => ProjectileTweak::DamageScale(m.damage_increase),
        SpellData::Piercing(m) => ProjectileTweak::Pierce {
            pierce_increase: m.pierce_increase,
            speed_increase: m.speed_increase,
        },
        SpellData::Lifetime(m) => ProjectileTweak::LifetimeScale(m.lifetime_increase),
        SpellData::Homing(m) => ProjectileTweak::Homing(
            HomingComponent { rate: m.homing_rate, range: m.homing_range, target: m.target },
        ),
        SpellData::Duplicate(m) => ProjectileTweak::DamageScale(m.damage_decrease),
        _ => ProjectileTweak::DamageScale(1000),
    }
}

/// `n` copies of `s`, one after another.
pub open spec fn repeated<A>(s: Seq<A>, n: nat) -> Seq<A> {
    Seq::new(n, |i: int| s).flatten()
}

/// Every projectile that casting tree `t` under `ctx` spawns, in order.
pub open spec fn cast_spec(t: SpellTree, ctx: CastModel) -> Seq<SpawnModel>
    decreases t, 0nat,
{
    match t.data {
        SpellData::Zap(_) | SpellData::Bang(_) | SpellData::ArcaneArrow(_) | SpellData::Enemy => seq![
            leaf_spawned(ctx, t.data),
        ],
        SpellData::SplitterBolts(s) => Seq::new(
            s.projectile_count as nat,
            |i: int| leaf_spawned(widened(ctx, SPLITTER_SPREAD), t.data),
        ),
        SpellData::DmgUp(_) | SpellData::Piercing(_) | SpellData::Lifetime(_) | SpellData::Homing(_) => {
            if t.children.len() == 0 {
                seq![]
            } else {
                cast_spec(t.children[0], pushed(ctx, ModifierModel::Tweak(tweak_of(t.data))))
            }
        },
        SpellData::Duplicate(m) => {
            if t.children.len() == 0 {
                seq![]
            } else {
                let branch = widened(
                    pushed(ctx, ModifierModel::Tweak(tweak_of(t.data))),
                    m.spread_increase,
                );
                repeated(cast_spec(t.children[0], branch), m.bullet_count as nat)
            }
        },
        SpellData::ContactCaster(_) => {
            if t.children.len() == 0 {
                seq![]
            } else {
                cast_spec(
                    t.children[0],
                    pushed(ctx, ModifierModel::CollisionTrigger(t.children.drop_first())),
                )
            }
        },
        SpellData::BurstCast(_) => cast_children(t.children, ctx, t.children.len()),
        SpellData::ScatterCast(m) => cast_children(t.children, widened(ctx, m.spread), t.children.len()),
    }
}

/// What casting the first `n` trees of `cs`, each under `ctx`, spawns.
pub open spec fn cast_children(cs: Seq<SpellTree>, ctx: CastModel, n: nat) -> Seq<SpawnModel>
    decreases cs, n,
{
    if n == 0 || n > cs.len() {
        seq![]
    } else {
        cast_children(cs, ctx, (n - 1) as nat) + cast_spec(cs[n - 1], ctx)
    }
}

/// Whether `d` is a single-child template that only pushes one tweak.
pub open spec fn is_tweak_template(d: SpellData) -> bool {
    d is DmgUp || d is Piercing || d is Lifetime || d is Homing
}

/// Modifiers compose from the leaf outwards: the loadout `[outer, inner, Zap]`
/// compiles to one behaviour whose single projectile has gone through the
/// tweak of `inner` (the one nearest the leaf) first and that of `outer` last.
pub proof fn lemma_modifiers_nearest_leaf_first(
    outer: SpellData,
    inner: SpellData,
    zap: ZapSpellData,
    icons: (usize, usize, usize),
    ctx: CastModel,
)
    requires
        is_tweak_template(outer),
        is_tweak_template(inner),
        ctx.chain.len() == 0,
    ensures
        ({
            let s = seq![
                SpellComponent { data: outer, icon_id: icons.0 },
                SpellComponent { data: inner, icon_id: icons.1 },
                SpellComponent { data: SpellData::Zap(zap), icon_id: icons.2 },
            ];
            let built = parse_all(s, 0);
            let leaf = leaf_spawn(SpellData::Zap(zap));
            &&& built.len() == 1
            &&& cast_spec(built[0], ctx).len() == 1
            &&& cast_spec(built[0], ctx)[0].projectile == ProjectileModel {
                body: tweaked(tweak_of(outer), tweaked(tweak_of(inner), initial_body(leaf.0, leaf.3))),
                collision_trigger: None,
            }
        }),
{
    let s = seq![
        SpellComponent { data: outer, icon_id: icons.0 },
        SpellComponent { data: inner, icon_id: icons.1 },
        SpellComponent { data: SpellData::Zap(zap), icon_id: icons.2 },
    ];
    let z = SpellData::Zap(zap);
    let leaf_tree = node(z, seq![]);
    let mid = node(inner, seq![leaf_tree]);
    let top = node(outer, seq![mid]);
    assert(parse_template(z, s, 3) == (Some(leaf_tree), 3int));
    assert(parse_next(s, 2) == (Some(leaf_tree), 3int));
    assert(parse_template(inner, s, 2) == (Some(mid), 3int));
    assert(parse_next(s, 1) == (Some(mid), 3int));
    assert(parse_template(outer, s, 1) == (Some(top), 3int));
    assert(parse_next(s, 0) == (Some(top), 3int));
    assert(parse_all(s, 3) == Seq::<SpellTree>::empty());
    assert(parse_all(s, 0) =~= seq![top]);
    let c1 = pushed(ctx, ModifierModel::Tweak(tweak_of(outer)));
    let c2 = pushed(c1, ModifierModel::Tweak(tweak_of(inner)));
    assert(cast_spec(top, ctx) == cast_spec(mid, c1));
    assert(cast_spec(mid, c1) == cast_spec(leaf_tree, c2));
    let leaf = leaf_spawn(z);
    let bare = ProjectileModel { body: initial_body(leaf.0, leaf.3), collision_trigger: None };
    assert(c2.chain =~= seq![ModifierModel::Tweak(tweak_of(inner)), ModifierModel::Tweak(tweak_of(outer))]);
    assert(c2.chain.drop_first().drop_first() =~= Seq::<ModifierModel>::empty());
    let m2 = ModifierModel::Tweak(tweak_of(inner));
    let m1 = ModifierModel::Tweak(tweak_of(outer));
    let inner_done = modified(m2, bare);
    let outer_done = modified(m1, inner_done);
    assert(c2.chain.drop_first() =~= seq![m1]);
    assert(apply_chain(Seq::<ModifierModel>::empty(), outer_done) == outer_done);
    assert(apply_chain(seq![m1], inner_done) == apply_chain(seq![m1].drop_first(), outer_done));
    assert(seq![m1].drop_first() =~= Seq::<ModifierModel>::empty());
    assert(apply_chain(c2.chain, bare) == apply_chain(c2.chain.drop_first(), inner_done));
    assert(apply_chain(c2.chain, bare) == outer_done);
    assert(cast_spec(leaf_tree, c2) == seq![leaf_spawned(c2, z)]);
    assert(leaf_spawned(c2, z).projectile == apply_chain(c2.chain, bare));
}

/// Damage modifiers multiply: `[DmgUp(k1), DmgUp(k2), Zap(base)]` spawns one
/// projectile dealing `base × k2 × k1` (ratios in thousandths, each step
/// rounded down and capped).
pub proof fn lemma_damage_modifiers_multiply(k1: u64, k2: u64, base: u64, icons: (usize, usize, usize), ctx: CastModel)
    requires
        ctx.chain.len() == 0,
    ensures
        ({
            let s = seq![
                SpellComponent { data: SpellData::DmgUp(DmgUpSpellModData { damage_increase: k1 }), icon_id: icons.0 },
                SpellComponent { data: SpellData::DmgUp(DmgUpSpellModData { damage_increase: k2 }), icon_id: icons.1 },
                SpellComponent { data: SpellData::Zap(ZapSpellData { base_damage: base }), icon_id: icons.2 },
            ];
            let built = parse_all(s, 0);
            &&& built.len() == 1
            &&& cast_spec(built[0], ctx).len() == 1
            &&& cast_spec(built[0], ctx)[0].projectile.body.damage.damage == scaled(
                scaled(base as nat, k2 as nat),
                k1 as nat,
            )
        }),
{
    lemma_modifiers_nearest_leaf_first(
        SpellData::DmgUp(DmgUpSpellModData { damage_increase: k1 }),
        SpellData::DmgUp(DmgUpSpellModData { damage_increase: k2 }),
        ZapSpellData { base_damage: base },
        icons,
        ctx,
    );
}

/// Appends one request.
fn push_spawn(out: &mut Vec<SpellSpawn>, s: SpellSpawn)
    ensures
        spawn_views(final(out)@) == spawn_views(old(out)@).push(s@),
{
    out.push(s);
    assert(spawn_views(out@) =~= spawn_views(old(out)@).push(s@));
}

impl SpellEffect {
    /// Casts this behaviour under `context`, appending every projectile it
    /// spawns to `spawned`.
    pub fn cast(&self, context: &SpellCastContext, spawned: &mut Vec<SpellSpawn>)
        ensures
            spawn_views(final(spawned)@) == spawn_views(old(spawned)@) + cast_spec(self@, context@),
        decreases self,
    {
        let ghost start = spawn_views(spawned@);
        let ghost t = self@;
        match self {
            SpellEffect::Zap(_) | SpellEffect::Bang(_) | SpellEffect::ArcaneArrow(_) | SpellEffect::Enemy(_) => {
                let r = spawn_leaf(context, &self.template());
                push_spawn(spawned, r);
                assert(spawn_views(spawned@) =~= start + cast_spec(t, context@));
            },
            SpellEffect::SplitterBolts(s) => {
                let mut ctx = context.fresh_clone();
                ctx.add_spread(SPLITTER_SPREAD);
                let data = self.template();
                let ghost one = leaf_spawned(widened(context@, SPLITTER_SPREAD), t.data);
                let mut i: u32 = 0;
                while i < s.projectile_count
                    invariant
                        i <= s.projectile_count,
                        ctx@ == widened(context@, SPLITTER_SPREAD),
                        one == leaf_spawned(widened(context@, SPLITTER_SPREAD), t.data),
                        data == t.data,
                        t == self@,
                        self == SpellEffect::SplitterBolts(*s),
                        spawn_views(spawned@) == start + Seq::new(i as nat, |j: int| one),
                    decreases s.projectile_count - i,
                {
                    let r = spawn_leaf(&ctx, &data);
                    push_spawn(spawned, r);
                    assert(Seq::new((i + 1) as nat, |j: int| one) =~= Seq::new(i as nat, |j: int| one).push(one));
                    i = i + 1;
                }
                assert(Seq::new(i as nat, |j: int| one) =~= cast_spec(t, context@));
                assert(spawn_views(spawned@) == start + cast_spec(t, context@));
            },
            SpellEffect::DmgUp(m) => {
                let mut ctx = context.fresh_clone();
                ctx.add_modifier("DMGUP Mod", SpellModifier::Tweak(ProjectileTweak::DamageScale(m.damage_increase)));
                m.spell.cast(&ctx, spawned);
                assert(spawn_views(spawned@) == start + cast_spec(t, context@));
            },
            SpellEffect::Piercing(m) => {
                let mut ctx = context.fresh_clone();
                ctx.add_modifier(
                    "Penetration Mod",
                    SpellModifier::Tweak(
                        ProjectileTweak::Pierce { pierce_increase: m.pierce_increase, speed_increase: m.speed_increase },
                    ),
                );
                m.spell.cast(&ctx, spawned);
                assert(spawn_views(spawned@) == start + cast_spec(t, context@));
            },
            SpellEffect::Lifetime(m) => {
                let mut ctx = context.fresh_clone();
                ctx.add_modifier("Lifetime Mod", SpellModifier::Tweak(ProjectileTweak::LifetimeScale(m.lifetime_increase)));
                m.spell.cast(&ctx, spawned);
                assert(spawn_views(spawned@) == start + cast_spec(t, context@));
            },
            SpellEffect::Homing(m) => {
                let mut ctx = context.fresh_clone();
                ctx.add_modifier(
                    "Homing Mod",
                    SpellModifier::Tweak(
                        ProjectileTweak::Homing(
                            HomingComponent { rate: m.homing_rate, range: m.homing_range, target: m.target },
                        ),
                    ),
                );
                m.spell.cast(&ctx, spawned);
                assert(spawn_views(spawned@) == start + cast_spec(t, context@));
            },
            SpellEffect::Duplicate(m) => {
                let mut ctx = context.fresh_clone();
                ctx.add_modifier("Duplicate", SpellModifier::Tweak(ProjectileTweak::DamageScale(m.damage_decrease)));
                ctx.add_spread(m.spread_increase);
                let ghost one = cast_spec(t.children[0], ctx@);
                let mut i: u32 = 0;
                while i < m.bullet_count
                    invariant
                        i <= m.bullet_count,
                        one == cast_spec(tree_of_child(m), ctx@),
                        t == self@,
                        self == SpellEffect::Duplicate(*m),
                        spawn_views(spawned@) == start + repeated(one, i as nat),
                    decreases m.bullet_count - i,
                {
                    m.spell.cast(&ctx, spawned);
                    proof {
                        assert(Seq::new((i + 1) as nat, |j: int| one) =~= Seq::new(i as nat, |j: int| one).push(one));
                        Seq::new(i as nat, |j: int| one).lemma_flatten_push(one);
                    }
                    i = i + 1;
                }
                assert(spawn_views(spawned@) == start + cast_spec(t, context@));
            },
            SpellEffect::ContactCaster(c) => {
                let mut ctx = context.fresh_clone();
                ctx.add_modifier("CollisionTrigger", SpellModifier::CollisionTrigger(c.spells_triggered.clone()));
                assert(trees_of(c.spells_triggered@) =~= t.children.drop_first());
                c.trigger_spell.cast(&ctx, spawned);
                assert(spawn_views(spawned@) == start + cast_spec(t, context@));
            },
            SpellEffect::BurstCast(b) => {
                let n = b.spells.len();
                let mut i: usize = 0;
                while i < n
                    invariant
                        i <= n,
                        n == b.spells@.len(),
                        n == t.children.len(),
                        t == self@,
                        self == SpellEffect::BurstCast(*b),
                        spawn_views(spawned@) == start + cast_children(t.children, context@, i as nat),
                    decreases n - i,
                {
                    b.spells[i].cast(context, spawned);
                    assert(t.children[i as int] == tree_of(&*b.spells@[i as int]));
                    i = i + 1;
                }
            },
            SpellEffect::ScatterCast(b) => {
                let mut ctx = context.fresh_clone();
                ctx.add_spread(b.spread);
                let n = b.spells.len();
                let mut i: usize = 0;
                while i < n
                    invariant
                        i <= n,
                        n == b.spells@.len(),
                        n == t.children.len(),
                        t == self@,
                        self == SpellEffect::ScatterCast(*b),
                        ctx@ == widened(context@, b.spread),
                        spawn_views(spawned@) == start + cast_children(t.children, ctx@, i as nat),
                    decreases n - i,
                {
                    b.spells[i].cast(&ctx, spawned);
                    assert(t.children[i as int] == tree_of(&*b.spells@[i as int]));
                    i = i + 1;
                }
            },
        }
    }
}

/// The child tree of a duplicate.
pub open spec fn tree_of_child(m: &crate::effect::Duplicate) -> SpellTree {
    tree_of(&*m.spell)
}

} // verus!
