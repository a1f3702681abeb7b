use std::sync::Arc;

use spellcraft::assets::{ParticleAsset, ProjectileTeam, SpellModel};
use spellcraft::caster::{do_caster, CasterAction, InstantCaster, SequentialCaster, SpellCaster};
use spellcraft::casting::{SpellCastContext, SpellCastValues, SpellSpawn};
use spellcraft::effect::SpellEffect;
use spellcraft::projectile::HomingTarget;
use spellcraft::spell::{
    build_next, ArcaneArrowSpellData, BangSpellData, BurstCastData, ContactCasterData, DmgUpSpellModData,
    DuplicateData, HomingData, LifetimeData, PiercingData, ScatterCastData, SpellComponent, SpellData,
    SplitterBoltsSpellData, ZapSpellData,
};
use spellcraft::storage::{SpellAddPos, SpellInventory};

fn comp(data: SpellData) -> SpellComponent {
    SpellComponent { data, icon_id: 0 }
}

fn zap(d: u64) -> SpellComponent {
    comp(SpellData::Zap(ZapSpellData { base_damage: d }))
}

fn dmg_up(k: u64) -> SpellComponent {
    comp(SpellData::DmgUp(DmgUpSpellModData { damage_increase: k }))
}

fn burst(n: usize) -> SpellComponent {
    comp(SpellData::BurstCast(BurstCastData { spell_count: n }))
}

fn inventory(spells: Vec<SpellComponent>) -> SpellInventory {
    let mut inv = SpellInventory::new();
    for s in spells {
        inv.push_spell(s);
    }
    inv
}

fn context() -> SpellCastContext {
    SpellCastContext { caster: 7, spell_delay: 0, values: SpellCastValues::new() }
}

fn cast_all(effect: &SpellEffect) -> Vec<SpellSpawn> {
    let mut out = Vec::new();
    effect.cast(&context(), &mut out);
    out
}

fn names(inv: &SpellInventory) -> Vec<String> {
    inv.spell_effects.iter().map(|e| e.get_name()).collect()
}

#[test]
fn rebuild_twice_gives_same_names() {
    let mut inv = inventory(vec![dmg_up(1500), zap(40_000), burst(2), zap(1_000), zap(2_000), zap(3_000)]);
    let first = names(&inv);
    inv.rebuild_effects();
    let second = names(&inv);
    assert_eq!(first, second);
    assert_eq!(first, vec!["DMG UP".to_string(), "Burst 2".to_string(), "Zap".to_string()]);
}

#[test]
fn modifier_alone_builds_nothing() {
    let inv = inventory(vec![dmg_up(1500)]);
    assert_eq!(inv.spell_effects.len(), 0);
    let spells = vec![dmg_up(1500)];
    let (built, next) = build_next(&spells, 0);
    assert!(built.is_none());
    assert_eq!(next, 1);
}

#[test]
fn failed_slot_keeps_earlier_slots() {
    let inv = inventory(vec![zap(1_000), zap(2_000), dmg_up(1500)]);
    assert_eq!(names(&inv), vec!["Zap".to_string(), "Zap".to_string()]);
}

#[test]
fn damage_modifiers_multiply() {
    let inv = inventory(vec![dmg_up(1500), dmg_up(2000), zap(40_000)]);
    assert_eq!(inv.spell_effects.len(), 1);
    let out = cast_all(&inv.spell_effects[0]);
    assert_eq!(out.len(), 1);
    assert_eq!(out[0].projectile.body.damage.damage, 120_000);
    assert_eq!(out[0].caster, 7);
    assert_eq!(out[0].model, SpellModel::StaticSprite(spellcraft::assets::SpellGFXAsset::Zap));
    assert_eq!(out[0].particles, Some(ParticleAsset::Zap));
}

#[test]
fn nearest_modifier_applies_first() {
    let outer = comp(SpellData::Homing(HomingData { homing_range: 100, homing_rate: 100, target: HomingTarget::ClosestEnemy }));
    let inner = comp(SpellData::Homing(HomingData { homing_range: 50, homing_rate: 990, target: HomingTarget::PlayerOrbit }));
    let inv = inventory(vec![outer, inner, zap(40_000)]);
    let out = cast_all(&inv.spell_effects[0]);
    let homing = out[0].projectile.body.homing.unwrap();
    assert_eq!(homing.target, HomingTarget::ClosestEnemy);
    assert_eq!(homing.range, 100);
}

#[test]
fn piercing_and_lifetime_modifiers() {
    let pierce = comp(SpellData::Piercing(PiercingData { pierce_increase: 1, speed_increase: 1250 }));
    let life = comp(SpellData::Lifetime(LifetimeData { lifetime_increase: 1500 }));
    let arrow = comp(SpellData::ArcaneArrow(ArcaneArrowSpellData { base_damage: 30_000, speed: 400_000, num_hits: 3 }));
    let inv = inventory(vec![pierce, life, arrow]);
    let out = cast_all(&inv.spell_effects[0]);
    let body = out[0].projectile.body;
    assert_eq!(body.damage.hits_remaining, 4);
    assert_eq!(body.speed, 500_000);
    assert_eq!(body.lifetime, 3_000_000_000);
}

#[test]
fn duplicate_casts_child_several_times() {
    let dup = comp(SpellData::Duplicate(DuplicateData { spread_increase: 40, bullet_count: 3, damage_decrease: 500 }));
    let inv = inventory(vec![dup, dmg_up(2000), zap(40_000)]);
    assert_eq!(names(&inv), vec!["Dupe: 3".to_string()]);
    let out = cast_all(&inv.spell_effects[0]);
    assert_eq!(out.len(), 3);
    for s in &out {
        assert_eq!(s.projectile.body.damage.damage, 40_000);
        assert_eq!(s.spread, 40);
    }
}

#[test]
fn burst_short_of_children_builds_nothing() {
    let inv = inventory(vec![burst(4), zap(1_000), zap(2_000)]);
    assert!(inv.spell_effects.is_empty());
    let spells = vec![zap(40_000)];
    let (built, next) = SpellData::BurstCast(BurstCastData { spell_count: 3 }).build(&spells, 0);
    assert!(built.is_none());
    assert_eq!(next, 1);
    let full = inventory(vec![burst(2), zap(1_000), zap(2_000)]);
    let out = cast_all(&full.spell_effects[0]);
    let damages: Vec<u64> = out.iter().map(|s| s.projectile.body.damage.damage).collect();
    assert_eq!(damages, vec![1_000, 2_000]);
}

#[test]
fn burst_branches_do_not_share_modifiers() {
    let inv = inventory(vec![burst(2), dmg_up(2000), zap(1_000), zap(5_000)]);
    let out = cast_all(&inv.spell_effects[0]);
    let damages: Vec<u64> = out.iter().map(|s| s.projectile.body.damage.damage).collect();
    assert_eq!(damages, vec![2_000, 5_000]);
}

#[test]
fn scatter_adds_spread_to_every_child() {
    let scatter = comp(SpellData::ScatterCast(ScatterCastData { spell_count: 2, spread: 45 }));
    let inv = inventory(vec![scatter, zap(1_000), zap(2_000)]);
    assert_eq!(names(&inv), vec!["Scatter 2".to_string()]);
    let out = cast_all(&inv.spell_effects[0]);
    assert_eq!(out.len(), 2);
    assert!(out.iter().all(|s| s.spread == 45));
}

#[test]
fn splitter_fires_its_bolts() {
    let split = comp(SpellData::SplitterBolts(SplitterBoltsSpellData { base_damage: 20_000, projectile_count: 3 }));
    let inv = inventory(vec![split]);
    let out = cast_all(&inv.spell_effects[0]);
    assert_eq!(out.len(), 3);
    assert!(out.iter().all(|s| s.spread == 30 && s.projectile.body.speed == 250_000));
}

#[test]
fn bang_is_hidden_and_wide() {
    let bang = comp(SpellData::Bang(BangSpellData { base_damage: 40_000, radius: 30 }));
    let inv = inventory(vec![bang]);
    let out = cast_all(&inv.spell_effects[0]);
    assert_eq!(out[0].model, SpellModel::Hidden);
    assert_eq!(out[0].projectile.body.radius, 30);
    assert_eq!(out[0].projectile.body.damage.hits_remaining, 1000);
    assert_eq!(out[0].projectile.body.lifetime, 50_000_000);
}

#[test]
fn contact_caster_attaches_payload() {
    let contact = comp(SpellData::ContactCaster(ContactCasterData { spells_triggered: 1 }));
    let inv = inventory(vec![contact, zap(1_000), zap(2_000), zap(3_000)]);
    assert_eq!(names(&inv), vec!["Collision Trigger".to_string(), "Zap".to_string()]);
    let out = cast_all(&inv.spell_effects[0]);
    assert_eq!(out.len(), 1);
    assert_eq!(out[0].projectile.body.damage.damage, 1_000);
    let payload = out[0].projectile.collision_trigger.as_ref().unwrap();
    assert_eq!(payload.len(), 1);
    assert_eq!(payload[0].get_name(), "Zap");
}

#[test]
fn contact_caster_without_its_payload_builds_nothing() {
    let contact = comp(SpellData::ContactCaster(ContactCasterData { spells_triggered: 1 }));
    let inv = inventory(vec![contact, zap(1_000)]);
    assert!(inv.spell_effects.is_empty());
    let scatter = comp(SpellData::ScatterCast(ScatterCastData { spell_count: 3, spread: 45 }));
    let inv = inventory(vec![zap(5_000), scatter, zap(1_000), zap(2_000)]);
    assert_eq!(names(&inv), vec!["Zap".to_string()]);
}

#[test]
fn contact_caster_without_trigger_spell_builds_nothing() {
    let contact = comp(SpellData::ContactCaster(ContactCasterData { spells_triggered: 2 }));
    let inv = inventory(vec![zap(1_000), contact]);
    assert_eq!(names(&inv), vec!["Zap".to_string()]);
}

#[test]
fn insert_positions() {
    let mut inv = inventory(vec![zap(1_000)]);
    inv.insert_spell(dmg_up(2000), SpellAddPos::Start);
    assert_eq!(names(&inv), vec!["DMG UP".to_string()]);
    inv.insert_spell(zap(3_000), SpellAddPos::End);
    inv.insert_spell(burst(2), SpellAddPos::Index(2));
    assert_eq!(inv.spells.len(), 4);
    assert_eq!(names(&inv), vec!["DMG UP".to_string()]);
    inv.push_spell(zap(4_000));
    assert_eq!(names(&inv), vec!["DMG UP".to_string(), "Burst 2".to_string()]);
    assert_eq!(SpellAddPos::End.get_index(&inv.spells), 5);
}

#[test]
fn homing_names() {
    assert_eq!(HomingTarget::ClosestEnemy.get_name(), "Enemies");
    assert_eq!(HomingTarget::PlayerOrbit.get_name(), "Player");
    let h = SpellData::Homing(HomingData { homing_range: 100, homing_rate: 100, target: HomingTarget::ClosestEnemy });
    assert_eq!(h.get_name(), "Homing: Enemies");
    assert_eq!(SpellData::Enemy.get_name(), "Enemy");
    assert_eq!(burst(12).data.get_name(), "Burst 12");
}

#[test]
fn enemy_spell_is_enemy_team() {
    let e = SpellEffect::Enemy(spellcraft::effect::EnemySpell);
    let out = cast_all(&e);
    assert_eq!(out[0].projectile.body.damage.team, ProjectileTeam::Enemy);
    assert_eq!(out[0].projectile.body.damage.damage, 1_000);
}

fn behaviours(n: usize) -> Vec<Arc<SpellEffect>> {
    (0..n).map(|i| Arc::new(SpellEffect::Zap(spellcraft::effect::ZapSpell { base_damage: (i as u64 + 1) * 1_000 }))).collect()
}

#[test]
fn sequential_cadence() {
    let spell_gap: u64 = 100_000_000;
    let cycle_gap: u64 = 500_000_000;
    let mut caster = SpellCaster::Sequential(SequentialCaster::new(SpellCastValues::new(), &behaviours(3)));
    let step: u64 = 10_000_000;
    let mut now: u64 = 0;
    let mut cast_times: Vec<(u64, u64)> = Vec::new();
    let mut despawned_at = None;
    while now <= 2_000_000_000 {
        caster.tick(if now == 0 { 0 } else { step });
        match do_caster(&mut caster, 1) {
            CasterAction::Cast(out) => {
                for s in out {
                    cast_times.push((now, s.projectile.body.damage.damage));
                }
            },
            CasterAction::Despawn => {
                despawned_at = Some(now);
                break;
            },
            CasterAction::Idle => {},
        }
        now += step;
    }
    assert_eq!(cast_times, vec![(0, 1_000), (spell_gap, 2_000), (2 * spell_gap, 3_000)]);
    assert_eq!(despawned_at, Some(2 * spell_gap + cycle_gap));
}

#[test]
fn instant_caster_fires_once() {
    let mut c = InstantCaster::new(SpellCastValues::new(), &behaviours(3));
    assert_eq!(c.get_next_cast().len(), 3);
    assert_eq!(c.get_next_cast().len(), 0);
    let mut caster = SpellCaster::Instant(InstantCaster::new(SpellCastValues::new(), &behaviours(2)));
    match do_caster(&mut caster, 3) {
        CasterAction::Cast(out) => assert_eq!(out.len(), 2),
        _ => panic!("expected a cast"),
    }
    assert!(matches!(do_caster(&mut caster, 3), CasterAction::Despawn));
}

#[test]
fn descriptions() {
    assert_eq!(zap(40_000).data.get_desc(), "Fires a jolt of energy dealing: 40 damage.");
    assert_eq!(dmg_up(1500).data.get_desc(), "The next spells gains: \n- Damage: +50%");
    let dup = SpellData::Duplicate(DuplicateData { spread_increase: 20, bullet_count: 2, damage_decrease: 660 });
    assert_eq!(dup.get_desc(), "The next spells gains: \n- Bullets: +2\n- Spread: +20\n- Damage: -34%");
    let bang = SpellData::Bang(BangSpellData { base_damage: 40_000, radius: 30 });
    assert_eq!(bang.get_desc(), "Explodes dealing: 40 damage in a 30 radius.");
    assert_eq!(burst(3).data.get_desc(), "Casts the following 3 spells at the same time.");
}
