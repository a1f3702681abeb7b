use std::sync::Arc;

use spellcraft::assets::ProjectileTeam;
use spellcraft::caster::InstantCaster;
use spellcraft::casting::SpellCastValues;
use spellcraft::collision::{detect_projectile_collisions, CollisionHit, Damageable, DamagingProjectile, HealthTarget};
use spellcraft::effect::{SpellEffect, ZapSpell};
use spellcraft::numeric::scale;
use spellcraft::projectile::ProjectileDamage;
use spellcraft::spell::{SpellComponent, SpellData, ZapSpellData};
use spellcraft::storage::{get_spells, pick_index_by_roll, starting_wand, total_weight, SpellPool};
use spellcraft::timer::{CastTimer, RepeatingTimer};
use spellcraft::triggers::{do_collision_trigger, CollisionSpellTrigger, PlayerSpellTrigger, TimerSpellTrigger};

fn projectile(entity: u64, team: ProjectileTeam, damage: u64, hits: i64) -> DamagingProjectile {
    DamagingProjectile {
        entity,
        damage: ProjectileDamage { team, damage, hits_remaining: hits, knockback_force: 200_000 },
    }
}

fn target(entity: u64, team: ProjectileTeam, health: i64, invincible: bool) -> HealthTarget {
    HealthTarget {
        entity,
        damageable: Damageable { team, health, invincibility_timer: Some(500_000_000) },
        invincible,
    }
}

#[test]
fn collision_deals_damage_once_per_tick() {
    let mut ps = vec![projectile(1, ProjectileTeam::Player, 40_000, 1000), projectile(2, ProjectileTeam::Player, 5_000, 1)];
    let mut ts = vec![target(10, ProjectileTeam::Enemy, 100_000, false)];
    let events = vec![(1, 10), (10, 2), (1, 10)];
    let hits = detect_projectile_collisions(&events, &mut ps, &mut ts);
    assert_eq!(
        hits,
        vec![CollisionHit { projectile: 1, target: 10, knockback_force: 200_000, invincibility: Some(500_000_000) }]
    );
    assert_eq!(ts[0].damageable.health, 60_000);
    assert_eq!(ps[0].damage.hits_remaining, 999);
    assert_eq!(ps[1].damage.hits_remaining, 1);
}

#[test]
fn collision_skips_same_team_and_invulnerable() {
    let mut ps = vec![projectile(1, ProjectileTeam::Enemy, 1_000, 1)];
    let mut ts = vec![target(10, ProjectileTeam::Enemy, 3_000, false), target(11, ProjectileTeam::Player, 3_000, true)];
    let events = vec![(1, 10), (11, 1), (1, 99), (98, 99)];
    let hits = detect_projectile_collisions(&events, &mut ps, &mut ts);
    assert!(hits.is_empty());
    assert_eq!(ts[0].damageable.health, 3_000);
    assert_eq!(ts[1].damageable.health, 3_000);
    assert_eq!(ps[0].damage.hits_remaining, 1);
}

#[test]
fn collision_side_order_does_not_matter() {
    let mut ps = vec![projectile(1, ProjectileTeam::Enemy, 1_000, 1)];
    let mut ts = vec![target(20, ProjectileTeam::Player, 3_000, false)];
    let hits = detect_projectile_collisions(&vec![(20, 1)], &mut ps, &mut ts);
    assert_eq!(hits.len(), 1);
    assert_eq!(ts[0].damageable.health, 2_000);
    assert!(ps[0].damage.is_spent());
}

#[test]
fn roll_lands_proportionally() {
    let weights = vec![1u64, 1, 2];
    assert_eq!(total_weight(&weights), 4);
    let picks: Vec<Option<usize>> = (0..5u128).map(|r| pick_index_by_roll(&weights, r)).collect();
    assert_eq!(picks, vec![Some(0), Some(1), Some(2), Some(2), None]);
    assert_eq!(pick_index_by_roll(&vec![0u64, 3], 0), Some(1));
}

fn pool(weights: &[u64]) -> SpellPool {
    let mut p = SpellPool::new();
    let entries: Vec<(SpellComponent, u64)> = weights
        .iter()
        .enumerate()
        .map(|(i, w)| {
            (SpellComponent { data: SpellData::Zap(ZapSpellData { base_damage: i as u64 }), icon_id: i }, *w)
        })
        .collect();
    p.insert_spells(entries);
    p
}

#[test]
fn pick_one_follows_weights() {
    let p = pool(&[1, 1, 2]);
    assert_eq!(p.pick_one_by_roll(2).unwrap().icon_id, 2);
    assert_eq!(p.pick_one_by_roll(1).unwrap().icon_id, 1);
    assert!(p.pick_one_by_roll(4).is_none());
    let n = 20_000;
    let third = (0..n).filter(|_| p.pick_one().unwrap().icon_id == 2).count();
    let share = third as f64 / n as f64;
    assert!(share > 0.45 && share < 0.55, "share of the heaviest entry: {share}");
}

#[test]
fn pick_one_with_no_weight_is_none() {
    assert!(pool(&[0, 0]).pick_one().is_none());
    assert!(pool(&[]).pick_one().is_none());
}

#[test]
fn unique_picks_are_distinct_and_weighted() {
    let p = pool(&[3, 0, 5, 1]);
    for _ in 0..50 {
        let got = p.get_x_random_unique_spell_components(2);
        assert_eq!(got.len(), 2);
        assert_ne!(got[0].icon_id, got[1].icon_id);
        assert!(got.iter().all(|c| c.icon_id != 1));
    }
    let all = p.get_x_random_unique_spell_components(10);
    let mut ids: Vec<usize> = all.iter().map(|c| c.icon_id).collect();
    ids.sort();
    assert_eq!(ids, vec![0, 2, 3]);
}

#[test]
fn catalog_and_starting_wand() {
    let spells = get_spells();
    assert_eq!(spells.len(), 17);
    assert_eq!(spells[0].1, 1);
    assert_eq!(spells[15].1, 100);
    assert_eq!(spells[16].0.data.get_name(), "Homing: Enemies");
    let wand = starting_wand();
    assert_eq!(wand.spell_effects.len(), 1);
    assert_eq!(wand.spell_effects[0].get_name(), "Zap");
}

#[test]
fn scaling_is_per_mille_and_capped() {
    assert_eq!(scale(40_000, 1500), 60_000);
    assert_eq!(scale(40_000, 660), 26_400);
    assert_eq!(scale(u64::MAX, 2000), u64::MAX);
    assert_eq!(scale(7, 0), 0);
}

#[test]
fn one_shot_timer() {
    let mut t = CastTimer::new(0);
    assert!(!t.finished());
    t.tick(0);
    assert!(t.finished());
    let mut t = CastTimer::new(100);
    t.tick(60);
    assert!(!t.finished());
    t.tick(40);
    assert!(t.finished());
    assert_eq!(t.elapsed, 100);
    t.restart(10);
    assert!(!t.finished());
}

#[test]
fn repeating_timer_wraps() {
    let mut t = RepeatingTimer::new(3);
    t.tick(2);
    assert!(!t.just_finished());
    t.tick(5);
    assert!(t.just_finished());
    assert_eq!(t.elapsed, 1);
    t.tick(1);
    assert!(!t.just_finished());
}

fn payload() -> Arc<Vec<Arc<SpellEffect>>> {
    Arc::new(vec![Arc::new(SpellEffect::Zap(ZapSpell { base_damage: 1_000 }))])
}

#[test]
fn player_trigger_keeps_one_caster() {
    let mut t = PlayerSpellTrigger::new(SpellCastValues::new(), payload());
    assert!(t.do_player_trigger(false, false).is_none());
    let c = t.do_player_trigger(true, false).unwrap();
    assert_eq!(c.spell_queue.len(), 1);
    t.attach(42);
    assert!(t.do_player_trigger(true, true).is_none());
    assert_eq!(t.current_caster, Some(42));
    assert!(t.do_player_trigger(true, false).is_some());
    assert_eq!(t.current_caster, None);
}

#[test]
fn timer_trigger_fires_each_period() {
    let mut t = TimerSpellTrigger::new(SpellCastValues::new(), payload(), 3_000_000_000);
    t.tick_timer_trigger(1_000_000_000);
    assert!(t.do_timer_trigger().is_none());
    t.tick_timer_trigger(2_000_000_000);
    assert!(t.do_timer_trigger().is_some());
    t.tick_timer_trigger(1);
    assert!(t.do_timer_trigger().is_none());
}

#[test]
fn collision_trigger_fires_twice_then_not_without_data() {
    let trig = CollisionSpellTrigger::new(payload());
    let mut a: InstantCaster = do_collision_trigger(Some(&trig), true).unwrap();
    let b: InstantCaster = do_collision_trigger(Some(&trig), true).unwrap();
    assert_eq!(a.get_next_cast().len(), 1);
    assert_eq!(a.spell_list.len(), 0);
    assert_eq!(b.spell_list.len(), 1);
    assert!(do_collision_trigger(None, true).is_none());
    assert!(do_collision_trigger(Some(&trig), false).is_none());
}
