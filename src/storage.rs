//! The spell pool (catalog with rarity weights) and the player's inventory
//! (flat loadout plus its compiled behaviours).
//!
//! Rarity weights are direct-proportional: an entry of weight `w` is drawn
//! with probability `w / total`, so a larger weight is more likely and a
//! weight of zero is never drawn.

use rand::Rng;
use std::sync::Arc;
use vstd::prelude::*;

use crate::effect::{tree_of, trees_of, SpellEffect};
use crate::projectile::HomingTarget;
use crate::spell::{
    build_next, parse_all, template_name, ArcaneArrowSpellData, BangSpellData, BurstCastData, ContactCasterData,
    DmgUpSpellModData, DuplicateData, HomingData, LifetimeData, PiercingData, ScatterCastData, SpellComponent,
    SpellData, SplitterBoltsSpellData, ZapSpellData,
};

verus! {

/// Relies on rand's `thread_rng()` and `Rng::gen_range`: a value drawn from
/// `0..bound`. `gen_range` panics on an empty range, hence `bound > 0`.
#[verifier::external_body]
fn roll_below(bound: u128) -> (r: u128)
    requires
        bound > 0,
    ensures
        r < bound,
{
    rand::thread_rng().gen_range(0..bound)
}

/// Sum of the first `n` weights.
pub open spec fn weight_sum(w: Seq<u64>, n: int) -> nat
    decreases n,
{
    if n <= 0 || n > w.len() {
        0
    } else {
        (weight_sum(w, n - 1) + w[n - 1]) as nat
    }
}

proof fn lemma_weight_sum_bound(w: Seq<u64>, n: int)
    requires
        0 <= n <= w.len(),
    ensures
        weight_sum(w, n) <= n * (u64::MAX as int),
    decreases n,
{
    if n > 0 {
        lemma_weight_sum_bound(w, n - 1);
        assert((n - 1) * (u64::MAX as int) + (u64::MAX as int) == n * (u64::MAX as int)) by (nonlinear_arith);
    }
}

proof fn lemma_weight_sum_monotone(w: Seq<u64>, m: int, n: int)
    requires
        0 <= m <= n <= w.len(),
    ensures
        weight_sum(w, m) <= weight_sum(w, n),
    decreases n - m,
{
    if n > m {
        lemma_weight_sum_monotone(w, m, n - 1);
    }
}

/// Sum of all weights.
pub fn total_weight(weights: &Vec<u64>) -> (r: u128)
    ensures
        r == weight_sum(weights@, weights@.len() as int),
{
    let mut acc: u128 = 0;
    let mut i: usize = 0;
    while i < weights.len()
        invariant
            i <= weights.len(),
            acc == weight_sum(weights@, i as int),
        decreases weights.len() - i,
    {
        proof {
            lemma_weight_sum_bound(weights@, i as int + 1);
            assert((i as int + 1) * (u64::MAX as int) <= (usize::MAX as int) * (u64::MAX as int)) by (nonlinear_arith)
                requires
                    i < usize::MAX,
            ;
        }
        acc = acc + weights[i] as u128;
        i = i + 1;
    }
    acc
}

/// The entry a roll in `0..total` lands on: the first index whose running
/// weight sum exceeds the roll. Entry `i` is hit by exactly `weights[i]`
/// rolls.
pub fn pick_index_by_roll(weights: &Vec<u64>, roll: u128) -> (r: Option<usize>)
    ensures
        match r {
            Some(i) => i < weights@.len() && weight_sum(weights@, i as int) <= roll
                < weight_sum(weights@, i as int + 1),
            None => roll >= weight_sum(weights@, weights@.len() as int),
        },
{
    let mut acc: u128 = 0;
    let mut i: usize = 0;
    while i < weights.len()
        invariant
            i <= weights.len(),
            acc == weight_sum(weights@, i as int),
            roll >= acc,
        decreases weights.len() - i,
    {
        proof {
            lemma_weight_sum_bound(weights@, i as int + 1);
            assert((i as int + 1) * (u64::MAX as int) <= (usize::MAX as int) * (u64::MAX as int)) by (nonlinear_arith)
                requires
                    i < usize::MAX,
            ;
        }
        let next = acc + weights[i] as u128;
        if roll < next {
            return Some(i);
        }
        acc = next;
        i = i + 1;
    }
    None
}

/// Rolls in `0..total` split into one interval per entry: every roll lands
/// on exactly one entry, and entry `i` takes exactly `weights[i]` rolls, so
/// a uniform roll draws it with probability `weights[i] / total`.
pub proof fn lemma_roll_partition(w: Seq<u64>, roll: int, i: int, j: int)
    requires
        0 <= i < w.len(),
        0 <= j < w.len(),
        weight_sum(w, i) <= roll < weight_sum(w, i + 1),
        weight_sum(w, j) <= roll < weight_sum(w, j + 1),
    ensures
        i == j,
        weight_sum(w, i + 1) - weight_sum(w, i) == w[i],
{
    if i < j {
        lemma_weight_sum_monotone(w, i + 1, j);
    } else if j < i {
        lemma_weight_sum_monotone(w, j + 1, i);
    }
}

/// The index a roll lands on among weights `w`: the one whose interval of
/// the running sum holds the roll, or -1 when the roll is not below the
/// total.
pub open spec fn landing(w: Seq<u64>, roll: int) -> int {
    if exists|i: int| 0 <= i < w.len() && #[trigger] weight_sum(w, i) <= roll < weight_sum(w, i + 1) {
        choose|i: int| 0 <= i < w.len() && #[trigger] weight_sum(w, i) <= roll < weight_sum(w, i + 1)
    } else {
        -1
    }
}

proof fn lemma_pick_is_landing(w: Seq<u64>, roll: int, r: Option<usize>)
    requires
        match r {
            Some(i) => i < w.len() && weight_sum(w, i as int) <= roll < weight_sum(w, i as int + 1),
            None => roll >= weight_sum(w, w.len() as int),
        },
    ensures
        match r {
            Some(i) => landing(w, roll) == i as int,
            None => landing(w, roll) == -1,
        },
{
    match r {
        Some(i) => {
            let j = landing(w, roll);
            lemma_roll_partition(w, roll, i as int, j);
        },
        None => {
            if exists|i: int| 0 <= i < w.len() && #[trigger] weight_sum(w, i) <= roll < weight_sum(w, i + 1) {
                let i = choose|i: int| 0 <= i < w.len() && #[trigger] weight_sum(w, i) <= roll < weight_sum(w, i + 1);
                lemma_weight_sum_monotone(w, i + 1, w.len() as int);
            }
        },
    }
}

/// The weights of the candidate entries, in candidate order.
pub open spec fn weights_at(w: Seq<u64>, cands: Seq<usize>) -> Seq<u64> {
    Seq::new(cands.len(), |i: int| w[cands[i] as int])
}

/// Indices of the positive weights among the first `n`, in order.
pub open spec fn positive_indices(w: Seq<u64>, n: int) -> Seq<usize>
    decreases n,
{
    if n <= 0 || n > w.len() {
        seq![]
    } else if w[n - 1] > 0 {
        positive_indices(w, n - 1).push((n - 1) as usize)
    } else {
        positive_indices(w, n - 1)
    }
}

/// Candidates drawn and candidates left after each of `rolls`, starting
/// from `start`: a roll that lands takes its candidate out; one that does
/// not changes nothing.
pub open spec fn draw_state(w: Seq<u64>, start: Seq<usize>, rolls: Seq<u128>) -> (Seq<usize>, Seq<usize>)
    decreases rolls.len(),
{
    if rolls.len() == 0 {
        (seq![], start)
    } else {
        let prev = draw_state(w, start, rolls.drop_last());
        let j = landing(weights_at(w, prev.1), rolls.last() as int);
        if j < 0 {
            prev
        } else {
            (prev.0.push(prev.1[j]), prev.1.remove(j))
        }
    }
}

/// The weights of `candidates`, in order.
pub fn candidate_weights(weights: &Vec<u64>, candidates: &Vec<usize>) -> (r: Vec<u64>)
    requires
        forall|a: int| 0 <= a < candidates@.len() ==> #[trigger] candidates@[a] < weights@.len(),
    ensures
        r@ == weights_at(weights@, candidates@),
{
    let mut cw: Vec<u64> = Vec::new();
    let mut j: usize = 0;
    while j < candidates.len()
        invariant
            j <= candidates@.len(),
            cw@.len() == j,
            forall|a: int| 0 <= a < candidates@.len() ==> #[trigger] candidates@[a] < weights@.len(),
            forall|a: int| 0 <= a < j ==> #[trigger] cw@[a] == weights@[candidates@[a] as int],
        decreases candidates@.len() - j,
    {
        cw.push(weights[candidates[j]]);
        j = j + 1;
    }
    assert(cw@ =~= weights_at(weights@, candidates@));
    cw
}

/// One draw without replacement: the position, among `candidates`, of the
/// candidate a roll lands on, weighting each candidate by its weight.
pub fn draw_one(weights: &Vec<u64>, candidates: &Vec<usize>, roll: u128) -> (r: Option<usize>)
    requires
        forall|a: int| 0 <= a < candidates@.len() ==> #[trigger] candidates@[a] < weights@.len(),
    ensures
        match r {
            Some(j) => landing(weights_at(weights@, candidates@), roll as int) == j as int,
            None => landing(weights_at(weights@, candidates@), roll as int) == -1,
        },
        roll < weight_sum(weights_at(weights@, candidates@), candidates@.len() as int) ==> r is Some,
{
    let cw = candidate_weights(weights, candidates);
    let r = pick_index_by_roll(&cw, roll);
    proof {
        lemma_pick_is_landing(cw@, roll as int, r);
    }
    r
}

/// The entry of `spells` a roll lands on.
pub open spec fn picked(spells: Seq<(SpellComponent, u64)>, roll: int) -> Option<SpellComponent> {
    let j = landing(spells.map_values(|e: (SpellComponent, u64)| e.1), roll);
    if j < 0 {
        None
    } else {
        Some(spells[j].0)
    }
}

/// Number of positive weights among the first `n`.
pub open spec fn count_positive(w: Seq<u64>, n: int) -> nat
    decreases n,
{
    if n <= 0 || n > w.len() {
        0
    } else {
        count_positive(w, n - 1) + if w[n - 1] > 0 { 1nat } else { 0nat }
    }
}

pub struct SpellPool {
    pub spells: Vec<(SpellComponent, u64)>,
}

impl SpellPool {
    pub fn new() -> (r: SpellPool)
        ensures
            r.spells@.len() == 0,
    {
        SpellPool { spells: Vec::new() }
    }

    /// The weights, in order.
    pub open spec fn weights(&self) -> Seq<u64> {
        self.spells@.map_values(|e: (SpellComponent, u64)| e.1)
    }

    fn weight_list(&self) -> (r: Vec<u64>)
        ensures
            r@ == self.weights(),
    {
        let mut w: Vec<u64> = Vec::new();
        let mut i: usize = 0;
        while i < self.spells.len()
            invariant
                i <= self.spells.len(),
                w@ == self.weights().subrange(0, i as int),
            decreases self.spells.len() - i,
        {
            w.push(self.spells[i].1);
            i = i + 1;
        }
        assert(w@ =~= self.weights());
        w
    }

    /// Appends catalog entries.
    pub fn insert_spells(&mut self, spells: Vec<(SpellComponent, u64)>)
        ensures
            final(self).spells@ == old(self).spells@ + spells@,
    {
        let mut spells = spells;
        self.spells.append(&mut spells);
    }

    /// The entry a roll in `0..total` lands on (see `pick_index_by_roll`).
    pub fn pick_one_by_roll(&self, roll: u128) -> (r: Option<SpellComponent>)
        ensures
            match r {
                Some(c) => exists|i: int|
                    0 <= i < self.spells@.len() && weight_sum(self.weights(), i) <= roll < weight_sum(
                        self.weights(),
                        i + 1,
                    ) && c == self.spells@[i].0,
                None => roll >= weight_sum(self.weights(), self.spells@.len() as int),
            },
            r == picked(self.spells@, roll as int),
    {
        let w = self.weight_list();
        let i = pick_index_by_roll(&w, roll);
        proof {
            lemma_pick_is_landing(w@, roll as int, i);
        }
        match i {
            Some(i) => Some(self.spells[i].0),
            None => None,
        }
    }

    /// A random entry, drawn with probability proportional to its weight;
    /// `None` when all weights are zero.
    pub fn pick_one(&self) -> (r: Option<SpellComponent>)
        ensures
            r.is_some() <==> weight_sum(self.weights(), self.spells@.len() as int) > 0,
            r matches Some(c) ==> exists|i: int|
                0 <= i < self.spells@.len() && self.spells@[i].1 > 0 && c == self.spells@[i].0,
            r is Some ==> exists|roll: u128|
                roll < weight_sum(self.weights(), self.spells@.len() as int) && r == picked(
                    self.spells@,
                    roll as int,
                ),
    {
        let w = self.weight_list();
        let total = total_weight(&w);
        if total == 0 {
            return None;
        }
        let roll = roll_below(total);
        let r = self.pick_one_by_roll(roll);
        assert(r is Some);
        r
    }

    /// Up to `x` distinct entries, drawn one after another without
    /// replacement, each with probability proportional to its weight among
    /// those left. Entries of weight zero are never drawn.
    pub fn get_x_random_unique_spell_components(&self, x: usize) -> (r: Vec<SpellComponent>)
        ensures
            r@.len() == if (x as nat) < count_positive(self.weights(), self.spells@.len() as int) {
                x as nat
            } else {
                count_positive(self.weights(), self.spells@.len() as int)
            },
            exists|idx: Seq<int>|
                #![trigger idx.len()]
                idx.len() == r@.len() && idx.no_duplicates() && (forall|k: int|
                    0 <= k < idx.len() ==> 0 <= #[trigger] idx[k] < self.spells@.len() && self.spells@[idx[k]].1
                        > 0 && r@[k] == self.spells@[idx[k]].0),
            exists|rolls: Seq<u128>|
                #![trigger rolls.len()]
                rolls.len() == r@.len() && r@ == draw_state(
                    self.weights(),
                    positive_indices(self.weights(), self.spells@.len() as int),
                    rolls,
                ).0.map_values(|k: usize| self.spells@[k as int].0),
    {
        let w = self.weight_list();
        let n = w.len();
        let mut candidates: Vec<usize> = Vec::new();
        let mut i: usize = 0;
        while i < n
            invariant
                i <= n,
                n == w@.len(),
                w@ == self.weights(),
                candidates@.len() == count_positive(w@, i as int),
                candidates@ == positive_indices(w@, i as int),
                forall|a: int, b: int| 0 <= a < b < candidates@.len() ==> candidates@[a] < candidates@[b],
                forall|a: int|
                    0 <= a < candidates@.len() ==> #[trigger] candidates@[a] < i && w@[candidates@[a] as int] > 0,
            decreases n - i,
        {
            if w[i] > 0 {
                candidates.push(i);
            }
            i = i + 1;
        }
        let ghost npos = count_positive(w@, n as int);
        let ghost start = candidates@;
        let ghost rolls: Seq<u128> = seq![];
        let mut chosen: Vec<usize> = Vec::new();
        let mut out: Vec<SpellComponent> = Vec::new();
        proof {
            assert(candidates@.no_duplicates()) by {
                assert forall|a: int, b: int|
                    0 <= a < candidates@.len() && 0 <= b < candidates@.len() && a != b implies candidates@[a]
                        != candidates@[b] by {
                    if a < b {
                    } else {
                    }
                }
            }
        }
        while out.len() < x && candidates.len() > 0
            invariant
                n == w@.len(),
                w@ == self.weights(),
                n == self.spells@.len(),
                candidates@.len() + chosen@.len() == npos,
                out@.len() == chosen@.len(),
                out@.len() <= x,
                rolls.len() == chosen@.len(),
                (chosen@, candidates@) == draw_state(w@, start, rolls),
                candidates@.no_duplicates(),
                chosen@.no_duplicates(),
                forall|a: int| 0 <= a < candidates@.len() ==> !chosen@.contains(#[trigger] candidates@[a]),
                forall|a: int|
                    0 <= a < candidates@.len() ==> #[trigger] candidates@[a] < n && w@[candidates@[a] as int] > 0,
                forall|k: int|
                    0 <= k < chosen@.len() ==> #[trigger] chosen@[k] < n && w@[chosen@[k] as int] > 0 && out@[k]
                        == self.spells@[chosen@[k] as int].0,
            decreases candidates@.len(),
        {
            let cw = candidate_weights(&w, &candidates);
            let total = total_weight(&cw);
            proof {
                assert(cw@[0] > 0);
                lemma_weight_sum_monotone(cw@, 1, cw@.len() as int);
                assert(weight_sum(cw@, 1) == weight_sum(cw@, 0) + cw@[0]);
            }
            let roll = roll_below(total);
            let k = draw_one(&w, &candidates, roll).unwrap();
            proof {
                let rolls2 = rolls.push(roll);
                assert(rolls2.drop_last() =~= rolls);
                rolls = rolls2;
            }
            let ghost before = candidates@;
            let ghost chosen_before = chosen@;
            let idx = candidates.remove(k);
            proof {
                assert(idx == before[k as int]);
                assert(!chosen_before.contains(idx));
                assert forall|a: int| 0 <= a < candidates@.len() implies candidates@[a] == before[if a < k {
                    a
                } else {
                    a + 1
                }] by {}
                assert forall|a: int| 0 <= a < candidates@.len() implies !chosen_before.push(idx).contains(
                    #[trigger] candidates@[a],
                ) by {
                    let b = if a < k { a } else { a + 1 };
                    assert(candidates@[a] == before[b]);
                    assert(before[b] != before[k as int]);
                    assert(!chosen_before.contains(before[b]));
                    if chosen_before.push(idx).contains(candidates@[a]) {
                        let z = choose|z: int| 0 <= z < chosen_before.push(idx).len() && chosen_before.push(idx)[z] == candidates@[a];
                        if z < chosen_before.len() {
                            assert(chosen_before[z] == candidates@[a]);
                        }
                    }
                }
                assert forall|a: int, c: int|
                    0 <= a < candidates@.len() && 0 <= c < candidates@.len() && a != c implies candidates@[a]
                        != candidates@[c] by {
                    let b1 = if a < k { a } else { a + 1 };
                    let b2 = if c < k { c } else { c + 1 };
                    assert(candidates@[a] == before[b1]);
                    assert(candidates@[c] == before[b2]);
                }
                assert(chosen_before.push(idx).no_duplicates()) by {
                    assert forall|a: int, c: int|
                        0 <= a < chosen_before.push(idx).len() && 0 <= c < chosen_before.push(idx).len() && a != c
                            implies chosen_before.push(idx)[a] != chosen_before.push(idx)[c] by {
                        if a < chosen_before.len() && c < chosen_before.len() {
                        } else if a < chosen_before.len() {
                            assert(chosen_before.contains(chosen_before[a]));
                        } else if c < chosen_before.len() {
                            assert(chosen_before.contains(chosen_before[c]));
                        }
                    }
                }
            }
            chosen.push(idx);
            out.push(self.spells[idx].0);
        }
        proof {
            let idx_seq = chosen@.map_values(|u: usize| u as int);
            assert(idx_seq.no_duplicates()) by {
                assert forall|a: int, c: int|
                    0 <= a < idx_seq.len() && 0 <= c < idx_seq.len() && a != c implies idx_seq[a] != idx_seq[c] by {
                    assert(chosen@[a] != chosen@[c]);
                }
            }
            assert(idx_seq.len() == out@.len());
            assert(forall|k: int| 0 <= k < idx_seq.len() ==> #[trigger] idx_seq[k] == chosen@[k] as int);
            assert(out@ =~= chosen@.map_values(|k: usize| self.spells@[k as int].0));
        }
        out
    }
}

/// The catalog of draftable spells with their rarity weights.
pub open spec fn spell_catalog() -> Seq<(SpellComponent, u64)> {
    seq![
        (SpellComponent { data: SpellData::Zap(ZapSpellData { base_damage: 40_000 }), icon_id: 0 }, 1u64),
        (SpellComponent { data: SpellData::Bang(BangSpellData { base_damage: 40_000, radius: 30 }), icon_id: 3 }, 20u64),
        (SpellComponent { data: SpellData::ArcaneArrow(ArcaneArrowSpellData { base_damage: 30_000, speed: 400_000, num_hits: 3 }), icon_id: 1 }, 5u64),
        (SpellComponent { data: SpellData::SplitterBolts(SplitterBoltsSpellData { base_damage: 20_000, projectile_count: 3 }), icon_id: 2 }, 10u64),
        (SpellComponent { data: SpellData::DmgUp(DmgUpSpellModData { damage_increase: 1500 }), icon_id: 12 }, 5u64),
        (SpellComponent { data: SpellData::Piercing(PiercingData { pierce_increase: 1, speed_increase: 1250 }), icon_id: 15 }, 5u64),
        (SpellComponent { data: SpellData::Lifetime(LifetimeData { lifetime_increase: 1500 }), icon_id: 16 }, 5u64),
        (SpellComponent { data: SpellData::Duplicate(DuplicateData { spread_increase: 20, bullet_count: 2, damage_decrease: 660 }), icon_id: 17 }, 10u64),
        (SpellComponent { data: SpellData::Duplicate(DuplicateData { spread_increase: 40, bullet_count: 3, damage_decrease: 500 }), icon_id: 18 }, 20u64),
        (SpellComponent { data: SpellData::ContactCaster(ContactCasterData { spells_triggered: 1 }), icon_id: 24 }, 10u64),
        (SpellComponent { data: SpellData::ScatterCast(ScatterCastData { spell_count: 2, spread: 30 }), icon_id: 26 }, 10u64),
        (SpellComponent { data: SpellData::ScatterCast(ScatterCastData { spell_count: 3, spread: 45 }), icon_id: 27 }, 25u64),
        (SpellComponent { data: SpellData::ScatterCast(ScatterCastData { spell_count: 4, spread: 90 }), icon_id: 28 }, 80u64),
        (SpellComponent { data: SpellData::BurstCast(BurstCastData { spell_count: 2 }), icon_id: 29 }, 15u64),
        (SpellComponent { data: SpellData::BurstCast(BurstCastData { spell_count: 3 }), icon_id: 30 }, 30u64),
        (SpellComponent { data: SpellData::BurstCast(BurstCastData { spell_count: 4 }), icon_id: 28 }, 100u64),
        (SpellComponent { data: SpellData::Homing(HomingData { homing_range: 100, homing_rate: 100, target: HomingTarget::ClosestEnemy }), icon_id: 36 }, 15u64),
    ]
}

/// The catalog of draftable spells with their rarity weights.
pub fn get_spells() -> (r: Vec<(SpellComponent, u64)>)
    ensures
        r@ == spell_catalog(),
{
    let r: Vec<(SpellComponent, u64)> = vec![
        (SpellComponent { data: SpellData::Zap(ZapSpellData { base_damage: 40_000 }), icon_id: 0 }, 1),
        (SpellComponent { data: SpellData::Bang(BangSpellData { base_damage: 40_000, radius: 30 }), icon_id: 3 }, 20),
        (SpellComponent { data: SpellData::ArcaneArrow(ArcaneArrowSpellData { base_damage: 30_000, speed: 400_000, num_hits: 3 }), icon_id: 1 }, 5),
        (SpellComponent { data: SpellData::SplitterBolts(SplitterBoltsSpellData { base_damage: 20_000, projectile_count: 3 }), icon_id: 2 }, 10),
        (SpellComponent { data: SpellData::DmgUp(DmgUpSpellModData { damage_increase: 1500 }), icon_id: 12 }, 5),
        (SpellComponent { data: SpellData::Piercing(PiercingData { pierce_increase: 1, speed_increase: 1250 }), icon_id: 15 }, 5),
        (SpellComponent { data: SpellData::Lifetime(LifetimeData { lifetime_increase: 1500 }), icon_id: 16 }, 5),
        (SpellComponent { data: SpellData::Duplicate(DuplicateData { spread_increase: 20, bullet_count: 2, damage_decrease: 660 }), icon_id: 17 }, 10),
        (SpellComponent { data: SpellData::Duplicate(DuplicateData { spread_increase: 40, bullet_count: 3, damage_decrease: 500 }), icon_id: 18 }, 20),
        (SpellComponent { data: SpellData::ContactCaster(ContactCasterData { spells_triggered: 1 }), icon_id: 24 }, 10),
        (SpellComponent { data: SpellData::ScatterCast(ScatterCastData { spell_count: 2, spread: 30 }), icon_id: 26 }, 10),
        (SpellComponent { data: SpellData::ScatterCast(ScatterCastData { spell_count: 3, spread: 45 }), icon_id: 27 }, 25),
        (SpellComponent { data: SpellData::ScatterCast(ScatterCastData { spell_count: 4, spread: 90 }), icon_id: 28 }, 80),
        (SpellComponent { data: SpellData::BurstCast(BurstCastData { spell_count: 2 }), icon_id: 29 }, 15),
        (SpellComponent { data: SpellData::BurstCast(BurstCastData { spell_count: 3 }), icon_id: 30 }, 30),
        (SpellComponent { data: SpellData::BurstCast(BurstCastData { spell_count: 4 }), icon_id: 28 }, 100),
        (SpellComponent { data: SpellData::Homing(HomingData { homing_range: 100, homing_rate: 100, target: HomingTarget::ClosestEnemy }), icon_id: 36 }, 15),
    ];
    assert(r@ =~= spell_catalog());
    r
}

/// Where a new descriptor goes in the loadout.
#[derive(Clone, Copy, Debug, PartialEq, Eq, Structural)]
pub enum SpellAddPos {
    Start,
    End,
    Index(usize),
}

/// The position `pos` stands for in a loadout of `len` descriptors.
pub open spec fn add_index(pos: SpellAddPos, len: nat) -> nat {
    match pos {
        SpellAddPos::Start => 0,
        SpellAddPos::End => len,
        SpellAddPos::Index(i) => i as nat,
    }
}

impl SpellAddPos {
    pub fn get_index(&self, spells: &Vec<SpellComponent>) -> (r: usize)
        ensures
            r as nat == add_index(*self, spells@.len()),
    {
        match self {
            SpellAddPos::Start => 0,
            SpellAddPos::End => spells.len(),
            SpellAddPos::Index(i) => *i,
        }
    }
}

/// The player's loadout and its compiled top-level behaviours.
pub struct SpellInventory {
    pub spells: Vec<SpellComponent>,
    pub spell_effects: Vec<Arc<SpellEffect>>,
}

impl SpellInventory {
    /// Whether the compiled list is what the loadout builds to.
    pub open spec fn wf(&self) -> bool {
        trees_of(self.spell_effects@) == parse_all(self.spells@, 0)
    }

    pub fn new() -> (r: SpellInventory)
        ensures
            r.spells@.len() == 0,
            r.spell_effects@.len() == 0,
            r.wf(),
    {
        let r = SpellInventory { spells: Vec::new(), spell_effects: Vec::new() };
        assert(trees_of(r.spell_effects@) =~= parse_all(r.spells@, 0));
        r
    }

    /// Recompiles the loadout: pop-and-build until the stream ends or a
    /// build fails, keeping every slot built before.
    pub fn rebuild_effects(&mut self)
        ensures
            final(self).spells@ == old(self).spells@,
            final(self).wf(),
    {
        self.spell_effects = Vec::new();
        let mut pos: usize = 0;
        while pos < self.spells.len()
            invariant
                pos <= self.spells@.len(),
                self.spells@ == old(self).spells@,
                trees_of(self.spell_effects@) + parse_all(self.spells@, pos as int) == parse_all(self.spells@, 0),
            decreases self.spells@.len() - pos,
        {
            let (e, next) = build_next(&self.spells, pos);
            match e {
                Some(e) => {
                    proof {
                        assert(trees_of(self.spell_effects@.push(e)) =~= trees_of(self.spell_effects@).push(
                            crate::effect::tree_of(&*e),
                        ));
                        assert(trees_of(self.spell_effects@) + parse_all(self.spells@, pos as int) =~= trees_of(
                            self.spell_effects@,
                        ).push(crate::effect::tree_of(&*e)) + parse_all(self.spells@, next as int));
                    }
                    self.spell_effects.push(e);
                    pos = next;
                },
                None => {
                    assert(trees_of(self.spell_effects@) + parse_all(self.spells@, pos as int) =~= trees_of(
                        self.spell_effects@,
                    ));
                    return;
                },
            }
        }
        assert(trees_of(self.spell_effects@) + parse_all(self.spells@, pos as int) =~= trees_of(
            self.spell_effects@,
        ));
    }

    /// Appends a descriptor and recompiles.
    pub fn push_spell(&mut self, spell: SpellComponent)
        ensures
            final(self).spells@ == old(self).spells@.push(spell),
            final(self).wf(),
    {
        self.spells.push(spell);
        self.rebuild_effects();
    }

    /// Inserts a descriptor at `pos` and recompiles.
    pub fn insert_spell(&mut self, spell: SpellComponent, pos: SpellAddPos)
        requires
            add_index(pos, old(self).spells@.len()) <= old(self).spells@.len(),
        ensures
            final(self).spells@ == old(self).spells@.insert(add_index(pos, old(self).spells@.len()) as int, spell),
            final(self).wf(),
    {
        let i = pos.get_index(&self.spells);
        self.spells.insert(i, spell);
        self.rebuild_effects();
    }
}

/// The loadout a new wand starts with: a single Zap.
pub fn starting_wand() -> (r: SpellInventory)
    ensures
        r.spells@ == seq![SpellComponent { data: SpellData::Zap(ZapSpellData { base_damage: 40_000 }), icon_id: 0 }],
        r.wf(),
{
    let mut inv = SpellInventory::new();
    inv.push_spell(SpellComponent { data: SpellData::Zap(ZapSpellData { base_damage: 40_000 }), icon_id: 0 });
    assert(inv.spells@ =~= seq![SpellComponent { data: SpellData::Zap(ZapSpellData { base_damage: 40_000 }), icon_id: 0 }]);
    inv
}

/// Compiling is deterministic: two inventories holding the same loadout
/// hold the same compiled trees, hence lists of equal length whose names
/// agree slot by slot.
pub proof fn lemma_rebuild_deterministic(x: &SpellInventory, y: &SpellInventory)
    requires
        x.wf(),
        y.wf(),
        x.spells@ == y.spells@,
    ensures
        trees_of(x.spell_effects@) == trees_of(y.spell_effects@),
        x.spell_effects@.len() == y.spell_effects@.len(),
        forall|i: int|
            0 <= i < x.spell_effects@.len() ==> template_name(tree_of(&*x.spell_effects@[i]).data) == template_name(
                #[trigger] tree_of(&*y.spell_effects@[i]).data,
            ),
{
    assert(trees_of(x.spell_effects@).len() == x.spell_effects@.len());
    assert(trees_of(y.spell_effects@).len() == y.spell_effects@.len());
    assert forall|i: int| 0 <= i < x.spell_effects@.len() implies template_name(
        tree_of(&*x.spell_effects@[i]).data,
    ) == template_name(#[trigger] tree_of(&*y.spell_effects@[i]).data) by {
        assert(trees_of(x.spell_effects@)[i] == trees_of(y.spell_effects@)[i]);
        assert(trees_of(x.spell_effects@)[i] == tree_of(&*x.spell_effects@[i]));
        assert(trees_of(y.spell_effects@)[i] == tree_of(&*y.spell_effects@[i]));
    }
}

} // verus!
