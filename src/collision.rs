//! Collision resolution: turns a tick's contact events into damage, hit
//! counts and downstream hit events.

use vstd::prelude::*;

use crate::assets::ProjectileTeam;
use crate::projectile::ProjectileDamage;

verus! {

/// Something that takes damage.
#[derive(Clone, Copy, Debug, PartialEq, Eq, Structural)]
pub struct Damageable {
    pub team: ProjectileTeam,
    /// Health in thousandths of a point.
    pub health: i64,
    /// Invulnerability, in nanoseconds, granted after each hit.
    pub invincibility_timer: Option<u64>,
}

/// A damageable object this tick.
#[derive(Clone, Copy, Debug, PartialEq, Eq, Structural)]
pub struct HealthTarget {
    pub entity: u64,
    pub damageable: Damageable,
    /// Whether it is invulnerable right now.
    pub invincible: bool,
}

/// A damaging object this tick.
#[derive(Clone, Copy, Debug, PartialEq, Eq, Structural)]
pub struct DamagingProjectile {
    pub entity: u64,
    pub damage: ProjectileDamage,
}

/// One accepted hit, for the caller to act on: knock the target back along
/// target minus projectile, start its invulnerability if it has one, and
/// emit the projectile-collision and hit-by-projectile events.
#[derive(Clone, Copy, Debug, PartialEq, Eq, Structural)]
pub struct CollisionHit {
    pub projectile: u64,
    pub target: u64,
    pub knockback_force: u64,
    pub invincibility: Option<u64>,
}

/// Index of the first projectile of `ps[..n]` on object `id`, or -1.
pub open spec fn find_projectile(ps: Seq<DamagingProjectile>, id: u64, n: int) -> int
    decreases n,
{
    if n <= 0 {
        -1
    } else {
        let k = find_projectile(ps, id, n - 1);
        if k >= 0 {
            k
        } else if ps[n - 1].entity == id {
            n - 1
        } else {
            -1
        }
    }
}

/// Index of the first target of `ts[..n]` on object `id`, or -1.
pub open spec fn find_target(ts: Seq<HealthTarget>, id: u64, n: int) -> int
    decreases n,
{
    if n <= 0 {
        -1
    } else {
        let k = find_target(ts, id, n - 1);
        if k >= 0 {
            k
        } else if ts[n - 1].entity == id {
            n - 1
        } else {
            -1
        }
    }
}

/// Health after taking `d`, kept within `i64`.
pub open spec fn health_after(h: int, d: int) -> int {
    if h - d < i64::MIN as int {
        i64::MIN as int
    } else {
        h - d
    }
}

/// Hit counter after one hit, kept within `i64`.
pub open spec fn hits_after(h: int) -> int {
    if h > i64::MIN as int {
        h - 1
    } else {
        h
    }
}

pub struct ResolveState {
    pub projectiles: Seq<DamagingProjectile>,
    pub targets: Seq<HealthTarget>,
    /// Targets already hit this tick.
    pub hit_ids: Seq<u64>,
    pub hits: Seq<CollisionHit>,
}

/// Which side of a contact is the projectile and which the target, as
/// indices, or `None` when the pair is not a projectile and a target.
pub open spec fn sides(st: ResolveState, e: (u64, u64)) -> Option<(int, int)> {
    let proj_first = find_projectile(st.projectiles, e.0, st.projectiles.len() as int);
    let target_second = find_target(st.targets, e.1, st.targets.len() as int);
    let proj_second = find_projectile(st.projectiles, e.1, st.projectiles.len() as int);
    let target_first = find_target(st.targets, e.0, st.targets.len() as int);
    if proj_first >= 0 && target_second >= 0 {
        Some((proj_first, target_second))
    } else if proj_second >= 0 && target_first >= 0 {
        Some((proj_second, target_first))
    } else {
        None
    }
}

/// One contact event: same-team pairs, invulnerable targets and targets
/// already hit this tick are left alone; otherwise damage is dealt, the
/// projectile's hit counter goes down and a hit is recorded.
pub open spec fn resolve_step(st: ResolveState, e: (u64, u64)) -> ResolveState {
    match sides(st, e) {
        None => st,
        Some((pi, hi)) => {
            let p = st.projectiles[pi];
            let h = st.targets[hi];
            if h.damageable.team == p.damage.team || h.invincible || st.hit_ids.contains(h.entity) {
                st
            } else {
                ResolveState {
                    projectiles: st.projectiles.update(
                        pi,
                        DamagingProjectile {
                            damage: ProjectileDamage {
                                hits_remaining: hits_after(p.damage.hits_remaining as int) as i64,
                                ..p.damage
                            },
                            ..p
                        },
                    ),
                    targets: st.targets.update(
                        hi,
                        HealthTarget {
                            damageable: Damageable {
                                health: health_after(h.damageable.health as int, p.damage.damage as int) as i64,
                                ..h.damageable
                            },
                            ..h
                        },
                    ),
                    hit_ids: st.hit_ids.push(h.entity),
                    hits: st.hits.push(
                        CollisionHit {
                            projectile: p.entity,
                            target: h.entity,
                            knockback_force: p.damage.knockback_force,
                            invincibility: h.damageable.invincibility_timer,
                        },
                    ),
                }
            }
        },
    }
}

/// All of a tick's contact events, in order.
pub open spec fn resolve(st: ResolveState, es: Seq<(u64, u64)>) -> ResolveState
    decreases es.len(),
{
    if es.len() == 0 {
        st
    } else {
        resolve(resolve_step(st, es[0]), es.drop_first())
    }
}

fn index_of_projectile(ps: &Vec<DamagingProjectile>, id: u64) -> (r: Option<usize>)
    ensures
        match r {
            Some(i) => find_projectile(ps@, id, ps@.len() as int) == i as int && i < ps@.len(),
            None => find_projectile(ps@, id, ps@.len() as int) == -1,
        },
{
    let mut i: usize = 0;
    while i < ps.len()
        invariant
            i <= ps.len(),
            find_projectile(ps@, id, i as int) == -1,
        decreases ps.len() - i,
    {
        if ps[i].entity == id {
            proof {
                lemma_find_projectile_stable(ps@, id, i as int + 1, ps@.len() as int);
            }
            return Some(i);
        }
        i = i + 1;
    }
    None
}

proof fn lemma_find_projectile_stable(ps: Seq<DamagingProjectile>, id: u64, m: int, n: int)
    requires
        0 < m <= n <= ps.len(),
        find_projectile(ps, id, m) >= 0,
    ensures
        find_projectile(ps, id, n) == find_projectile(ps, id, m),
    decreases n - m,
{
    if n > m {
        lemma_find_projectile_stable(ps, id, m, n - 1);
    }
}

fn index_of_target(ts: &Vec<HealthTarget>, id: u64) -> (r: Option<usize>)
    ensures
        match r {
            Some(i) => find_target(ts@, id, ts@.len() as int) == i as int && i < ts@.len(),
            None => find_target(ts@, id, ts@.len() as int) == -1,
        },
{
    let mut i: usize = 0;
    while i < ts.len()
        invariant
            i <= ts.len(),
            find_target(ts@, id, i as int) == -1,
        decreases ts.len() - i,
    {
        if ts[i].entity == id {
            proof {
                lemma_find_target_stable(ts@, id, i as int + 1, ts@.len() as int);
            }
            return Some(i);
        }
        i = i + 1;
    }
    None
}

proof fn lemma_find_target_stable(ts: Seq<HealthTarget>, id: u64, m: int, n: int)
    requires
        0 < m <= n <= ts.len(),
        find_target(ts, id, m) >= 0,
    ensures
        find_target(ts, id, n) == find_target(ts, id, m),
    decreases n - m,
{
    if n > m {
        lemma_find_target_stable(ts, id, m, n - 1);
    }
}

fn contains_id(ids: &Vec<u64>, id: u64) -> (r: bool)
    ensures
        r == ids@.contains(id),
{
    let mut i: usize = 0;
    while i < ids.len()
        invariant
            i <= ids.len(),
            forall|k: int| 0 <= k < i ==> ids@[k] != id,
        decreases ids.len() - i,
    {
        if ids[i] == id {
            return true;
        }
        i = i + 1;
    }
    false
}

/// Resolves one tick's contact events (pairs of object ids) against the
/// damaging and damageable objects, updating both in place, and returns the
/// accepted hits in order.
pub fn detect_projectile_collisions(
    collisions: &Vec<(u64, u64)>,
    projectiles: &mut Vec<DamagingProjectile>,
    targets: &mut Vec<HealthTarget>,
) -> (r: Vec<CollisionHit>)
    ensures
        ({
            let st = resolve(
                ResolveState { projectiles: old(projectiles)@, targets: old(targets)@, hit_ids: seq![], hits: seq![] },
                collisions@,
            );
            &&& final(projectiles)@ == st.projectiles
            &&& final(targets)@ == st.targets
            &&& r@ == st.hits
        }),
{
    let ghost start = ResolveState {
        projectiles: projectiles@,
        targets: targets@,
        hit_ids: seq![],
        hits: seq![],
    };
    let mut hit_ids: Vec<u64> = Vec::new();
    let mut hits: Vec<CollisionHit> = Vec::new();
    let mut i: usize = 0;
    assert(collisions@.subrange(0, collisions@.len() as int) =~= collisions@);
    assert(hit_ids@ =~= Seq::<u64>::empty());
    assert(hits@ =~= Seq::<CollisionHit>::empty());
    while i < collisions.len()
        invariant
            i <= collisions.len(),
            resolve(start, collisions@) == resolve(
                ResolveState { projectiles: projectiles@, targets: targets@, hit_ids: hit_ids@, hits: hits@ },
                collisions@.subrange(i as int, collisions@.len() as int),
            ),
        decreases collisions.len() - i,
    {
        let ghost cur = ResolveState { projectiles: projectiles@, targets: targets@, hit_ids: hit_ids@, hits: hits@ };
        let e = collisions[i];
        proof {
            assert(collisions@.subrange(i as int, collisions@.len() as int).drop_first() =~= collisions@.subrange(
                i as int + 1,
                collisions@.len() as int,
            ));
        }
        let proj_first = index_of_projectile(projectiles, e.0);
        let target_second = index_of_target(targets, e.1);
        let proj_second = index_of_projectile(projectiles, e.1);
        let target_first = index_of_target(targets, e.0);
        let pair: Option<(usize, usize)> = if proj_first.is_some() && target_second.is_some() {
            Some((proj_first.unwrap(), target_second.unwrap()))
        } else if proj_second.is_some() && target_first.is_some() {
            Some((proj_second.unwrap(), target_first.unwrap()))
        } else {
            None
        };
        match pair {
            None => {
                assert(resolve_step(cur, e) == cur);
            },
            Some((pi, hi)) => {
                let p = projectiles[pi];
                let h = targets[hi];
                let seen = contains_id(&hit_ids, h.entity);
                if h.damageable.team == p.damage.team || h.invincible || seen {
                    assert(resolve_step(cur, e) == cur);
                } else {
                    let hits_left = if p.damage.hits_remaining > i64::MIN {
                        p.damage.hits_remaining - 1
                    } else {
                        p.damage.hits_remaining
                    };
                    let wide: i128 = h.damageable.health as i128 - p.damage.damage as i128;
                    let health = if wide < i64::MIN as i128 {
                        i64::MIN
                    } else {
                        wide as i64
                    };
                    projectiles.set(
                        pi,
                        DamagingProjectile {
                            entity: p.entity,
                            damage: ProjectileDamage {
                                team: p.damage.team,
                                damage: p.damage.damage,
                                hits_remaining: hits_left,
                                knockback_force: p.damage.knockback_force,
                            },
                        },
                    );
                    targets.set(
                        hi,
                        HealthTarget {
                            entity: h.entity,
                            damageable: Damageable {
                                team: h.damageable.team,
                                health,
                                invincibility_timer: h.damageable.invincibility_timer,
                            },
                            invincible: h.invincible,
                        },
                    );
                    hit_ids.push(h.entity);
                    hits.push(
                        CollisionHit {
                            projectile: p.entity,
                            target: h.entity,
                            knockback_force: p.damage.knockback_force,
                            invincibility: h.damageable.invincibility_timer,
                        },
                    );
                    assert(resolve_step(cur, e) == ResolveState {
                        projectiles: projectiles@,
                        targets: targets@,
                        hit_ids: hit_ids@,
                        hits: hits@,
                    });
                }
            },
        }
        i = i + 1;
    }
    assert(collisions@.subrange(i as int, collisions@.len() as int) =~= Seq::<(u64, u64)>::empty());
    hits
}

} // verus!
