//! What becomes of the projectiles in one simulation tick: which are removed,
//! which deal damage, and which leave a debug trail.
use vstd::prelude::*;

verus! {

/// Value of the trail counter at the start of every tick.
pub const TRAIL_COUNTER_START: i32 = 3;

/// Remainder of `a` by `b` truncated toward zero, as Rust's `%` computes it.
pub open spec fn trunc_rem(a: int, b: int) -> int {
    if a >= 0 {
        a % b
    } else {
        -((-a) % b)
    }
}

/// The trail counter after one more projectile was counted.
pub fn next_trail_counter(count: i32) -> (next: i32)
    requires
        count > i32::MIN,
    ensures
        next == trunc_rem(count - 1, 3),
{
    (count - 1) % 3
}

/// How one projectile fared in a tick, in the order the projectiles are met.
#[derive(Clone, Copy, Debug, PartialEq, Eq, Structural)]
pub enum ProjectileOutcome {
    /// Its lifetime ran out; it is not traced against the world.
    Expired,
    /// Its path this tick struck a body.
    Hit,
    /// Its path this tick struck nothing.
    Missed,
}

/// The trail counter after `k` projectiles were counted in a tick.
pub open spec fn counter_after(k: nat) -> int {
    if k < 3 {
        3 - k
    } else {
        -((k % 3) as int)
    }
}

/// Number of projectiles among the first `i` that were traced (not expired).
pub open spec fn traced_before(outcomes: Seq<ProjectileOutcome>, i: int) -> nat
    decreases i,
{
    if i <= 0 {
        0
    } else if outcomes[i - 1] == ProjectileOutcome::Expired {
        traced_before(outcomes, i - 1)
    } else {
        traced_before(outcomes, i - 1) + 1
    }
}

/// The projectile at `i` is removed: it expired or struck a body.
pub open spec fn is_removed(outcomes: Seq<ProjectileOutcome>, i: int) -> bool {
    outcomes[i] != ProjectileOutcome::Missed
}

/// The projectile at `i` deals damage to the body it struck.
pub open spec fn is_hit(outcomes: Seq<ProjectileOutcome>, i: int) -> bool {
    outcomes[i] == ProjectileOutcome::Hit
}

/// The projectile at `i` leaves a debug trail: it was traced, and it is the
/// third, sixth, ninth, ... traced projectile of the tick.
pub open spec fn leaves_trail(outcomes: Seq<ProjectileOutcome>, i: int) -> bool {
    outcomes[i] != ProjectileOutcome::Expired && traced_before(outcomes, i + 1) % 3 == 0
}

/// `list` names, in increasing order and once each, exactly the indices
/// below `n` that satisfy `pred`.
pub open spec fn lists_exactly(list: Seq<usize>, n: int, pred: spec_fn(int) -> bool) -> bool {
    &&& forall|k: int| 0 <= k < list.len() ==> 0 <= #[trigger] list[k] < n && pred(list[k] as int)
    &&& forall|k1: int, k2: int| 0 <= k1 < k2 < list.len() ==> list[k1] < list[k2]
    &&& forall|i: int| 0 <= i < n && #[trigger] pred(i) ==> list.contains(i as usize)
}

/// The decisions of one projectile tick, by index into the projectiles.
pub struct ProjectileTick {
    /// Projectiles to remove from the world.
    pub despawn: Vec<usize>,
    /// Projectiles whose damage goes to the body they struck.
    pub hits: Vec<usize>,
    /// Projectiles whose path this tick is drawn as a debug line.
    pub trails: Vec<usize>,
}

/// Decides, from how each projectile fared, which are removed, which deal
/// damage and which leave a debug trail.
pub fn plan_projectile_tick(outcomes: &Vec<ProjectileOutcome>) -> (tick: ProjectileTick)
    ensures
        lists_exactly(tick.despawn@, outcomes.len() as int, |i: int| is_removed(outcomes@, i)),
        lists_exactly(tick.hits@, outcomes.len() as int, |i: int| is_hit(outcomes@, i)),
        lists_exactly(tick.trails@, outcomes.len() as int, |i: int| leaves_trail(outcomes@, i)),
        tick.trails@.len() == traced_before(outcomes@, outcomes.len() as int) / 3,
        forall|i: int|
            0 <= i < outcomes.len() ==> (tick.hits@.contains(i as usize) <==> outcomes[i]
                == ProjectileOutcome::Hit),
        forall|i: int|
            0 <= i < outcomes.len() ==> (tick.despawn@.contains(i as usize) <==> outcomes[i]
                != ProjectileOutcome::Missed),
        forall|i: int|
            0 <= i < outcomes.len() && #[trigger] tick.trails@.contains(i as usize)
                ==> outcomes[i] != ProjectileOutcome::Expired,
{
    let ghost o = outcomes@;
    let mut despawn: Vec<usize> = Vec::new();
    let mut hits: Vec<usize> = Vec::new();
    let mut trails: Vec<usize> = Vec::new();
    let mut count: i32 = TRAIL_COUNTER_START;
    let n = outcomes.len();
    let mut i: usize = 0;
    while i < n
        invariant
            n == outcomes.len(),
            o == outcomes@,
            0 <= i <= n,
            count == counter_after(traced_before(o, i as int)),
            traced_before(o, i as int) <= i,
            lists_exactly(despawn@, i as int, |j: int| is_removed(o, j)),
            lists_exactly(hits@, i as int, |j: int| is_hit(o, j)),
            lists_exactly(trails@, i as int, |j: int| leaves_trail(o, j)),
            trails@.len() == traced_before(o, i as int) / 3,
        decreases n - i,
    {
        let outcome = outcomes[i];
        let ghost before = traced_before(o, i as int);
        let ghost old_despawn = despawn@;
        let ghost old_hits = hits@;
        let ghost old_trails = trails@;
        proof {
            lemma_counter_step(before);
        }
        if outcome == ProjectileOutcome::Expired {
            despawn.push(i);
        } else {
            if outcome == ProjectileOutcome::Hit {
                hits.push(i);
                despawn.push(i);
            }
            count = next_trail_counter(count);
            if count == 0 {
                trails.push(i);
            }
        }
        proof {
            assert forall|j: int| 0 <= j < i + 1 && is_removed(o, j) implies despawn@.contains(
                j as usize,
            ) by {
                if j == i {
                    assert(despawn@[despawn@.len() - 1] == i);
                } else {
                    assert((|x: int| is_removed(o, x))(j));
                    assert(old_despawn.contains(j as usize));
                    let k = choose|k: int| 0 <= k < old_despawn.len() && old_despawn[k] == j;
                    assert(despawn@[k] == j);
                }
            }
            assert forall|j: int| 0 <= j < i + 1 && is_hit(o, j) implies hits@.contains(
                j as usize,
            ) by {
                if j == i {
                    assert(hits@[hits@.len() - 1] == i);
                } else {
                    assert((|x: int| is_hit(o, x))(j));
                    assert(old_hits.contains(j as usize));
                    let k = choose|k: int| 0 <= k < old_hits.len() && old_hits[k] == j;
                    assert(hits@[k] == j);
                }
            }
            assert forall|j: int| 0 <= j < i + 1 && leaves_trail(o, j) implies trails@.contains(
                j as usize,
            ) by {
                if j == i {
                    assert(trails@[trails@.len() - 1] == i);
                } else {
                    assert((|x: int| leaves_trail(o, x))(j));
                    assert(old_trails.contains(j as usize));
                    let k = choose|k: int| 0 <= k < old_trails.len() && old_trails[k] == j;
                    assert(trails@[k] == j);
                }
            }
        }
        i = i + 1;
    }
    proof {
        lemma_listed_hits_and_removals(o, despawn@, hits@, trails@);
    }
    ProjectileTick { despawn, hits, trails }
}

/// Lists that name exactly the removed, the hitting and the trailing
/// projectiles name a projectile as dealing damage exactly when it struck a
/// body, and as removed exactly when it expired or struck a body, whatever
/// the trail counter says of it; and no expired projectile leaves a trail.
pub proof fn lemma_listed_hits_and_removals(
    outcomes: Seq<ProjectileOutcome>,
    despawn: Seq<usize>,
    hits: Seq<usize>,
    trails: Seq<usize>,
)
    requires
        outcomes.len() <= usize::MAX,
        lists_exactly(despawn, outcomes.len() as int, |i: int| is_removed(outcomes, i)),
        lists_exactly(hits, outcomes.len() as int, |i: int| is_hit(outcomes, i)),
        lists_exactly(trails, outcomes.len() as int, |i: int| leaves_trail(outcomes, i)),
    ensures
        forall|i: int|
            0 <= i < outcomes.len() ==> (hits.contains(i as usize) <==> outcomes[i]
                == ProjectileOutcome::Hit),
        forall|i: int|
            0 <= i < outcomes.len() ==> (despawn.contains(i as usize) <==> outcomes[i]
                != ProjectileOutcome::Missed),
        forall|i: int|
            0 <= i < outcomes.len() && #[trigger] trails.contains(i as usize) ==> outcomes[i]
                != ProjectileOutcome::Expired,
{
    assert forall|i: int| 0 <= i < outcomes.len() implies (hits.contains(i as usize)
        <==> outcomes[i] == ProjectileOutcome::Hit) by {
        if hits.contains(i as usize) {
            let k = choose|k: int| 0 <= k < hits.len() && hits[k] == i as usize;
            assert((|j: int| is_hit(outcomes, j))(hits[k] as int));
        }
        if outcomes[i] == ProjectileOutcome::Hit {
            assert((|j: int| is_hit(outcomes, j))(i));
        }
    }
    assert forall|i: int| 0 <= i < outcomes.len() implies (despawn.contains(i as usize)
        <==> outcomes[i] != ProjectileOutcome::Missed) by {
        if despawn.contains(i as usize) {
            let k = choose|k: int| 0 <= k < despawn.len() && despawn[k] == i as usize;
            assert((|j: int| is_removed(outcomes, j))(despawn[k] as int));
        }
        if outcomes[i] != ProjectileOutcome::Missed {
            assert((|j: int| is_removed(outcomes, j))(i));
        }
    }
    assert forall|i: int| 0 <= i < outcomes.len() && #[trigger] trails.contains(i as usize)
        implies outcomes[i] != ProjectileOutcome::Expired by {
        let k = choose|k: int| 0 <= k < trails.len() && trails[k] == i as usize;
        assert((|j: int| leaves_trail(outcomes, j))(trails[k] as int));
    }
}

/// Counting one more traced projectile moves the counter from its value
/// after `k` to its value after `k + 1`, and the counter is zero exactly
/// when a positive multiple of three projectiles were counted.
pub proof fn lemma_counter_step(k: nat)
    ensures
        counter_after(k) > i32::MIN,
        counter_after(k) <= 3,
        trunc_rem(counter_after(k) - 1, 3) == counter_after(k + 1),
        (counter_after(k + 1) == 0) == ((k + 1) % 3 == 0),
{
}

/// A projectile that deals damage is removed in the same tick, and an
/// expired projectile neither deals damage nor leaves a trail.
pub proof fn lemma_hits_are_removed(outcomes: Seq<ProjectileOutcome>, i: int)
    requires
        0 <= i < outcomes.len(),
    ensures
        is_hit(outcomes, i) ==> is_removed(outcomes, i),
        outcomes[i] == ProjectileOutcome::Expired ==> !is_hit(outcomes, i) && !leaves_trail(
            outcomes,
            i,
        ),
{
}

} // verus!
