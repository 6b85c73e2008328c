//! Waves: the scored sub-objectives of a stage, and the weighted draw
//! that selects which enemy kind to spawn.

use vstd::prelude::*;
use crate::enemy::EnemyKind;
use crate::geom::MAX_SPEED;
use crate::timer::MAX_DURATION_MS;

verus! {

/// Largest weight one distribution entry may carry.
pub const MAX_WEIGHT: u32 = 1_000_000;

/// Most entries a distribution may hold.
pub const MAX_DISTRIBUTION_LEN: usize = 1_000;

/// A scored sub-objective: defeat `target_count` enemies, spawned at
/// `spawn_interval_ms` from the weighted kind distribution, all moving
/// at `enemy_speed`.
#[derive(Clone, Debug)]
pub struct Wave {
    pub number: u32,
    /// Qualifying kills accrued so far; never decreases during play.
    pub defeated_count: u32,
    /// Kills required before the wave is complete.
    pub target_count: u32,
    /// Speed of this wave's enemies, in milli-pixels per second.
    pub enemy_speed: i64,
    /// Interval between spawn attempts, in milliseconds.
    pub spawn_interval_ms: u64,
    /// Weighted mapping from enemy kind to its share of the draw, read
    /// in order.
    pub enemy_distribution: Vec<(EnemyKind, u32)>,
}

/// A well-formed distribution: a weighted mapping, so no kind appears
/// twice, every weight bounded and the entry count capped, so weight
/// sums fit comfortably in machine words.
pub open spec fn dist_wf(dist: Seq<(EnemyKind, u32)>) -> bool {
    &&& dist.len() <= MAX_DISTRIBUTION_LEN
    &&& forall|i: int| 0 <= i < dist.len() ==> dist[i].1 <= MAX_WEIGHT
    &&& forall|i: int, j: int| 0 <= i < j < dist.len()
        ==> (#[trigger] dist[i]).0 != (#[trigger] dist[j]).0
}

impl Wave {
    pub open spec fn wf(self) -> bool {
        &&& 0 <= self.enemy_speed <= MAX_SPEED
        &&& 1 <= self.spawn_interval_ms <= MAX_DURATION_MS
        &&& dist_wf(self.enemy_distribution@)
    }
}

/// Sum of the weights of a distribution.
pub open spec fn dist_total(dist: Seq<(EnemyKind, u32)>) -> int
    decreases dist.len(),
{
    if dist.len() == 0 {
        0
    } else {
        dist[0].1 + dist_total(dist.skip(1))
    }
}

/// The kind a draw of `value` selects: weights accumulate in order and
/// the first kind whose cumulative weight strictly exceeds the draw
/// wins; a draw beyond the total (or an empty distribution) falls back
/// to the default kind.
pub open spec fn pick_spec(dist: Seq<(EnemyKind, u32)>, value: int) -> EnemyKind
    decreases dist.len(),
{
    if dist.len() == 0 {
        EnemyKind::DinoStraight
    } else if value < dist[0].1 {
        dist[0].0
    } else {
        pick_spec(dist.skip(1), value - dist[0].1)
    }
}

/// The weight sum is never negative.
pub proof fn lemma_dist_total_nonneg(dist: Seq<(EnemyKind, u32)>)
    ensures
        dist_total(dist) >= 0,
    decreases dist.len(),
{
    if dist.len() > 0 {
        lemma_dist_total_nonneg(dist.skip(1));
    }
}

/// The weight sum is bounded by the entry count times the largest
/// weight.
pub proof fn lemma_dist_total_bound(dist: Seq<(EnemyKind, u32)>)
    requires
        dist_wf(dist),
    ensures
        dist_total(dist) <= dist.len() * MAX_WEIGHT,
    decreases dist.len(),
{
    if dist.len() > 0 {
        assert(dist_wf(dist.skip(1)));
        lemma_dist_total_bound(dist.skip(1));
        assert(dist.len() * MAX_WEIGHT == MAX_WEIGHT + (dist.len() - 1) * MAX_WEIGHT)
            by (nonlinear_arith);
    }
}

/// Computes the weight sum of a distribution.
pub fn dist_total_exec(dist: &Vec<(EnemyKind, u32)>) -> (total: u64)
    requires
        dist_wf(dist@),
    ensures
        total == dist_total(dist@),
{
    proof {
        lemma_dist_total_nonneg(dist@);
    }
    let mut total: u64 = 0;
    let mut i: usize = 0;
    while i < dist.len()
        invariant
            dist_wf(dist@),
            i <= dist@.len(),
            total == dist_total(dist@.take(i as int)),
            total <= i * 1_000_000,
        decreases dist@.len() - i,
    {
        proof {
            assert(dist@.take(i + 1).drop_last() =~= dist@.take(i as int));
            assert(dist@.take(i + 1).last() == dist@[i as int]);
            lemma_dist_total_snoc(dist@.take(i + 1));
        }
        total = total + dist[i].1 as u64;
        i = i + 1;
    }
    proof {
        assert(dist@.take(dist@.len() as int) =~= dist@);
    }
    total
}

/// Splitting the last entry off a non-empty distribution splits its
/// weight sum.
pub proof fn lemma_dist_total_snoc(dist: Seq<(EnemyKind, u32)>)
    requires
        dist.len() > 0,
    ensures
        dist_total(dist) == dist_total(dist.drop_last()) + dist.last().1,
    decreases dist.len(),
{
    if dist.len() == 1 {
        assert(dist.skip(1) =~= Seq::<(EnemyKind, u32)>::empty());
        assert(dist.drop_last() =~= Seq::<(EnemyKind, u32)>::empty());
    } else {
        lemma_dist_total_snoc(dist.skip(1));
        assert(dist.skip(1).drop_last() =~= dist.drop_last().skip(1));
        assert(dist.skip(1).last() == dist.last());
    }
}

/// Selects the enemy kind a draw picks, scanning weights in order.
pub fn pick_enemy_kind(dist: &Vec<(EnemyKind, u32)>, value: u64) -> (k: EnemyKind)
    ensures
        k == pick_spec(dist@, value as int),
{
    let mut i: usize = 0;
    let mut v: u64 = value;
    proof {
        assert(dist@.skip(0) =~= dist@);
    }
    while i < dist.len()
        invariant
            i <= dist@.len(),
            v <= value,
            pick_spec(dist@.skip(i as int), v as int) == pick_spec(dist@, value as int),
        decreases dist@.len() - i,
    {
        proof {
            assert(dist@.skip(i as int)[0] == dist@[i as int]);
        }
        let w: u64 = dist[i].1 as u64;
        if v < w {
            return dist[i].0;
        }
        proof {
            assert(dist@.skip(i as int).skip(1) =~= dist@.skip(i + 1));
        }
        v = v - w;
        i = i + 1;
    }
    proof {
        assert(dist@.skip(dist@.len() as int) =~= Seq::<(EnemyKind, u32)>::empty());
    }
    EnemyKind::DinoStraight
}

} // verus!
