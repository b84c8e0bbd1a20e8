//! Partition of the attempt budget into contiguous worker slices.

use vstd::prelude::*;

verus! {

/// The half-open range `[start, end)` of trial numbers given to one worker.
#[derive(Clone, Copy, Debug, PartialEq, Eq, Structural)]
pub struct WorkSlice {
    pub start: u64,
    pub end: u64,
}

impl WorkSlice {
    pub open spec fn size(&self) -> int {
        self.end - self.start
    }
}

/// Slice `i` of `workers`: equal chunks of `total / workers`, the last one
/// taking the remainder.
pub open spec fn slice_spec(total: nat, workers: nat, i: nat) -> WorkSlice
    recommends
        workers > 0,
{
    let chunk = total / workers;
    WorkSlice {
        start: (i * chunk) as u64,
        end: if i + 1 == workers {
            total as u64
        } else {
            ((i + 1) * chunk) as u64
        },
    }
}

pub open spec fn partition_spec(total: nat, workers: nat) -> Seq<WorkSlice> {
    Seq::new(workers, |i: int| slice_spec(total, workers, i as nat))
}

/// Total size of the slices.
pub open spec fn total_size(s: Seq<WorkSlice>) -> int
    decreases s.len(),
{
    if s.len() == 0 {
        0
    } else {
        total_size(s.drop_last()) + s.last().size()
    }
}

/// Splits `total` attempts among `workers` workers.
pub fn partition_budget(total: u64, workers: usize) -> (r: Vec<WorkSlice>)
    requires
        workers > 0,
    ensures
        r@ == partition_spec(total as nat, workers as nat),
{
    let n = workers as u64;
    let chunk = total / n;
    let mut r: Vec<WorkSlice> = Vec::new();
    let mut i: usize = 0;
    while i < workers
        invariant
            i <= workers,
            n == workers,
            chunk == total / n,
            r@ =~= partition_spec(total as nat, workers as nat).subrange(0, i as int),
        decreases workers - i,
    {
        proof {
            lemma_chunk_bound(total as nat, workers as nat, i as nat);
        }
        let start = i as u64 * chunk;
        let end = if i + 1 == workers {
            total
        } else {
            (i as u64 + 1) * chunk
        };
        r.push(WorkSlice { start, end });
        i = i + 1;
    }
    r
}

proof fn lemma_chunk_bound(total: nat, workers: nat, i: nat)
    requires
        workers > 0,
        i < workers,
    ensures
        i * (total / workers) <= (i + 1) * (total / workers),
        i + 1 < workers ==> (i + 1) * (total / workers) <= total,
        i * (total / workers) <= total,
{
    let c = total / workers;
    assert(workers * c <= total) by (nonlinear_arith)
        requires
            c == total / workers,
            workers > 0,
    ;
    assert(i * c <= (i + 1) * c) by (nonlinear_arith);
    assert((i + 1) * c <= workers * c) by (nonlinear_arith)
        requires
            i < workers,
    ;
}

/// The slices of a partition are contiguous and ordered: each starts where
/// the previous ends, and none ends before it starts.
proof fn lemma_partition_shape(total: nat, workers: nat, i: nat)
    requires
        workers > 0,
        i < workers,
        total <= u64::MAX,
    ensures
        partition_spec(total, workers)[i as int].start <= partition_spec(total, workers)[i as int].end,
        partition_spec(total, workers)[i as int].end <= total,
        i == 0 ==> partition_spec(total, workers)[i as int].start == 0,
        i + 1 == workers ==> partition_spec(total, workers)[i as int].end == total,
        i + 1 < workers ==> partition_spec(total, workers)[i as int].end == partition_spec(
            total,
            workers,
        )[(i + 1) as int].start,
{
    lemma_chunk_bound(total, workers, i);
}

proof fn lemma_prefix_size(total: nat, workers: nat, k: nat)
    requires
        workers > 0,
        0 < k <= workers,
        total <= u64::MAX,
    ensures
        total_size(partition_spec(total, workers).subrange(0, k as int)) == partition_spec(
            total,
            workers,
        )[k - 1int].end,
    decreases k,
{
    let p = partition_spec(total, workers);
    lemma_partition_shape(total, workers, (k - 1) as nat);
    let s = p.subrange(0, k as int);
    assert(s.drop_last() =~= p.subrange(0, k - 1));
    assert(s.last() == p[k - 1]);
    assert(total_size(s) == total_size(p.subrange(0, k - 1)) + p[k - 1].size());
    if k > 1 {
        lemma_prefix_size(total, workers, (k - 1) as nat);
        lemma_partition_shape(total, workers, (k - 2) as nat);
    } else {
        assert(p.subrange(0, 0) =~= Seq::<WorkSlice>::empty());
        assert(total_size(p.subrange(0, 0)) == 0);
    }
}

proof fn lemma_slices_ordered(total: nat, workers: nat, i: nat, j: nat)
    requires
        workers > 0,
        i < j < workers,
        total <= u64::MAX,
    ensures
        partition_spec(total, workers)[i as int].end <= partition_spec(total, workers)[j as int].start,
    decreases j - i,
{
    lemma_partition_shape(total, workers, i);
    if i + 1 < j {
        lemma_partition_shape(total, workers, (i + 1) as nat);
        lemma_slices_ordered(total, workers, i + 1, j);
    }
}

/// For `workers` workers and a budget of `total` attempts, the slices' sizes
/// add up to exactly `total`, they start at zero, and no two of them overlap.
pub proof fn lemma_partition_exact(total: u64, workers: nat)
    requires
        workers > 0,
    ensures
        total_size(partition_spec(total as nat, workers)) == total,
        partition_spec(total as nat, workers)[0].start == 0,
        forall|i: int, j: int|
            0 <= i < j < workers ==> #[trigger] partition_spec(total as nat, workers)[i].end
                <= #[trigger] partition_spec(total as nat, workers)[j].start,
        forall|i: int|
            0 <= i < workers ==> #[trigger] partition_spec(total as nat, workers)[i].start
                <= partition_spec(total as nat, workers)[i].end,
{
    let p = partition_spec(total as nat, workers);
    lemma_prefix_size(total as nat, workers, workers);
    assert(p.subrange(0, workers as int) =~= p);
    lemma_partition_shape(total as nat, workers, (workers - 1) as nat);
    lemma_partition_shape(total as nat, workers, 0);
    assert forall|i: int, j: int| 0 <= i < j < workers implies #[trigger] p[i].end <= #[trigger] p[j].start by {
        lemma_slices_ordered(total as nat, workers, i as nat, j as nat);
    }
    assert forall|i: int| 0 <= i < workers implies #[trigger] p[i].start <= p[i].end by {
        lemma_partition_shape(total as nat, workers, i as nat);
    }
}

} // verus!
