//! Shared progress counters for a batch of sibling transfers.
//!
//! One `BatchCounters` value is owned by the coordinator of a batch; every
//! transfer task contributes `CounterDelta` increments to it, and the
//! progress reporter reads it. All fields saturate at `u64::MAX` rather than
//! overflow, so publishing a delta can never panic.

use vstd::prelude::*;

use crate::transfer::event_deltas;
use crate::transfer::run_events;
use crate::transfer::TransferEvent;
use crate::transfer::TransferMachine;

verus! {

/// One transfer's contribution to the batch counters for a single step:
/// how much to add to each aggregate field.
#[derive(Clone, Copy, PartialEq, Eq, Structural, Debug)]
pub struct CounterDelta {
    /// Bytes newly known to be part of the batch (published once the
    /// resource's full length has been probed).
    pub add_total_bytes: u64,
    /// Bytes newly accounted as present on disk: pre-existing bytes at probe
    /// time, and each appended chunk's length thereafter.
    pub add_completed_bytes: u64,
    /// One when the transfer just reached completion, zero otherwise.
    pub add_completed_count: u64,
}

impl CounterDelta {
    /// A delta that changes nothing.
    pub open spec fn zero_spec() -> CounterDelta {
        CounterDelta { add_total_bytes: 0, add_completed_bytes: 0, add_completed_count: 0 }
    }

    /// A delta that changes nothing.
    pub fn zero() -> (d: CounterDelta)
        ensures
            d == CounterDelta::zero_spec(),
    {
        CounterDelta { add_total_bytes: 0, add_completed_bytes: 0, add_completed_count: 0 }
    }
}

/// Aggregate progress of one batch of transfers: total/completed bytes and
/// total/completed item counts.
#[derive(Clone, Copy, PartialEq, Eq, Structural, Debug)]
pub struct BatchCounters {
    pub total_bytes: u64,
    pub completed_bytes: u64,
    pub completed_count: u64,
    pub total_count: u64,
}

/// Saturating addition on `u64` at the spec level.
pub open spec fn sat_add(x: u64, y: u64) -> u64 {
    if x + y > u64::MAX {
        u64::MAX
    } else {
        (x + y) as u64
    }
}

/// What applying one delta to the counters yields: each field is bumped by
/// the corresponding increment, saturating at `u64::MAX`.
pub open spec fn apply_delta_spec(c: BatchCounters, d: CounterDelta) -> BatchCounters {
    BatchCounters {
        total_bytes: sat_add(c.total_bytes, d.add_total_bytes),
        completed_bytes: sat_add(c.completed_bytes, d.add_completed_bytes),
        completed_count: sat_add(c.completed_count, d.add_completed_count),
        total_count: c.total_count,
    }
}

impl BatchCounters {
    /// Fresh counters for a batch of `total_count` targets.
    pub fn new(total_count: u64) -> (c: BatchCounters)
        ensures
            c.total_bytes == 0,
            c.completed_bytes == 0,
            c.completed_count == 0,
            c.total_count == total_count,
    {
        BatchCounters { total_bytes: 0, completed_bytes: 0, completed_count: 0, total_count }
    }

    /// Publish one transfer's delta into the shared counters.
    pub fn apply(&mut self, d: &CounterDelta)
        ensures
            *final(self) == apply_delta_spec(*old(self), *d),
    {
        self.total_bytes = self.total_bytes.saturating_add(d.add_total_bytes);
        self.completed_bytes = self.completed_bytes.saturating_add(d.add_completed_bytes);
        self.completed_count = self.completed_count.saturating_add(d.add_completed_count);
    }

    /// The batch is complete exactly when every target has reported
    /// completion.
    pub fn is_complete(&self) -> (r: bool)
        ensures
            r == (self.completed_count == self.total_count),
    {
        self.completed_count == self.total_count
    }
}

/// Sum of the `add_total_bytes` increments of a sequence of deltas.
pub open spec fn sum_total_bytes(ds: Seq<CounterDelta>) -> int
    decreases ds.len(),
{
    if ds.len() == 0 {
        0
    } else {
        ds[0].add_total_bytes + sum_total_bytes(ds.drop_first())
    }
}

/// Sum of the `add_completed_bytes` increments of a sequence of deltas.
pub open spec fn sum_completed_bytes(ds: Seq<CounterDelta>) -> int
    decreases ds.len(),
{
    if ds.len() == 0 {
        0
    } else {
        ds[0].add_completed_bytes + sum_completed_bytes(ds.drop_first())
    }
}

/// Sum of the `add_completed_count` increments of a sequence of deltas.
pub open spec fn sum_completed_count(ds: Seq<CounterDelta>) -> int
    decreases ds.len(),
{
    if ds.len() == 0 {
        0
    } else {
        ds[0].add_completed_count + sum_completed_count(ds.drop_first())
    }
}

/// The counters after applying a sequence of deltas, one at a time.
pub open spec fn apply_all(c: BatchCounters, ds: Seq<CounterDelta>) -> BatchCounters
    decreases ds.len(),
{
    if ds.len() == 0 {
        c
    } else {
        apply_all(apply_delta_spec(c, ds[0]), ds.drop_first())
    }
}

/// Sums distribute over concatenation of delta sequences.
pub proof fn lemma_sums_concat(ds1: Seq<CounterDelta>, ds2: Seq<CounterDelta>)
    ensures
        sum_total_bytes(ds1 + ds2) == sum_total_bytes(ds1) + sum_total_bytes(ds2),
        sum_completed_bytes(ds1 + ds2) == sum_completed_bytes(ds1) + sum_completed_bytes(ds2),
        sum_completed_count(ds1 + ds2) == sum_completed_count(ds1) + sum_completed_count(ds2),
    decreases ds1.len(),
{
    if ds1.len() == 0 {
        assert(ds1 + ds2 =~= ds2);
    } else {
        assert((ds1 + ds2).drop_first() =~= ds1.drop_first() + ds2);
        lemma_sums_concat(ds1.drop_first(), ds2);
    }
}

/// Removing one delta removes exactly its contribution from each sum.
pub proof fn lemma_sums_remove(ds: Seq<CounterDelta>, i: int)
    requires
        0 <= i < ds.len(),
    ensures
        sum_total_bytes(ds.remove(i)) == sum_total_bytes(ds) - ds[i].add_total_bytes,
        sum_completed_bytes(ds.remove(i)) == sum_completed_bytes(ds)
            - ds[i].add_completed_bytes,
        sum_completed_count(ds.remove(i)) == sum_completed_count(ds)
            - ds[i].add_completed_count,
    decreases ds.len(),
{
    if i == 0 {
        assert(ds.remove(0) =~= ds.drop_first());
    } else {
        assert(ds.remove(i).drop_first() =~= ds.drop_first().remove(i - 1));
        lemma_sums_remove(ds.drop_first(), i - 1);
    }
}

/// The sums of a delta sequence depend only on which deltas it holds, not on
/// their order: any interleaving of the transfers' published deltas sums the
/// same.
pub proof fn lemma_sums_permutation(ds1: Seq<CounterDelta>, ds2: Seq<CounterDelta>)
    requires
        ds1.to_multiset() == ds2.to_multiset(),
    ensures
        sum_total_bytes(ds1) == sum_total_bytes(ds2),
        sum_completed_bytes(ds1) == sum_completed_bytes(ds2),
        sum_completed_count(ds1) == sum_completed_count(ds2),
    decreases ds1.len(),
{
    broadcast use vstd::seq_lib::group_to_multiset_ensures;

    if ds1.len() == 0 {
        assert(ds2.to_multiset().len() == 0);
        assert(ds2.len() == 0);
    } else {
        let x = ds1[0];
        assert(ds1.to_multiset().count(x) > 0);
        assert(ds2.to_multiset().count(x) > 0);
        assert(ds2.contains(x));
        let j = choose|j: int| 0 <= j < ds2.len() && ds2[j] == x;
        assert(ds1.remove(0).to_multiset() =~= ds1.to_multiset().remove(x));
        assert(ds2.remove(j).to_multiset() =~= ds2.to_multiset().remove(x));
        assert(ds1.remove(0) =~= ds1.drop_first());
        lemma_sums_permutation(ds1.drop_first(), ds2.remove(j));
        lemma_sums_remove(ds2, j);
    }
}

/// Delta sums are never negative: every increment is an unsigned count.
pub proof fn lemma_sums_nonneg(ds: Seq<CounterDelta>)
    ensures
        sum_total_bytes(ds) >= 0,
        sum_completed_bytes(ds) >= 0,
        sum_completed_count(ds) >= 0,
    decreases ds.len(),
{
    if ds.len() == 0 {
    } else {
        lemma_sums_nonneg(ds.drop_first());
    }
}

/// Applying deltas adds their sums to the counters, field by field, as long
/// as nothing saturates.
pub proof fn lemma_apply_all_sums(c: BatchCounters, ds: Seq<CounterDelta>)
    requires
        c.total_bytes + sum_total_bytes(ds) <= u64::MAX,
        c.completed_bytes + sum_completed_bytes(ds) <= u64::MAX,
        c.completed_count + sum_completed_count(ds) <= u64::MAX,
    ensures
        apply_all(c, ds) == (BatchCounters {
            total_bytes: (c.total_bytes + sum_total_bytes(ds)) as u64,
            completed_bytes: (c.completed_bytes + sum_completed_bytes(ds)) as u64,
            completed_count: (c.completed_count + sum_completed_count(ds)) as u64,
            total_count: c.total_count,
        }),
    decreases ds.len(),
{
    if ds.len() == 0 {
    } else {
        lemma_sums_nonneg(ds.drop_first());
        lemma_apply_all_sums(apply_delta_spec(c, ds[0]), ds.drop_first());
    }
}

/// The deltas the batch's transfers publish, one transfer after the other:
/// the canonical interleaving, of which every real interleaving is a
/// reordering.
pub open spec fn batch_deltas(batch: Seq<(TransferMachine, Seq<TransferEvent>)>) -> Seq<
    CounterDelta,
>
    decreases batch.len(),
{
    if batch.len() == 0 {
        Seq::empty()
    } else {
        event_deltas(batch[0].0, batch[0].1) + batch_deltas(batch.drop_first())
    }
}

/// Sum of the resources' full lengths over a batch, read off the machines
/// after their events.
pub open spec fn batch_total(batch: Seq<(TransferMachine, Seq<TransferEvent>)>) -> int
    decreases batch.len(),
{
    if batch.len() == 0 {
        0
    } else {
        run_events(batch[0].0, batch[0].1).total_length->0 + batch_total(batch.drop_first())
    }
}

/// The canonical interleaving of a completing batch sums to the batch's
/// total size in both byte counters, and to one completed item per target.
proof fn lemma_batch_deltas_sums(batch: Seq<(TransferMachine, Seq<TransferEvent>)>)
    requires
        forall|i: int|
            0 <= i < batch.len() ==> (#[trigger] batch[i]).0.wf() && batch[i].0.phase
                is Probing,
        forall|i: int|
            0 <= i < batch.len() ==> run_events((#[trigger] batch[i]).0, batch[i].1).phase
                is Completed,
    ensures
        sum_total_bytes(batch_deltas(batch)) == batch_total(batch),
        sum_completed_bytes(batch_deltas(batch)) == batch_total(batch),
        sum_completed_count(batch_deltas(batch)) == batch.len(),
    decreases batch.len(),
{
    if batch.len() == 0 {
    } else {
        crate::transfer::lemma_completed_transfer_accounting(batch[0].0, batch[0].1);
        assert(forall|i: int|
            0 <= i < batch.drop_first().len() ==> (#[trigger] batch.drop_first()[i]) == batch[i
                + 1]);
        lemma_batch_deltas_sums(batch.drop_first());
        lemma_sums_concat(event_deltas(batch[0].0, batch[0].1), batch_deltas(batch.drop_first()));
    }
}

/// Counter consistency: when every transfer of a batch has run to
/// completion, the counters — started at zero for a batch of
/// `batch.len()` targets and fed the transfers' published deltas in any
/// interleaved order — show `completed_bytes` equal to the sum of the
/// targets' full resource sizes (pre-existing bytes were published once, at
/// probe time, never twice), `total_bytes` equal to the same sum, and
/// `completed_count` equal to `total_count`.
pub proof fn lemma_counter_consistency(
    batch: Seq<(TransferMachine, Seq<TransferEvent>)>,
    ds: Seq<CounterDelta>,
)
    requires
        forall|i: int|
            0 <= i < batch.len() ==> (#[trigger] batch[i]).0.wf() && batch[i].0.phase
                is Probing,
        forall|i: int|
            0 <= i < batch.len() ==> run_events((#[trigger] batch[i]).0, batch[i].1).phase
                is Completed,
        ds.to_multiset() == batch_deltas(batch).to_multiset(),
        batch_total(batch) <= u64::MAX,
        batch.len() <= u64::MAX,
    ensures
        ({
            let start = BatchCounters {
                total_bytes: 0,
                completed_bytes: 0,
                completed_count: 0,
                total_count: batch.len() as u64,
            };
            let c = apply_all(start, ds);
            &&& c.completed_count == c.total_count
            &&& c.completed_count == batch.len()
            &&& c.completed_bytes == batch_total(batch)
            &&& c.total_bytes == batch_total(batch)
        }),
{
    let start = BatchCounters {
        total_bytes: 0,
        completed_bytes: 0,
        completed_count: 0,
        total_count: batch.len() as u64,
    };
    lemma_batch_deltas_sums(batch);
    lemma_sums_permutation(ds, batch_deltas(batch));
    lemma_sums_nonneg(ds);
    lemma_apply_all_sums(start, ds);
}

} // verus!
