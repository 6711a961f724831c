//! The multi-granularity aggregator: exactly three rings — 60 one-second
//! buckets, 24 one-hour buckets, 14 one-day buckets — that each take every
//! sample independently.

use vstd::prelude::*;
use crate::rollup::{accumulate_step, rotate_step, Rollup, Rollups};

verus! {

/// One ring either rotated by a single step or accumulated in place; each
/// `add_value` call does exactly one of the two.
pub open spec fn ring_step(pre: Rollups, post: Rollups, value: u32) -> bool {
    rotate_step(pre, post, value) || accumulate_step(pre, post, value)
}

/// Every ring of the aggregator took the sample, independently.
pub open spec fn intervals_step(pre: RollupIntervals, post: RollupIntervals, value: u32) -> bool {
    &&& post.rollup_intervals@.len() == pre.rollup_intervals@.len()
    &&& forall|k: int|
        0 <= k < pre.rollup_intervals@.len() ==> ring_step(
            pre.rollup_intervals@[k],
            post.rollup_intervals@[k],
            value,
        )
}

/// The fixed set of three rings, one per granularity. The set of rings is
/// immutable after construction; only the buckets inside them mutate.
pub struct RollupIntervals {
    pub rollup_intervals: Vec<Rollups>,
}

impl RollupIntervals {
    /// Exactly three well-formed rings with the fixed configuration:
    /// 60 buckets of 1 second, 24 of 1 hour, 14 of 1 day.
    pub open spec fn wf(self) -> bool {
        &&& self.rollup_intervals@.len() == 3
        &&& forall|k: int| 0 <= k < 3 ==> (#[trigger] self.rollup_intervals@[k]).wf()
        &&& self.rollup_intervals@[0].interval_seconds == 1
        &&& self.rollup_intervals@[0].rollups@.len() == 60
        &&& self.rollup_intervals@[1].interval_seconds == 3600
        &&& self.rollup_intervals@[1].rollups@.len() == 24
        &&& self.rollup_intervals@[2].interval_seconds == 86400
        &&& self.rollup_intervals@[2].rollups@.len() == 14
    }

    /// The current bucket of each ring as a pair of its running sum and
    /// sample count.
    pub open spec fn spec_current_totals(self) -> Seq<(u32, u32)> {
        self.rollup_intervals@.map_values(
            |r: Rollups| (r.rollups@[r.current_rollup_index as int].total, r.rollups@[r.current_rollup_index as int].sample_count),
        )
    }

    /// A fresh aggregator: three rings at index zero, all buckets empty.
    pub fn new() -> (r: RollupIntervals)
        ensures
            r.wf(),
            forall|k: int|
                0 <= k < 3 ==> (#[trigger] r.rollup_intervals@[k]).current_rollup_index == 0,
            forall|k: int, i: int|
                0 <= k < 3 && 0 <= i < r.rollup_intervals@[k].rollups@.len() ==> {
                    &&& (#[trigger] r.rollup_intervals@[k].rollups@[i]).total == 0
                    &&& r.rollup_intervals@[k].rollups@[i].sample_count == 0
                },
    {
        let mut rollup_intervals: Vec<Rollups> = Vec::new();
        rollup_intervals.push(Rollups::new(1, 60));
        rollup_intervals.push(Rollups::new(60 * 60, 24));
        rollup_intervals.push(Rollups::new(60 * 60 * 24, 14));
        RollupIntervals { rollup_intervals }
    }

    /// Fans one sample out to all three rings; each ring decides on its own
    /// clock whether to rotate first. There is no cross-ring coordination
    /// and no partial failure: every ring takes the sample.
    pub fn add_value(&mut self, value: u32)
        requires
            old(self).wf(),
        ensures
            final(self).wf(),
            intervals_step(*old(self), *final(self), value),
    {
        let mut i: usize = 0;
        while i < self.rollup_intervals.len()
            invariant
                old(self).wf(),
                i <= self.rollup_intervals@.len(),
                self.rollup_intervals@.len() == old(self).rollup_intervals@.len(),
                forall|k: int|
                    0 <= k < self.rollup_intervals@.len() ==> (#[trigger] self.rollup_intervals@[k]).wf(),
                forall|k: int|
                    i <= k < self.rollup_intervals@.len() ==> self.rollup_intervals@[k]
                        == old(self).rollup_intervals@[k],
                forall|k: int|
                    0 <= k < i ==> ring_step(
                        old(self).rollup_intervals@[k],
                        self.rollup_intervals@[k],
                        value,
                    ),
            decreases self.rollup_intervals@.len() - i,
        {
            let ring = &mut self.rollup_intervals[i];
            ring.add_value(value);
            i = i + 1;
        }
    }

    /// Copies out the running sum and sample count of each ring's current
    /// bucket, in ring order: seconds, hours, days.
    pub fn current_totals(&self) -> (r: Vec<(u32, u32)>)
        requires
            self.wf(),
        ensures
            r@ == self.spec_current_totals(),
            r@.len() == 3,
    {
        let mut r: Vec<(u32, u32)> = Vec::new();
        let mut i: usize = 0;
        while i < self.rollup_intervals.len()
            invariant
                self.wf(),
                i <= 3,
                r@.len() == i,
                forall|k: int| 0 <= k < i ==> r@[k] == self.spec_current_totals()[k],
            decreases 3 - i,
        {
            let ring = &self.rollup_intervals[i];
            let bucket = &ring.rollups[ring.current_rollup_index];
            r.push((bucket.total, bucket.sample_count));
            i = i + 1;
        }
        proof {
            assert(r@ =~= self.spec_current_totals());
        }
        r
    }

    /// A full snapshot, per ring: the interval length, the current bucket's
    /// index, and every bucket's running sum and sample count in ring order.
    pub fn snapshot(&self) -> (r: Vec<(u32, usize, Vec<(u32, u32)>)>)
        requires
            self.wf(),
        ensures
            r@.len() == 3,
            forall|k: int|
                0 <= k < 3 ==> {
                    &&& (#[trigger] r@[k]).0 == self.rollup_intervals@[k].interval_seconds
                    &&& r@[k].1 == self.rollup_intervals@[k].current_rollup_index
                    &&& r@[k].2@ == self.rollup_intervals@[k].rollups@.map_values(
                        |b: Rollup| (b.total, b.sample_count),
                    )
                },
    {
        let mut r: Vec<(u32, usize, Vec<(u32, u32)>)> = Vec::new();
        let mut i: usize = 0;
        while i < self.rollup_intervals.len()
            invariant
                self.wf(),
                i <= 3,
                r@.len() == i,
                forall|k: int|
                    0 <= k < i ==> {
                        &&& (#[trigger] r@[k]).0 == self.rollup_intervals@[k].interval_seconds
                        &&& r@[k].1 == self.rollup_intervals@[k].current_rollup_index
                        &&& r@[k].2@ == self.rollup_intervals@[k].rollups@.map_values(
                            |b: Rollup| (b.total, b.sample_count),
                        )
                    },
            decreases 3 - i,
        {
            let ring = &self.rollup_intervals[i];
            r.push((ring.interval_seconds, ring.current_rollup_index, ring.bucket_totals()));
            i = i + 1;
        }
        r
    }
}

} // verus!
