//! Time buckets: one windowed accumulator of a running sum and sample count.

use vstd::prelude::*;

verus! {

/// One time-windowed accumulator. `total` and `sample_count` wrap on
/// overflow (the native wraparound of the unsigned accumulator, applied
/// consistently via `wrapping_add`). The three flags are cleared on every
/// reset and are never otherwise read by the core logic; they are kept as
/// data only.
pub struct Rollup {
    pub total: u32,
    pub sample_count: u32,
    pub start_ticks: std::time::Instant,
    pub start_time: std::time::SystemTime,
    pub active: bool,
    pub first: bool,
    pub whole: bool,
}

impl Rollup {
    /// A fresh, empty bucket stamped with the current clocks.
    pub fn new() -> (r: Rollup)
        ensures
            r.total == 0,
            r.sample_count == 0,
            !r.active,
            !r.first,
            !r.whole,
    {
        Rollup {
            total: 0,
            sample_count: 0,
            start_ticks: std::time::Instant::now(),
            start_time: std::time::SystemTime::now(),
            first: false,
            active: false,
            whole: false,
        }
    }

    /// Zeroes the accumulators, restamps both clocks to now, and clears all
    /// three flags, regardless of the prior contents.
    pub fn reset_rollup(&mut self)
        ensures
            final(self).total == 0,
            final(self).sample_count == 0,
            !final(self).active,
            !final(self).first,
            !final(self).whole,
    {
        self.total = 0;
        self.sample_count = 0;
        self.start_ticks = std::time::Instant::now();
        self.start_time = std::time::SystemTime::now();
        self.first = false;
        self.active = false;
        self.whole = false;
    }

    /// Records one sample: the count rises by one and the value joins the
    /// running sum, both with the accumulator's wraparound; nothing else of
    /// the bucket changes.
    pub fn add_value(&mut self, value: u32)
        ensures
            *final(self) == (Rollup {
                total: old(self).total.wrapping_add(value),
                sample_count: old(self).sample_count.wrapping_add(1),
                ..*old(self)
            }),
    {
        self.sample_count = self.sample_count.wrapping_add(1);
        self.total = self.total.wrapping_add(value);
    }
}

/// The bucket as it stands after one recorded sample: the pure accumulation
/// step that `Rollup::add_value` performs.
pub open spec fn accumulated(b: Rollup, value: u32) -> Rollup {
    Rollup {
        total: b.total.wrapping_add(value),
        sample_count: b.sample_count.wrapping_add(1),
        ..b
    }
}

/// A fixed-size circular buffer of buckets sharing one interval length.
/// The bucket at `current_rollup_index` is the one samples land in; rotation
/// advances that index by exactly one step when the current bucket's window
/// has elapsed.
pub struct Rollups {
    pub current_rollup_index: usize,
    pub interval_seconds: u32,
    pub rollups: Vec<Rollup>,
}

/// No rotation was due: only the current bucket accumulated the sample, and
/// everything else — index, interval, all other buckets — is unchanged.
pub open spec fn accumulate_step(pre: Rollups, post: Rollups, value: u32) -> bool {
    &&& post.current_rollup_index == pre.current_rollup_index
    &&& post.interval_seconds == pre.interval_seconds
    &&& post.rollups@ == pre.rollups@.update(
        pre.current_rollup_index as int,
        accumulated(pre.rollups@[pre.current_rollup_index as int], value),
    )
}

/// A rotation was due: the index advanced by exactly one step around the
/// ring, the bucket now at the index was reset before taking the sample (so
/// it holds exactly this one sample and cleared flags), and every other
/// bucket — however stale — is untouched.
pub open spec fn rotate_step(pre: Rollups, post: Rollups, value: u32) -> bool {
    let n = pre.rollups@.len() as int;
    let j = ((pre.current_rollup_index + 1) as int) % n;
    &&& post.current_rollup_index == j
    &&& post.interval_seconds == pre.interval_seconds
    &&& post.rollups@.len() == n
    &&& forall|k: int| 0 <= k < n && k != j ==> post.rollups@[k] == pre.rollups@[k]
    &&& post.rollups@[j].total == value
    &&& post.rollups@[j].sample_count == 1
    &&& !post.rollups@[j].active
    &&& !post.rollups@[j].first
    &&& !post.rollups@[j].whole
}

impl Rollups {
    /// The ring is well formed: it has at least one bucket and the current
    /// index points inside it.
    pub open spec fn wf(self) -> bool {
        &&& self.rollups@.len() > 0
        &&& (self.current_rollup_index as int) < self.rollups@.len()
    }

    /// A ring of `rollup_count` fresh buckets over windows of
    /// `interval_seconds`, starting at index zero.
    pub fn new(interval_seconds: u32, rollup_count: u32) -> (r: Rollups)
        requires
            rollup_count > 0,
        ensures
            r.wf(),
            r.interval_seconds == interval_seconds,
            r.current_rollup_index == 0,
            r.rollups@.len() == rollup_count,
            forall|k: int|
                0 <= k < rollup_count ==> {
                    &&& (#[trigger] r.rollups@[k]).total == 0
                    &&& r.rollups@[k].sample_count == 0
                    &&& !r.rollups@[k].active
                    &&& !r.rollups@[k].first
                    &&& !r.rollups@[k].whole
                },
    {
        let mut rollups: Vec<Rollup> = Vec::new();
        let mut i: u32 = 0;
        while i < rollup_count
            invariant
                i <= rollup_count,
                rollups@.len() == i,
                forall|k: int|
                    0 <= k < i ==> {
                        &&& (#[trigger] rollups@[k]).total == 0
                        &&& rollups@[k].sample_count == 0
                        &&& !rollups@[k].active
                        &&& !rollups@[k].first
                        &&& !rollups@[k].whole
                    },
            decreases rollup_count - i,
        {
            rollups.push(Rollup::new());
            i = i + 1;
        }
        Rollups { interval_seconds, current_rollup_index: 0, rollups }
    }

    /// Routes one sample given the whole seconds elapsed since the current
    /// bucket's window started. If the window is strictly exceeded, the ring
    /// takes exactly one rotation step — no catch-up, however long the ring
    /// was idle — and the sample lands in the freshly reset bucket; otherwise
    /// the current bucket simply accumulates it.
    pub fn add_value_with_elapsed(&mut self, elapsed_seconds: u64, value: u32)
        requires
            old(self).wf(),
        ensures
            final(self).wf(),
            if elapsed_seconds > old(self).interval_seconds as u64 {
                rotate_step(*old(self), *final(self), value)
            } else {
                accumulate_step(*old(self), *final(self), value)
            },
    {
        if elapsed_seconds > self.interval_seconds as u64 {
            let n = self.rollups.len();
            self.current_rollup_index = (self.current_rollup_index + 1) % n;
            let rollup = &mut self.rollups[self.current_rollup_index];
            rollup.reset_rollup();
            rollup.add_value(value);
        } else {
            let rollup = &mut self.rollups[self.current_rollup_index];
            rollup.add_value(value);
        }
    }

    /// Records one sample against the ring, rotating first when the
    /// monotonic clock says the current bucket's window is strictly
    /// exceeded. The clock decides which of the two steps happens; each call
    /// performs exactly one of them.
    pub fn add_value(&mut self, value: u32)
        requires
            old(self).wf(),
        ensures
            final(self).wf(),
            rotate_step(*old(self), *final(self), value) || accumulate_step(
                *old(self),
                *final(self),
                value,
            ),
    {
        let elapsed_seconds = self.rollups[self.current_rollup_index].start_ticks.elapsed().as_secs();
        self.add_value_with_elapsed(elapsed_seconds, value);
    }

    /// The running sum and sample count of every bucket, in ring order.
    pub fn bucket_totals(&self) -> (r: Vec<(u32, u32)>)
        ensures
            r@ == self.rollups@.map_values(|b: Rollup| (b.total, b.sample_count)),
    {
        let mut r: Vec<(u32, u32)> = Vec::new();
        let mut i: usize = 0;
        while i < self.rollups.len()
            invariant
                i <= self.rollups@.len(),
                r@.len() == i,
                forall|k: int|
                    0 <= k < i ==> r@[k] == ((#[trigger] self.rollups@[k]).total,
                    self.rollups@[k].sample_count),
            decreases self.rollups@.len() - i,
        {
            let bucket = &self.rollups[i];
            r.push((bucket.total, bucket.sample_count));
            i = i + 1;
        }
        proof {
            assert(r@ =~= self.rollups@.map_values(|b: Rollup| (b.total, b.sample_count)));
        }
        r
    }
}

} // verus!
