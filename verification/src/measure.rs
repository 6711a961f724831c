//! A measure: a named multi-granularity aggregator guarded for exclusive
//! mutation, so at most one thread mutates the aggregator at a time.

use vstd::prelude::*;
use vstd::rwlock::{RwLock, RwLockPredicate};
use crate::intervals::{intervals_step, RollupIntervals};

verus! {

/// The name and the aggregator of one measure; this is the state that lives
/// under the measure's lock.
pub struct MeasureInner {
    pub intervals: RollupIntervals,
    pub name: String,
}

impl MeasureInner {
    pub open spec fn wf(self) -> bool {
        self.intervals.wf()
    }

    /// A fresh, empty aggregator under the given name.
    pub fn new(name: &String) -> (r: MeasureInner)
        ensures
            r.wf(),
            r.name@ == name@,
            forall|k: int, i: int|
                0 <= k < 3 && 0 <= i < r.intervals.rollup_intervals@[k].rollups@.len() ==> {
                    &&& (#[trigger] r.intervals.rollup_intervals@[k].rollups@[i]).total == 0
                    &&& r.intervals.rollup_intervals@[k].rollups@[i].sample_count == 0
                },
    {
        MeasureInner { name: name.clone(), intervals: RollupIntervals::new() }
    }

    /// Routes one sample into every ring; the name never changes.
    pub fn add_value(&mut self, value: u32)
        requires
            old(self).wf(),
        ensures
            final(self).wf(),
            final(self).name == old(self).name,
            intervals_step(old(self).intervals, final(self).intervals, value),
    {
        self.intervals.add_value(value);
    }
}

/// The lock invariant of a measure: whatever sits in the lock is a
/// well-formed aggregator carrying this measure's immutable name.
pub struct MeasurePred {
    pub name: Ghost<Seq<char>>,
}

impl RwLockPredicate<MeasureInner> for MeasurePred {
    open spec fn inv(self, v: MeasureInner) -> bool {
        &&& v.wf()
        &&& v.name@ == self.name@
    }
}

/// A named aggregator behind its own exclusive lock, so that a measure
/// handed out by the registry can be mutated safely without any registry
/// lock held.
pub struct Measure {
    inner: RwLock<MeasureInner, MeasurePred>,
}

impl Measure {
    /// The immutable name this measure was created under.
    pub closed spec fn spec_name(&self) -> Seq<char> {
        self.inner.pred().name@
    }

    /// A fresh measure named `name`, with empty buckets.
    pub fn new(name: &String) -> (m: Measure)
        ensures
            m.spec_name() == name@,
    {
        Measure {
            inner: RwLock::new(
                MeasureInner::new(name),
                Ghost(MeasurePred { name: Ghost(name@) }),
            ),
        }
    }

    /// Records one sample under the measure's exclusive lock. The buckets
    /// live inside the lock, so the change itself is stated on
    /// `MeasureInner::add_value`; here the lock invariant — well-formedness
    /// and the immutable name — is what is maintained.
    pub fn add_value(&self, value: u32) {
        let (mut inner, write_handle) = self.inner.acquire_write();
        inner.add_value(value);
        write_handle.release_write(inner);
    }

    /// The measure's name, read under the lock in shared mode.
    pub fn name(&self) -> (r: String)
        ensures
            r@ == self.spec_name(),
    {
        let read_handle = self.inner.acquire_read();
        let r = read_handle.borrow().name.clone();
        read_handle.release_read();
        r
    }

    /// The running sum and sample count of each ring's current bucket,
    /// read under the lock in shared mode: seconds, hours, days.
    pub fn current_totals(&self) -> (r: Vec<(u32, u32)>)
        ensures
            r@.len() == 3,
    {
        let read_handle = self.inner.acquire_read();
        let r = read_handle.borrow().intervals.current_totals();
        read_handle.release_read();
        r
    }

    /// A full snapshot of the aggregator, read under the lock in shared
    /// mode, per ring: interval length, current index, and every bucket's
    /// running sum and sample count.
    pub fn snapshot(&self) -> (r: Vec<(u32, usize, Vec<(u32, u32)>)>)
        ensures
            r@.len() == 3,
    {
        let read_handle = self.inner.acquire_read();
        let r = read_handle.borrow().intervals.snapshot();
        read_handle.release_read();
        r
    }
}

/// Relies on std::sync::Arc::clone: the clone shares the same allocation,
/// so it denotes the very same measure.
#[verifier::external_body]
pub(crate) fn arc_clone(m: &std::sync::Arc<Measure>) -> (r: std::sync::Arc<Measure>)
    ensures
        r == *m,
{
    std::sync::Arc::clone(m)
}

} // verus!
