//! The measure registry: a bidirectional mapping between names, integer
//! handles and shared measures, protected by one reader/writer lock. Handles
//! come from a monotonically increasing counter starting at 1 and are never
//! reused; invalid handles and names are absorbed into sentinel measures
//! rather than reported as errors.

use vstd::prelude::*;
use vstd::rwlock::{RwLock, RwLockPredicate};
use std::collections::HashMap;
use std::sync::Arc;
use crate::measure::{arc_clone, Measure};

verus! {

broadcast use
    vstd::std_specs::hash::group_hash_axioms,
    vstd::string::to_string_from_display_ensures_for_str;

/// A process-unique integer identifying a measure, immutable once assigned.
pub type MeasureHandle = usize;

/// The name under which a call with an invalid handle is counted.
pub open spec fn unknown_handle_sentinel() -> Seq<char> {
    "measure_rollup::unknown_measure_handle_specified"@
}

/// The name under which a call with an unregistered name is counted;
/// distinct from the unknown-handle sentinel.
pub open spec fn unknown_name_sentinel() -> Seq<char> {
    "measure_rollup::unknown_measure_name_specified"@
}

fn unknown_handle_sentinel_name() -> (r: String)
    ensures
        r@ == unknown_handle_sentinel(),
{
    "measure_rollup::unknown_measure_handle_specified".to_string()
}

fn unknown_name_sentinel_name() -> (r: String)
    ensures
        r@ == unknown_name_sentinel(),
{
    "measure_rollup::unknown_measure_name_specified".to_string()
}

/// The registry state that lives under the registry's reader/writer lock:
/// the handle-to-measure map, the name-to-handle association, and the handle
/// counter.
pub struct MeasuresInner {
    pub measures: HashMap<MeasureHandle, Arc<Measure>>,
    pub measures_by_name: Vec<(String, MeasureHandle)>,
    pub next_handle: MeasureHandle,
}

impl MeasuresInner {
    /// Some registered name equals `n`.
    pub open spec fn contains_name(self, n: Seq<char>) -> bool {
        exists|i: int|
            0 <= i < self.measures_by_name@.len() && (#[trigger] self.measures_by_name@[i]).0@
                == n
    }

    /// `h` is the handle registered for the name `n`.
    pub open spec fn is_handle_for(self, n: Seq<char>, h: MeasureHandle) -> bool {
        exists|i: int|
            0 <= i < self.measures_by_name@.len() && (#[trigger] self.measures_by_name@[i]).0@
                == n && self.measures_by_name@[i].1 == h
    }

    /// The registry's invariant: names and handles are registered at most
    /// once, every registered handle was drawn from the counter (so lies
    /// strictly below it, and is never 0), the two maps agree entry for
    /// entry, and the measure stored for a handle carries exactly the name
    /// registered for it.
    pub open spec fn wf(self) -> bool {
        let names = self.measures_by_name@;
        &&& self.next_handle >= 1
        &&& forall|i: int, j: int|
            0 <= i < j < names.len() ==> (#[trigger] names[i]).0@ != (#[trigger] names[j]).0@
        &&& forall|i: int, j: int|
            0 <= i < j < names.len() ==> (#[trigger] names[i]).1 != (#[trigger] names[j]).1
        &&& forall|i: int| 0 <= i < names.len() ==> 1 <= (#[trigger] names[i]).1 < self.next_handle
        &&& forall|i: int|
            0 <= i < names.len() ==> self.measures@.contains_key((#[trigger] names[i]).1)
        &&& forall|i: int|
            0 <= i < names.len() ==> (#[trigger] self.measures@[names[i].1]).spec_name()
                == names[i].0@
        &&& forall|h: MeasureHandle| #[trigger]
            self.measures@.contains_key(h) ==> exists|i: int|
                0 <= i < names.len() && (#[trigger] names[i]).1 == h
    }

    /// An empty registry; the first handle it will hand out is 1.
    pub fn new() -> (r: MeasuresInner)
        ensures
            r.wf(),
            r.measures_by_name@.len() == 0,
            r.measures@ == Map::<MeasureHandle, Arc<Measure>>::empty(),
            r.next_handle == 1,
    {
        MeasuresInner { measures: HashMap::new(), measures_by_name: Vec::new(), next_handle: 1 }
    }

    /// Linear scan of the name association.
    fn find_handle(&self, name: &String) -> (r: Option<MeasureHandle>)
        ensures
            match r {
                Some(h) => self.is_handle_for(name@, h),
                None => !self.contains_name(name@),
            },
    {
        let mut i: usize = 0;
        while i < self.measures_by_name.len()
            invariant
                i <= self.measures_by_name@.len(),
                forall|j: int|
                    0 <= j < i ==> (#[trigger] self.measures_by_name@[j]).0@ != name@,
            decreases self.measures_by_name@.len() - i,
        {
            if self.measures_by_name[i].0 == *name {
                return Some(self.measures_by_name[i].1);
            }
            i = i + 1;
        }
        None
    }

    /// Pure lookup: is this name registered?
    pub fn name_exists(&self, name: &String) -> (r: bool)
        ensures
            r == self.contains_name(name@),
    {
        self.find_handle(name).is_some()
    }

    /// The handle of a name known to be registered; existence is the
    /// caller's precondition, as with the original lookup-by-index.
    pub fn get_handle(&self, name: &String) -> (r: MeasureHandle)
        requires
            self.contains_name(name@),
        ensures
            self.is_handle_for(name@, r),
    {
        match self.find_handle(name) {
            Some(h) => h,
            None => {
                proof {
                    assert(false);
                }
                0
            },
        }
    }
}

/// A fresh name was registered: it received the counter's value as its
/// handle, the counter moved up by one, the association gained exactly this
/// one entry at its end, and the measure map gained exactly one fresh
/// measure carrying that name.
pub open spec fn registered_new(
    pre: MeasuresInner,
    post: MeasuresInner,
    n: Seq<char>,
    r: MeasureHandle,
) -> bool {
    &&& r == pre.next_handle
    &&& post.next_handle == pre.next_handle + 1
    &&& post.measures_by_name@.len() == pre.measures_by_name@.len() + 1
    &&& post.measures_by_name@.subrange(0, pre.measures_by_name@.len() as int)
        == pre.measures_by_name@
    &&& post.measures_by_name@.last().0@ == n
    &&& post.measures_by_name@.last().1 == r
    &&& post.measures@ == pre.measures@.insert(r, post.measures@[r])
    &&& post.measures@.contains_key(r)
    &&& post.measures@[r].spec_name() == n
}

/// What create-or-get does, exactly: a registered name returns its existing
/// handle and changes nothing; an unseen name is registered under the next
/// counter value; and when the counter is exhausted (it would wrap), nothing
/// is registered and the never-allocated handle 0 is returned.
pub open spec fn new_measure_rel(
    pre: MeasuresInner,
    post: MeasuresInner,
    n: Seq<char>,
    r: MeasureHandle,
) -> bool {
    if pre.contains_name(n) {
        &&& post == pre
        &&& pre.is_handle_for(n, r)
    } else if pre.next_handle < usize::MAX {
        registered_new(pre, post, n, r)
    } else {
        &&& post == pre
        &&& r == 0
    }
}

/// One invalid call was absorbed: the named sentinel was created if it was
/// not yet registered (counter permitting), and one occurrence was counted
/// against it behind its own lock; no other entry of the registry changed.
pub open spec fn reported_to_sentinel(
    pre: MeasuresInner,
    post: MeasuresInner,
    n: Seq<char>,
) -> bool {
    exists|r: MeasureHandle| new_measure_rel(pre, post, n, r)
}

impl MeasuresInner {
    /// Create-or-get under one exclusive critical section: checks the name,
    /// and only when it is absent draws a fresh handle and inserts the pair
    /// of entries, so two racing creators can never both insert.
    pub fn new_measure(&mut self, name: &String) -> (r: MeasureHandle)
        requires
            old(self).wf(),
        ensures
            final(self).wf(),
            new_measure_rel(*old(self), *final(self), name@, r),
    {
        match self.find_handle(name) {
            Some(h) => h,
            None => {
                if self.next_handle < usize::MAX {
                    let handle = self.next_handle;
                    self.next_handle = self.next_handle + 1;
                    self.measures_by_name.push((name.clone(), handle));
                    self.measures.insert(handle, Arc::new(Measure::new(name)));
                    proof {
                        let names0 = old(self).measures_by_name@;
                        let names1 = self.measures_by_name@;
                        assert(names1.subrange(0, names0.len() as int) =~= names0);
                        assert forall|i: int, j: int|
                            0 <= i < j < names1.len() implies (#[trigger] names1[i]).0@
                            != (#[trigger] names1[j]).0@ by {
                            if j == names1.len() - 1 {
                                assert(names1[i] == names0[i]);
                                assert(names0[i].0@ != name@);
                            }
                        }
                        assert forall|h: MeasureHandle| #[trigger]
                            self.measures@.contains_key(h) implies exists|i: int|
                            0 <= i < names1.len() && (#[trigger] names1[i]).1 == h by {
                            if h == handle {
                                assert(names1[names1.len() - 1].1 == h);
                            } else {
                                assert(old(self).measures@.contains_key(h));
                                let i = choose|i: int|
                                    0 <= i < names0.len() && (#[trigger] names0[i]).1 == h;
                                assert(names1[i].1 == h);
                            }
                        }
                    }
                    handle
                } else {
                    0
                }
            },
        }
    }

    /// Counts one occurrence (a fixed count of 1) against the sentinel of
    /// the given name, creating the sentinel first if it is absent.
    fn count_against_sentinel(&mut self, sentinel: &String)
        requires
            old(self).wf(),
        ensures
            final(self).wf(),
            reported_to_sentinel(*old(self), *final(self), sentinel@),
    {
        let h = self.new_measure(sentinel);
        if let Some(measure) = self.measures.get(&h) {
            measure.add_value(1);
        }
    }

    /// Records a sample against the measure of `handle`. An unknown handle
    /// never reaches any real measure: it is counted, with the sample value
    /// discarded, against the unknown-handle sentinel.
    pub fn add_value(&mut self, handle: MeasureHandle, value: u32)
        requires
            old(self).wf(),
        ensures
            final(self).wf(),
            if old(self).measures@.contains_key(handle) {
                *final(self) == *old(self)
            } else {
                reported_to_sentinel(*old(self), *final(self), unknown_handle_sentinel())
            },
    {
        if self.measures.contains_key(&handle) {
            if let Some(measure) = self.measures.get(&handle) {
                measure.add_value(value);
            }
        } else {
            let sentinel = unknown_handle_sentinel_name();
            self.count_against_sentinel(&sentinel);
        }
    }

    /// The shared measure registered under `handle`: `Some` exactly when
    /// the handle is registered, and then a shared reference (a clone of
    /// the stored `Arc`) to the very measure the registry maps it to;
    /// an unregistered handle yields `None`, never a panic.
    pub fn get_measure(&self, handle: MeasureHandle) -> (r: Option<Arc<Measure>>)
        ensures
            match r {
                Some(m) => self.measures@.contains_key(handle) && m == self.measures@[handle],
                None => !self.measures@.contains_key(handle),
            },
    {
        match self.measures.get(&handle) {
            Some(measure) => Some(arc_clone(measure)),
            None => None,
        }
    }

    /// Every registered handle, in registration order: the handle column of
    /// the name association.
    pub fn handles(&self) -> (r: Vec<MeasureHandle>)
        ensures
            r@ == self.measures_by_name@.map_values(|p: (String, MeasureHandle)| p.1),
    {
        let mut r: Vec<MeasureHandle> = Vec::new();
        let mut i: usize = 0;
        while i < self.measures_by_name.len()
            invariant
                i <= self.measures_by_name@.len(),
                r@.len() == i,
                forall|k: int| 0 <= k < i ==> r@[k] == (#[trigger] self.measures_by_name@[k]).1,
            decreases self.measures_by_name@.len() - i,
        {
            r.push(self.measures_by_name[i].1);
            i = i + 1;
        }
        proof {
            assert(r@ =~= self.measures_by_name@.map_values(
                |p: (String, MeasureHandle)| p.1,
            ));
        }
        r
    }

    /// Records a sample against the measure registered for `name`. An
    /// unregistered name creates no measure under that name: it is counted,
    /// with the sample value discarded, against the unknown-name sentinel.
    pub fn add_value_by_name(&mut self, name: String, value: u32)
        requires
            old(self).wf(),
        ensures
            final(self).wf(),
            if old(self).contains_name(name@) {
                *final(self) == *old(self)
            } else {
                reported_to_sentinel(*old(self), *final(self), unknown_name_sentinel())
            },
    {
        match self.find_handle(&name) {
            Some(measure_handle) => {
                self.add_value(measure_handle, value);
            },
            None => {
                let sentinel = unknown_name_sentinel_name();
                self.count_against_sentinel(&sentinel);
            },
        }
    }
}

/// The registry lock's invariant: whatever state sits in the lock is a
/// well-formed registry.
pub struct RegistryPred {}

impl RwLockPredicate<MeasuresInner> for RegistryPred {
    open spec fn inv(self, v: MeasuresInner) -> bool {
        v.wf()
    }
}

/// The registry of measures behind one reader/writer lock. Lookups take the
/// lock in shared mode; creation and every sample recording take it in
/// exclusive mode, so the check-then-insert of create-or-get is one critical
/// section and every recording serializes against every creation.
pub struct Measures {
    inner: RwLock<MeasuresInner, RegistryPred>,
}

impl Measures {
    /// An empty registry.
    pub fn new() -> (r: Measures) {
        Measures { inner: RwLock::new(MeasuresInner::new(), Ghost(RegistryPred {  })) }
    }

    /// Create-or-get: the handle for `name`, creating the measure when the
    /// name is unseen. The fast path checks under the shared lock; only an
    /// absent name takes the exclusive lock, and the create-or-get inside
    /// that critical section resolves the race, so all callers end with the
    /// same handle. The state lives in the lock; what create-or-get does to
    /// it is stated on `MeasuresInner::new_measure`.
    pub fn new_measure(&self, name: &String) -> MeasureHandle {
        let read_handle = self.inner.acquire_read();
        let existing = read_handle.borrow().find_handle(name);
        read_handle.release_read();
        match existing {
            Some(h) => h,
            None => {
                let (mut inner, write_handle) = self.inner.acquire_write();
                let h = inner.new_measure(name);
                write_handle.release_write(inner);
                h
            },
        }
    }

    /// Records a sample by handle under the exclusive lock; see
    /// `MeasuresInner::add_value` for what one recording does.
    pub fn add_value(&self, handle: MeasureHandle, value: u32) {
        let (mut inner, write_handle) = self.inner.acquire_write();
        inner.add_value(handle, value);
        write_handle.release_write(inner);
    }

    /// Records a sample by name under the exclusive lock; see
    /// `MeasuresInner::add_value_by_name` for what one recording does.
    pub fn add_value_by_name(&self, name: String, value: u32) {
        let (mut inner, write_handle) = self.inner.acquire_write();
        inner.add_value_by_name(name, value);
        write_handle.release_write(inner);
    }

    /// The shared measure registered under `handle`, read under the shared
    /// lock, if any; never panics. The lookup itself is
    /// `MeasuresInner::get_measure`, whose contract says the result is
    /// `Some` exactly for a registered handle and then the very registered
    /// measure.
    pub fn get_measure(&self, handle: MeasureHandle) -> Option<Arc<Measure>> {
        let read_handle = self.inner.acquire_read();
        let r = read_handle.borrow().get_measure(handle);
        read_handle.release_read();
        r
    }

    /// Every registered handle, in registration order, read under the
    /// shared lock: the read-only snapshot surface that diagnostic dumping
    /// consumes; see `MeasuresInner::handles` for what it holds.
    pub fn handles(&self) -> Vec<MeasureHandle> {
        let read_handle = self.inner.acquire_read();
        let r = read_handle.borrow().handles();
        read_handle.release_read();
        r
    }
}

} // verus!
