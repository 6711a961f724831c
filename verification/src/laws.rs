//! The library's laws: properties that relate several operations, proved
//! once and for all over the relations that the operations' contracts state.

use vstd::prelude::*;
use crate::intervals::ring_step;
use crate::rollup::{accumulated, Rollup, Rollups};
use crate::registry::{
    new_measure_rel, reported_to_sentinel, unknown_handle_sentinel, unknown_name_sentinel,
    MeasureHandle, MeasuresInner,
};

verus! {

broadcast use vstd::seq_lib::group_to_multiset_ensures;

/// The wrapped sum of a sequence of sample values.
pub open spec fn sum_of(values: Seq<u32>) -> int
    decreases values.len(),
{
    if values.len() == 0 {
        0
    } else {
        sum_of(values.drop_last()) + values.last()
    }
}

/// The bucket after recording each value of `values` in turn.
pub open spec fn accumulated_all(b: Rollup, values: Seq<u32>) -> Rollup
    decreases values.len(),
{
    if values.len() == 0 {
        b
    } else {
        accumulated(accumulated_all(b, values.drop_last()), values.last())
    }
}

/// Accumulation law, one step: recording two samples in either order leaves
/// the bucket in the same state.
pub proof fn lemma_accumulate_commutes(b: Rollup, v1: u32, v2: u32)
    ensures
        accumulated(accumulated(b, v1), v2) == accumulated(accumulated(b, v2), v1),
{
}

/// Accumulation law: within one bucket's lifetime (no rotation), the running
/// sum is the sum of all recorded values and the sample count is the number
/// of recordings — both modulo the accumulator's wraparound — and nothing
/// else of the bucket changes.
pub proof fn lemma_accumulation(b: Rollup, values: Seq<u32>)
    ensures
        accumulated_all(b, values).total == (b.total + sum_of(values)) % 0x1_0000_0000,
        accumulated_all(b, values).sample_count == (b.sample_count + values.len())
            % 0x1_0000_0000,
        accumulated_all(b, values).start_ticks == b.start_ticks,
        accumulated_all(b, values).start_time == b.start_time,
        accumulated_all(b, values).active == b.active,
        accumulated_all(b, values).first == b.first,
        accumulated_all(b, values).whole == b.whole,
    decreases values.len(),
{
    if values.len() == 0 {
        assert(b.total as int == b.total as int % 0x1_0000_0000);
        assert(b.sample_count as int == b.sample_count as int % 0x1_0000_0000);
    } else {
        lemma_accumulation(b, values.drop_last());
        let prior = accumulated_all(b, values.drop_last());
        assert(sum_of(values.drop_last()) >= 0) by {
            lemma_sum_of_nonnegative(values.drop_last());
        }
        vstd::arithmetic::div_mod::lemma_add_mod_noop(
            b.total + sum_of(values.drop_last()),
            values.last() as int,
            0x1_0000_0000,
        );
        vstd::arithmetic::div_mod::lemma_add_mod_noop(
            b.sample_count + values.drop_last().len(),
            1,
            0x1_0000_0000,
        );
        assert(values.last() as int == values.last() as int % 0x1_0000_0000);
        assert(1int == 1int % 0x1_0000_0000);
    }
}

proof fn lemma_sum_of_nonnegative(values: Seq<u32>)
    ensures
        sum_of(values) >= 0,
    decreases values.len(),
{
    if values.len() > 0 {
        lemma_sum_of_nonnegative(values.drop_last());
    }
}

proof fn lemma_sum_of_remove(s: Seq<u32>, j: int)
    requires
        0 <= j < s.len(),
    ensures
        sum_of(s.remove(j)) == sum_of(s) - s[j],
    decreases s.len(),
{
    if j == s.len() - 1 {
        assert(s.remove(j) =~= s.drop_last());
    } else {
        assert(s.remove(j).drop_last() =~= s.drop_last().remove(j));
        assert(s.remove(j).last() == s.last());
        lemma_sum_of_remove(s.drop_last(), j);
    }
}

proof fn lemma_sum_of_permutation(s1: Seq<u32>, s2: Seq<u32>)
    requires
        s1.to_multiset() == s2.to_multiset(),
    ensures
        s1.len() == s2.len(),
        sum_of(s1) == sum_of(s2),
    decreases s1.len(),
{
    assert(s1.to_multiset().len() == s1.len());
    assert(s2.to_multiset().len() == s2.len());
    if s1.len() > 0 {
        let v = s1.last();
        assert(s1.contains(v));
        assert(s1.to_multiset().count(v) > 0);
        assert(s2.to_multiset().count(v) > 0);
        assert(s2.contains(v));
        let j = choose|j: int| 0 <= j < s2.len() && s2[j] == v;
        let s1p = s1.drop_last();
        let s2p = s2.remove(j);
        assert(s1.remove(s1.len() - 1) =~= s1p);
        assert(s1p.to_multiset() =~= s1.to_multiset().remove(v));
        assert(s2p.to_multiset() =~= s2.to_multiset().remove(v));
        assert(s1p.to_multiset() == s2p.to_multiset());
        lemma_sum_of_permutation(s1p, s2p);
        lemma_sum_of_remove(s2, j);
        assert(sum_of(s1) == sum_of(s1p) + v);
        assert(sum_of(s2) == sum_of(s2p) + v);
    }
}

/// Accumulation law, order invariance: recording the same values in any
/// order — any two call sequences with one multiset of values — leaves the
/// bucket in the same state.
pub proof fn lemma_accumulation_order_invariant(b: Rollup, values1: Seq<u32>, values2: Seq<u32>)
    requires
        values1.to_multiset() == values2.to_multiset(),
    ensures
        accumulated_all(b, values1) == accumulated_all(b, values2),
{
    lemma_sum_of_permutation(values1, values2);
    lemma_accumulation(b, values1);
    lemma_accumulation(b, values2);
}

/// The bucket data-model invariant — a bucket that has counted no samples
/// holds no total. Fresh and reset buckets establish it, and both ring
/// steps preserve it for every bucket, short of the sample counter wrapping
/// around (the 2^32nd sample of one bucket, where the documented
/// wraparound clears the count while the sum may stay).
pub proof fn lemma_ring_step_preserves_bucket_invariant(
    pre: Rollups,
    post: Rollups,
    value: u32,
)
    requires
        pre.wf(),
        ring_step(pre, post, value),
        forall|i: int|
            0 <= i < pre.rollups@.len() ==> ((#[trigger] pre.rollups@[i]).sample_count == 0
                ==> pre.rollups@[i].total == 0),
        pre.rollups@[pre.current_rollup_index as int].sample_count < u32::MAX,
    ensures
        forall|i: int|
            0 <= i < post.rollups@.len() ==> ((#[trigger] post.rollups@[i]).sample_count == 0
                ==> post.rollups@[i].total == 0),
{
}

/// Handle idempotence: however a name came to be registered, asking for it
/// again returns the same handle every time and changes nothing, so exactly
/// one entry exists for the name.
pub proof fn lemma_new_measure_idempotent(
    s0: MeasuresInner,
    s1: MeasuresInner,
    s2: MeasuresInner,
    n: Seq<char>,
    h1: MeasureHandle,
    h2: MeasureHandle,
)
    requires
        s0.wf(),
        s1.wf(),
        new_measure_rel(s0, s1, n, h1),
        new_measure_rel(s1, s2, n, h2),
    ensures
        h2 == h1,
        s2 == s1,
{
    if s0.contains_name(n) {
        let i1 = choose|i: int|
            0 <= i < s0.measures_by_name@.len() && (#[trigger] s0.measures_by_name@[i]).0@ == n
                && s0.measures_by_name@[i].1 == h1;
        let i2 = choose|i: int|
            0 <= i < s1.measures_by_name@.len() && (#[trigger] s1.measures_by_name@[i]).0@ == n
                && s1.measures_by_name@[i].1 == h2;
        assert(i1 == i2);
    } else if s0.next_handle < usize::MAX {
        let len0 = s0.measures_by_name@.len() as int;
        assert(s1.measures_by_name@[len0].0@ == n);
        assert(s1.contains_name(n));
        let i2 = choose|i: int|
            0 <= i < s1.measures_by_name@.len() && (#[trigger] s1.measures_by_name@[i]).0@ == n
                && s1.measures_by_name@[i].1 == h2;
        if i2 < len0 {
            assert(s1.measures_by_name@.subrange(0, len0)[i2] == s1.measures_by_name@[i2]);
            assert(s0.measures_by_name@[i2].0@ == n);
            assert(s0.contains_name(n));
            assert(false);
        }
        assert(h2 == h1);
    } else {
        assert(!s1.contains_name(n));
    }
}

/// Handle monotonic distinctness: registering a never-seen name yields a
/// handle strictly greater than every handle already registered, so distinct
/// fresh names yield strictly increasing, pairwise distinct handles.
pub proof fn lemma_new_measure_monotonic(
    s0: MeasuresInner,
    s1: MeasuresInner,
    s2: MeasuresInner,
    n1: Seq<char>,
    n2: Seq<char>,
    h1: MeasureHandle,
    h2: MeasureHandle,
)
    requires
        s0.wf(),
        s1.wf(),
        !s0.contains_name(n1),
        s0.next_handle < usize::MAX,
        new_measure_rel(s0, s1, n1, h1),
        !s1.contains_name(n2),
        s1.next_handle < usize::MAX,
        new_measure_rel(s1, s2, n2, h2),
    ensures
        h1 == s0.next_handle,
        h2 == s1.next_handle,
        h2 > h1,
        forall|i: int|
            0 <= i < s0.measures_by_name@.len() ==> h1 > (#[trigger] s0.measures_by_name@[i]).1,
{
}

/// Unknown-name fallback creates nothing under the asked-for name: after a
/// recording by an unregistered name, only the unknown-name sentinel may
/// have been added, and the asked-for name is still unregistered.
pub proof fn lemma_unknown_name_creates_no_measure(
    pre: MeasuresInner,
    post: MeasuresInner,
    n: Seq<char>,
)
    requires
        pre.wf(),
        !pre.contains_name(n),
        n != unknown_name_sentinel(),
        reported_to_sentinel(pre, post, unknown_name_sentinel()),
    ensures
        !post.contains_name(n),
{
    lemma_sentinel_touches_only_sentinel(pre, post, unknown_name_sentinel());
}

/// Unknown-handle fallback touches no real measure's registration: every
/// measure registered before is registered after, under the same handle and
/// as the very same shared measure, and no name other than the sentinel
/// becomes registered.
pub proof fn lemma_sentinel_touches_only_sentinel(
    pre: MeasuresInner,
    post: MeasuresInner,
    sentinel: Seq<char>,
)
    requires
        pre.wf(),
        reported_to_sentinel(pre, post, sentinel),
    ensures
        forall|n: Seq<char>|
            n != sentinel ==> (post.contains_name(n) <==> pre.contains_name(n)),
        forall|h: MeasureHandle| #[trigger]
            pre.measures@.contains_key(h) ==> post.measures@.contains_key(h)
                && post.measures@[h] == pre.measures@[h],
{
    let r = choose|r: MeasureHandle| new_measure_rel(pre, post, sentinel, r);
    if pre.contains_name(sentinel) || pre.next_handle >= usize::MAX {
    } else {
        let len0 = pre.measures_by_name@.len() as int;
        assert forall|n: Seq<char>| n != sentinel implies (post.contains_name(n)
            <==> pre.contains_name(n)) by {
            if post.contains_name(n) {
                let i = choose|i: int|
                    0 <= i < post.measures_by_name@.len()
                        && (#[trigger] post.measures_by_name@[i]).0@ == n;
                assert(i < len0);
                assert(post.measures_by_name@.subrange(0, len0)[i]
                    == post.measures_by_name@[i]);
                assert(pre.measures_by_name@[i].0@ == n);
            }
            if pre.contains_name(n) {
                let i = choose|i: int|
                    0 <= i < pre.measures_by_name@.len()
                        && (#[trigger] pre.measures_by_name@[i]).0@ == n;
                assert(post.measures_by_name@.subrange(0, len0)[i]
                    == post.measures_by_name@[i]);
                assert(post.measures_by_name@[i].0@ == n);
            }
        }
        assert forall|h: MeasureHandle| #[trigger]
            pre.measures@.contains_key(h) implies post.measures@.contains_key(h)
            && post.measures@[h] == pre.measures@[h] by {
            let i = choose|i: int|
                0 <= i < pre.measures_by_name@.len() && (#[trigger] pre.measures_by_name@[i]).1
                    == h;
            assert(h < pre.next_handle);
            assert(h != r);
        }
    }
}

/// The two sentinel names are distinct, so unknown-handle and unknown-name
/// misuse are counted apart.
pub proof fn lemma_sentinels_distinct()
    ensures
        unknown_handle_sentinel() != unknown_name_sentinel(),
{
    reveal_strlit("measure_rollup::unknown_measure_handle_specified");
    reveal_strlit("measure_rollup::unknown_measure_name_specified");
    assert(unknown_handle_sentinel().len() != unknown_name_sentinel().len());
}

} // verus!
