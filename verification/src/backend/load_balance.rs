//! The strategies that pick one upstream target out of several, and the
//! arithmetic of the round-robin counter.

use vstd::prelude::*;

verus! {

/// How the target of the next request is picked.
#[derive(Debug, Clone, Copy, PartialEq, Eq, Structural)]
pub enum LoadBalance {
    /// One target after the other, in the order of the list, then again from
    /// its start.
    RoundRobin,
    /// A target drawn at random, each with the same chance.
    Random,
}

impl Default for LoadBalance {
    fn default() -> (strategy: Self)
        ensures
            strategy == LoadBalance::RoundRobin,
    {
        LoadBalance::RoundRobin
    }
}

/// The value that the round-robin counter takes after `count`, with `len`
/// targets: one more, and zero after the last index. A count that lies beyond
/// the list is sent back to zero as well.
pub open spec fn spec_next_count(count: int, len: int) -> int {
    if count < len - 1 {
        count + 1
    } else {
        0
    }
}

/// The counter after `calls` calls, the first of which found it at `start`.
/// The call numbered `calls`, counted from zero, is served the index that
/// this function gives.
pub open spec fn count_after(start: int, len: int, calls: nat) -> int
    decreases calls,
{
    if calls == 0 {
        start
    } else {
        spec_next_count(count_after(start, len, (calls - 1) as nat), len)
    }
}

/// The indices that `len` calls in a row are served, the first of which
/// found the counter at `start`.
pub open spec fn served_window(start: int, len: int) -> Seq<int> {
    Seq::new(len as nat, |k: int| count_after(start, len, k as nat))
}

/// The indices of a list of `len` targets, in their order.
pub open spec fn all_indices(len: int) -> Seq<int> {
    Seq::new(len as nat, |i: int| i)
}

/// Computes the value that follows `count` in the cycle over `len` targets.
pub fn next_count(count: usize, len: usize) -> (next: usize)
    ensures
        next == spec_next_count(count as int, len as int),
        len >= 1 ==> next < len,
{
    if len >= 1 && count < len - 1 {
        count + 1
    } else {
        0
    }
}

/// The index that a call is served which found the counter at `count`: the
/// count itself, and the first index for a count that lies beyond the list.
pub open spec fn spec_served_index(count: int, len: int) -> int {
    if 0 <= count < len {
        count
    } else {
        0
    }
}

/// Computes the index that a call is served which found the counter at
/// `count`, over `len` targets.
pub fn served_index(count: usize, len: usize) -> (index: usize)
    ensures
        index == spec_served_index(count as int, len as int),
        len >= 1 ==> index < len,
{
    if count < len {
        count
    } else {
        0
    }
}

/// A counter that starts inside the list never leaves it: every value it
/// takes is an index of the list.
pub proof fn lemma_count_stays_in_range(start: int, len: int, calls: nat)
    requires
        0 <= start < len,
    ensures
        0 <= count_after(start, len, calls) < len,
    decreases calls,
{
    if calls > 0 {
        lemma_count_stays_in_range(start, len, (calls - 1) as nat);
    }
}

/// A counter that starts inside the list is served as it stands: at every
/// call the index served is the count that the call found.
pub proof fn lemma_count_is_served_as_it_stands(start: int, len: int, calls: nat)
    requires
        0 <= start < len,
    ensures
        spec_served_index(count_after(start, len, calls), len) == count_after(start, len, calls),
{
    lemma_count_stays_in_range(start, len, calls);
}

/// The counter walks the indices in a cycle: after `calls` calls it stands
/// `calls` places further, counted modulo the number of targets.
pub proof fn lemma_count_is_cyclic(start: int, len: int, calls: nat)
    requires
        0 <= start < len,
    ensures
        count_after(start, len, calls) == (start + calls) % len,
    decreases calls,
{
    if calls == 0 {
        assert(start % len == start) by {
            vstd::arithmetic::div_mod::lemma_small_mod(start as nat, len as nat);
        }
    } else {
        let before = (calls - 1) as nat;
        lemma_count_is_cyclic(start, len, before);
        let c = (start + before) % len;
        assert((start + before + 1) % len == spec_next_count(c, len)) by {
            vstd::arithmetic::div_mod::lemma_fundamental_div_mod(start + before, len);
            let q = (start + before) / len;
            if c < len - 1 {
                assert(start + before + 1 == q * len + (c + 1)) by (nonlinear_arith)
                    requires
                        start + before == len * q + c,
                ;
                vstd::arithmetic::div_mod::lemma_fundamental_div_mod_converse(
                    start + before + 1,
                    len,
                    q,
                    c + 1,
                );
            } else {
                assert(start + before + 1 == (q + 1) * len + 0) by (nonlinear_arith)
                    requires
                        start + before == len * q + c,
                        c == len - 1,
                ;
                vstd::arithmetic::div_mod::lemma_fundamental_div_mod_converse(
                    start + before + 1,
                    len,
                    q + 1,
                    0,
                );
            }
        }
    }
}

/// A run of calls may be cut anywhere: what follows the cut is the run that
/// begins at the counter which the cut found.
pub proof fn lemma_count_after_splits(start: int, len: int, first: nat, then: nat)
    ensures
        count_after(start, len, first + then) == count_after(
            count_after(start, len, first),
            len,
            then,
        ),
    decreases then,
{
    if then > 0 {
        lemma_count_after_splits(start, len, first, (then - 1) as nat);
    }
}

/// From a fresh counter, as many calls as there are targets and one more are
/// served the indices `0, 1, .., len - 1` and then `0` again.
pub proof fn lemma_round_robin_order(len: int, call: nat)
    requires
        len >= 1,
        call <= len,
    ensures
        call < len ==> count_after(0, len, call) == call,
        call == len ==> count_after(0, len, call) == 0,
{
    lemma_count_is_cyclic(0, len, call);
    if call < len {
        vstd::arithmetic::div_mod::lemma_small_mod(call, len as nat);
    } else {
        vstd::arithmetic::div_mod::lemma_mod_self_0(len);
    }
}

/// With a single target every call is served index `0`.
pub proof fn lemma_single_target(call: nat)
    ensures
        count_after(0, 1, call) == 0,
{
    lemma_count_stays_in_range(0, 1, call);
}

/// Two different calls of one window are served different indices.
pub proof fn lemma_window_has_no_repeat(start: int, len: int, i: int, j: int)
    requires
        0 <= start < len,
        0 <= i < j < len,
    ensures
        served_window(start, len)[i] != served_window(start, len)[j],
{
    lemma_count_is_cyclic(start, len, i as nat);
    lemma_count_is_cyclic(start, len, j as nat);
    if (start + i) % len == (start + j) % len {
        vstd::arithmetic::div_mod::lemma_fundamental_div_mod(start + i, len);
        vstd::arithmetic::div_mod::lemma_fundamental_div_mod(start + j, len);
        let qi = (start + i) / len;
        let qj = (start + j) / len;
        assert(j - i == len * (qj - qi)) by (nonlinear_arith)
            requires
                start + i == len * qi + (start + i) % len,
                start + j == len * qj + (start + j) % len,
                (start + i) % len == (start + j) % len,
        ;
        assert(false) by (nonlinear_arith)
            requires
                j - i == len * (qj - qi),
                0 < j - i < len,
        ;
    }
}

/// The window that begins at index `start` is the list of indices turned by
/// `start` places: first those from `start` on, then those before it.
pub proof fn lemma_window_is_rotation(start: int, len: int)
    requires
        0 <= start < len,
    ensures
        served_window(start, len) == all_indices(len).subrange(start, len) + all_indices(
            len,
        ).subrange(0, start),
{
    let turned = all_indices(len).subrange(start, len) + all_indices(len).subrange(0, start);
    assert forall|k: int| 0 <= k < len implies served_window(start, len)[k] == turned[k] by {
        lemma_count_is_cyclic(start, len, k as nat);
        if start + k < len {
            vstd::arithmetic::div_mod::lemma_small_mod((start + k) as nat, len as nat);
        } else {
            vstd::arithmetic::div_mod::lemma_fundamental_div_mod_converse(
                start + k,
                len,
                1,
                start + k - len,
            );
        }
    }
}

/// Over `len` calls in a row, whichever index the first of them is served,
/// every index is served once and none twice: as a multiset the window is
/// the list of all indices.
pub proof fn lemma_window_serves_each_once(start: int, len: int)
    requires
        0 <= start < len,
    ensures
        served_window(start, len).to_multiset() == all_indices(len).to_multiset(),
{
    let all = all_indices(len);
    let head = all.subrange(0, start);
    let tail = all.subrange(start, len);
    lemma_window_is_rotation(start, len);
    assert(all =~= head + tail);
    vstd::seq_lib::lemma_multiset_commutative(head, tail);
    vstd::seq_lib::lemma_multiset_commutative(tail, head);
}

/// The same holds of any `len` calls in a row out of a longer run: the
/// window that begins after `earlier` calls serves every index once.
pub proof fn lemma_any_window_serves_each_once(start: int, len: int, earlier: nat)
    requires
        0 <= start < len,
    ensures
        Seq::new(len as nat, |k: int| count_after(start, len, earlier + k as nat)).to_multiset()
            == all_indices(len).to_multiset(),
{
    let later = count_after(start, len, earlier);
    lemma_count_stays_in_range(start, len, earlier);
    let window = Seq::new(len as nat, |k: int| count_after(start, len, earlier + k as nat));
    assert forall|k: int| 0 <= k < len implies window[k] == served_window(later, len)[k] by {
        lemma_count_after_splits(start, len, earlier, k as nat);
    }
    assert(window =~= served_window(later, len));
    lemma_window_serves_each_once(later, len);
}

} // verus!
