//! The upstream targets of one route, and the choice of one of them for a
//! request.

use crate::backend::load_balance::{
    count_after, lemma_count_stays_in_range, lemma_round_robin_order, lemma_window_is_rotation,
    next_count, served_index, served_window, LoadBalance,
};
use crate::error::RpxyError;
use rand::Rng;
use std::sync::atomic::{AtomicUsize, Ordering};
use std::sync::Arc;
use vstd::prelude::*;

verus! {

/// The address of an upstream target: `hyper::Uri`. The library carries such
/// a value from the list to the caller and never looks into it.
#[verifier::external_type_specification]
#[verifier::external_body]
pub struct ExUri(hyper::Uri);

/// `Clone::clone` of `hyper::Uri`, which the type derives: the copy is the
/// same address as the one it was made of.
pub assume_specification[ <hyper::Uri as Clone>::clone ](uri: &hyper::Uri) -> (copy: hyper::Uri)
    ensures
        copy == *uri,
;

/// The round-robin counter of one `Upstream`. Its clones count together:
/// whoever holds one of them advances the same number.
#[derive(Debug, Clone)]
pub struct UpstreamCount(Arc<AtomicUsize>);

impl UpstreamCount {
    /// A counter that stands at zero.
    pub fn new() -> Self {
        UpstreamCount(Arc::new(AtomicUsize::new(0)))
    }

    /// The value of the counter at the moment of the call. Another caller
    /// may change it at any time, so nothing is known of the value.
    pub fn current(&self) -> usize {
        self.0.load(Ordering::Relaxed)
    }

    /// `AtomicUsize::fetch_update`: in one atomic step, puts
    /// `next_count(c, len)` in the place of the counter's value `c`, and
    /// hands back `c`. The closure never gives `None`, so `fetch_update`
    /// never gives `Err`. Whoever holds a clone advances the same counter,
    /// so the contract claims nothing of the value that comes back.
    #[verifier::external_body]
    fn fetch_and_advance(&self, len: usize) -> usize {
        match self.0.fetch_update(Ordering::Relaxed, Ordering::Relaxed, |c| Some(next_count(c, len))) {
            Ok(seen) => seen,
            Err(seen) => seen,
        }
    }
}

impl Default for UpstreamCount {
    fn default() -> Self {
        UpstreamCount::new()
    }
}

/// `rand::Rng::gen_range` on `rand::thread_rng()`, with the range
/// `0..bound`. rand documents a value drawn evenly from the range, and that
/// an empty range panics: the contract keeps the range from being empty and
/// claims that the value lies in it, nothing of its chance. The generator
/// seeds itself from the operating system's random source and is taken to
/// get it.
#[verifier::external_body]
fn random_below(bound: usize) -> (drawn: usize)
    requires
        bound >= 1,
    ensures
        drawn < bound,
{
    rand::thread_rng().gen_range(0..bound)
}

/// The target at `index`, where the list has one there.
pub open spec fn target_at(targets: Seq<hyper::Uri>, index: int) -> Option<hyper::Uri> {
    if 0 <= index < targets.len() {
        Some(targets[index])
    } else {
        None
    }
}

/// The targets of one route, the strategy that picks among them, and the
/// counter that the round-robin strategy advances.
#[derive(Debug)]
pub struct Upstream {
    uri: Vec<hyper::Uri>,
    lb: LoadBalance,
    cnt: UpstreamCount,
}

impl Upstream {
    /// The list is never empty.
    #[verifier::type_invariant]
    spec fn has_target(self) -> bool {
        self.uri@.len() >= 1
    }

    /// The targets, in the order in which round robin serves them.
    pub closed spec fn targets(self) -> Seq<hyper::Uri> {
        self.uri@
    }

    /// The strategy that picks among the targets.
    pub closed spec fn strategy(self) -> LoadBalance {
        self.lb
    }

    /// An upstream over `uri` with a fresh counter. A list without a target
    /// is turned down here, so that no choice ever meets one.
    pub fn new(uri: Vec<hyper::Uri>, lb: LoadBalance) -> (made: Result<Upstream, RpxyError>)
        ensures
            uri@.len() == 0 ==> made == Err::<Upstream, RpxyError>(RpxyError::NoUpstreamTarget),
            uri@.len() >= 1 ==> made is Ok && made->Ok_0.targets() == uri@
                && made->Ok_0.strategy() == lb,
    {
        if uri.len() == 0 {
            Err(RpxyError::NoUpstreamTarget)
        } else {
            Ok(Upstream { uri, lb, cnt: UpstreamCount::new() })
        }
    }

    /// The targets.
    pub fn uri(&self) -> (list: &Vec<hyper::Uri>)
        ensures
            list@ == self.targets(),
            list@.len() >= 1,
    {
        proof {
            use_type_invariant(self);
        }
        &self.uri
    }

    /// The strategy.
    pub fn lb(&self) -> (strategy: LoadBalance)
        ensures
            strategy == self.strategy(),
    {
        self.lb
    }

    /// The target that a request is sent to once the strategy has named
    /// `index`: the target at that place, and none where the list has no
    /// such place.
    pub fn pick(&self, index: usize) -> (picked: Option<&hyper::Uri>)
        ensures
            picked == match target_at(self.targets(), index as int) {
                Some(uri) => Some(&uri),
                None => None,
            },
    {
        if index < self.uri.len() {
            Some(&self.uri[index])
        } else {
            None
        }
    }

    /// A target for the next request: always one of the list.
    ///
    /// With `Random` the index is drawn from all of `0..len`. With
    /// `RoundRobin` the index is the count that this call found when it
    /// advanced the counter; whoever holds a clone advances the same
    /// counter, so which index that is depends on the calls that came
    /// before.
    pub fn get(&self) -> (picked: Option<&hyper::Uri>)
        ensures
            picked matches Some(uri) && exists|i: int|
                0 <= i < self.targets().len() && *uri == #[trigger] self.targets()[i],
    {
        match self.lb {
            LoadBalance::RoundRobin => {
                let idx = self.increment_cnt();
                self.pick(idx)
            },
            LoadBalance::Random => {
                let idx = random_below(self.draw_bound());
                self.pick(idx)
            },
        }
    }

    /// The bound below which the random strategy draws its index: the
    /// number of targets, so that every index of the list can be drawn, the
    /// last one too.
    pub fn draw_bound(&self) -> (bound: usize)
        ensures
            bound == self.targets().len(),
            bound >= 1,
    {
        proof {
            use_type_invariant(self);
        }
        self.uri.len()
    }

    /// The index that a call would be served now: the count at the moment of
    /// the call, as `served_index` reads it. Another caller may advance the
    /// counter at any time, so which index of the list this is remains open.
    pub fn current_cnt(&self) -> (cnt: usize)
        ensures
            cnt < self.targets().len(),
    {
        proof {
            use_type_invariant(self);
        }
        served_index(self.cnt.current(), self.uri.len())
    }

    /// Advances the counter by one place in the cycle over the targets and
    /// hands back the index that this call is served: the count that the
    /// call found, as `served_index` reads it.
    fn increment_cnt(&self) -> (idx: usize)
        ensures
            idx < self.targets().len(),
    {
        proof {
            use_type_invariant(self);
        }
        served_index(self.cnt.fetch_and_advance(self.uri.len()), self.uri.len())
    }
}

impl Clone for Upstream {
    /// A second handle on the same upstream: the same targets and strategy,
    /// and the same counter, which the two advance together.
    fn clone(&self) -> (copy: Self)
        ensures
            copy.targets() == self.targets(),
            copy.strategy() == self.strategy(),
    {
        proof {
            use_type_invariant(self);
        }
        let uri = self.uri.clone();
        Upstream { uri, lb: self.lb, cnt: self.cnt.clone() }
    }
}

/// The targets that `len` calls in a row are served under round robin, the
/// first of which found the counter at `start`.
pub open spec fn served_targets(targets: Seq<hyper::Uri>, start: int) -> Seq<Option<hyper::Uri>> {
    served_window(start, targets.len() as int).map_values(|index: int| target_at(targets, index))
}

/// Round robin from a fresh counter: as many calls as there are targets are
/// served the targets in the order of the list, and the call after them the
/// first target again.
pub proof fn lemma_round_robin_serves_in_order(targets: Seq<hyper::Uri>, call: nat)
    requires
        targets.len() >= 1,
        call <= targets.len(),
    ensures
        call < targets.len() ==> target_at(targets, count_after(0, targets.len() as int, call))
            == Some(targets[call as int]),
        call == targets.len() ==> target_at(targets, count_after(0, targets.len() as int, call))
            == Some(targets[0]),
{
    lemma_round_robin_order(targets.len() as int, call);
}

/// Round robin over a single target: every call is served that target.
pub proof fn lemma_round_robin_single_target(targets: Seq<hyper::Uri>, call: nat)
    requires
        targets.len() == 1,
    ensures
        target_at(targets, count_after(0, 1, call)) == Some(targets[0]),
{
    lemma_count_stays_in_range(0, 1, call);
}

/// Round robin never misses: a counter that starts inside the list names a
/// target at every call.
pub proof fn lemma_round_robin_always_serves(targets: Seq<hyper::Uri>, start: int, call: nat)
    requires
        0 <= start < targets.len(),
    ensures
        target_at(targets, count_after(start, targets.len() as int, call)) is Some,
{
    lemma_count_stays_in_range(start, targets.len() as int, call);
}

/// Over as many calls in a row as there are targets, round robin serves the
/// list turned by the place at which the window began: every target as often
/// as the list holds it.
pub proof fn lemma_round_robin_window_serves_all(targets: Seq<hyper::Uri>, start: int)
    requires
        0 <= start < targets.len(),
    ensures
        served_targets(targets, start) == (targets.subrange(start, targets.len() as int)
            + targets.subrange(0, start)).map_values(|uri: hyper::Uri| Some(uri)),
        served_targets(targets, start).to_multiset() == targets.map_values(
            |uri: hyper::Uri| Some(uri),
        ).to_multiset(),
{
    let len = targets.len() as int;
    let all = targets.map_values(|uri: hyper::Uri| Some(uri));
    let head = all.subrange(0, start);
    let tail = all.subrange(start, len);
    let turned = (targets.subrange(start, len) + targets.subrange(0, start)).map_values(
        |uri: hyper::Uri| Some(uri),
    );
    lemma_window_is_rotation(start, len);
    assert(served_targets(targets, start) =~= turned);
    assert(turned =~= tail + head);
    assert(all =~= head + tail);
    vstd::seq_lib::lemma_multiset_commutative(head, tail);
    vstd::seq_lib::lemma_multiset_commutative(tail, head);
}

} // verus!
