//! The load-weighted selector: exposes the endpoint pool as one
//! service, picking between two sampled candidates per dispatch
//! (power of two choices) by their peak-EWMA load estimates.
//!
//! The load estimate is kept in integer nanoseconds. On every completed
//! request the estimate jumps straight up to a sample above it (peak),
//! while a sample below it pulls the estimate down only part way: the
//! gap to the sample is halved once per elapsed decay half-life. The
//! caller measures a sample under the pending-until-first-data policy:
//! from dispatch to the first byte of response data, or to the error,
//! never to full-body completion (see [`crate::balance::PendingUntilFirstData`]).
//!
//! Random sampling belongs to the embedder: each dispatch feeds two
//! draws of its random source into [`Selector::pick`], which derives
//! two distinct in-range candidate indices from them and returns the
//! better-loaded one, first-sampled winning ties.

use vstd::prelude::*;

use crate::addr_info::SockAddr;
use crate::pool::{lemma_unique_remove_no_longer_contains, EndpointSet, PoolFault};

verus! {

/// Upper bound on pool membership, far below any real pool size, so
/// that candidate-index arithmetic cannot overflow `usize`.
pub const MAX_ENDPOINTS: usize = 0x1000_0000;

/// A peak-EWMA load estimate: the decayed cost in nanoseconds and the
/// instant it was last updated.
#[derive(Clone, Copy, Debug)]
pub struct PeakEwma {
    pub cost: u64,
    pub last_update: u64,
}

/// The estimate after observing a sample `rtt` at distance `dt` from
/// the previous update: a sample at or above the estimate replaces it;
/// a sample below pulls it down, the gap halving once per elapsed
/// half-life `decay`.
pub open spec fn decayed_cost(cost: u64, rtt: u64, dt: u64, decay: u64) -> u64
    recommends
        decay > 0,
{
    if rtt >= cost {
        rtt
    } else {
        let k = if dt / decay > 63 {
            63u64
        } else {
            dt / decay
        };
        (rtt + (((cost - rtt) as u64) >> k)) as u64
    }
}

impl PeakEwma {
    pub fn new(default_rtt: u64, now: u64) -> (r: PeakEwma)
        ensures
            r.cost == default_rtt,
            r.last_update == now,
    {
        PeakEwma { cost: default_rtt, last_update: now }
    }

    /// Folds one latency sample into the estimate. A clock reading that
    /// ran behind the last update counts as no elapsed time.
    pub fn observe(&mut self, rtt: u64, now: u64, decay: u64)
        requires
            decay > 0,
        ensures
            final(self).cost == decayed_cost(
                old(self).cost,
                rtt,
                if now >= old(self).last_update {
                    (now - old(self).last_update) as u64
                } else {
                    0u64
                },
                decay,
            ),
            final(self).last_update == now,
    {
        let dt = if now >= self.last_update {
            now - self.last_update
        } else {
            0
        };
        if rtt >= self.cost {
            self.cost = rtt;
        } else {
            let mut k = dt / decay;
            if k > 63 {
                k = 63;
            }
            let gap = self.cost - rtt;
            let shrunk = gap >> k;
            proof {
                assert(gap >> k <= gap) by (bit_vector);
            }
            self.cost = rtt + shrunk;
        }
        self.last_update = now;
    }
}

/// The new estimate never falls below the sample and never rises above
/// the larger of the old estimate and the sample: the estimate ranks
/// endpoints without ever inventing a load outside what was observed.
pub proof fn lemma_decayed_cost_bounds(cost: u64, rtt: u64, dt: u64, decay: u64)
    requires
        decay > 0,
    ensures
        rtt <= decayed_cost(cost, rtt, dt, decay),
        decayed_cost(cost, rtt, dt, decay) <= (if cost >= rtt {
            cost
        } else {
            rtt
        }),
{
    if rtt < cost {
        let k = if dt / decay > 63 {
            63u64
        } else {
            dt / decay
        };
        let gap = (cost - rtt) as u64;
        assert(gap >> k <= gap) by (bit_vector);
    }
}

/// One pool member as the selector sees it: its backend service, its
/// load estimate, and whether it reported ready.
pub struct EndpointState<S> {
    pub svc: S,
    pub load: PeakEwma,
    pub ready: bool,
}

/// The pool of keyed backends behind one balanced service.
pub struct Selector<S> {
    set: EndpointSet<EndpointState<S>>,
    default_rtt: u64,
    decay: u64,
}

/// The two candidate indices derived from two random draws over a pool
/// of `n >= 2` members: always in range and always distinct.
pub open spec fn p2c_pair(n: int, r1: int, r2: int) -> (int, int)
    recommends
        n >= 2,
        r1 >= 0,
        r2 >= 0,
{
    let a = r1 % n;
    let off = r2 % (n - 1);
    let b = if a + 1 + off < n {
        a + 1 + off
    } else {
        a + 1 + off - n
    };
    (a, b)
}

/// Selector fairness under uniform load reduces to the draws: with
/// equal load estimates the tie-break keeps the first-sampled
/// candidate, so the picked index is exactly the first draw reduced
/// modulo the pool size — uniform draws spread dispatches uniformly.
pub proof fn lemma_p2c_uniform_load(loads: Seq<u64>, r1: int, r2: int)
    requires
        loads.len() >= 2,
        r1 >= 0,
        r2 >= 0,
        forall|i: int, j: int|
            0 <= i < loads.len() && 0 <= j < loads.len() ==> #[trigger] loads[i] == #[trigger] loads[j],
    ensures
        ({
            let (a, b) = p2c_pair(loads.len() as int, r1, r2);
            (if loads[b] < loads[a] {
                b
            } else {
                a
            }) == r1 % (loads.len() as int)
        }),
{
}

impl<S> Selector<S> {
    /// The bound keys, in insertion order.
    pub open spec fn key_seq(&self) -> Seq<SockAddr> {
        self.set_view().key_seq()
    }

    /// The underlying endpoint set.
    pub closed spec fn set_view(&self) -> EndpointSet<EndpointState<S>> {
        self.set
    }

    /// The load estimates, indexed like the keys.
    pub open spec fn loads(&self) -> Seq<u64> {
        self.set_view().pair_seq().map_values(|e: (SockAddr, EndpointState<S>)| e.1.load.cost)
    }

    pub open spec fn card(&self) -> nat {
        self.set_view().card()
    }

    pub open spec fn has_key(&self, key: SockAddr) -> bool {
        self.set_view().has_key(key)
    }

    pub closed spec fn decay_view(&self) -> u64 {
        self.decay
    }

    pub closed spec fn default_rtt_view(&self) -> u64 {
        self.default_rtt
    }

    pub open spec fn wf(&self) -> bool {
        &&& self.set_view().wf()
        &&& self.card() <= MAX_ENDPOINTS
        &&& self.decay_view() > 0
    }

    pub fn new(default_rtt: u64, decay: u64) -> (r: Selector<S>)
        requires
            decay > 0,
        ensures
            r.wf(),
            r.card() == 0,
            r.decay_view() == decay,
            r.default_rtt_view() == default_rtt,
    {
        Selector { set: EndpointSet::new(), default_rtt, decay }
    }

    pub fn len(&self) -> (r: usize)
        ensures
            r == self.card(),
    {
        self.set.len()
    }

    /// Admits a discovered endpoint, not yet ready, with the default
    /// load estimate.
    pub fn insert(&mut self, key: SockAddr, svc: S, now: u64) -> (r: Result<(), PoolFault>)
        requires
            old(self).wf(),
            old(self).card() < MAX_ENDPOINTS,
        ensures
            final(self).wf(),
            final(self).decay_view() == old(self).decay_view(),
            final(self).default_rtt_view() == old(self).default_rtt_view(),
            old(self).has_key(key) ==> r == Err::<(), PoolFault>(PoolFault::DuplicateKey) && final(self).key_seq() == old(self).key_seq(),
            !old(self).has_key(key) ==> {
                &&& r == Ok::<(), PoolFault>(())
                &&& final(self).key_seq() =~= old(self).key_seq().push(key)
                &&& final(self).loads() =~= old(self).loads().push(
                    old(self).default_rtt_view(),
                )
            },
    {
        let state = EndpointState {
            svc,
            load: PeakEwma::new(self.default_rtt, now),
            ready: false,
        };
        let r = self.set.add(key, state);
        proof {
            if !old(self).has_key(key) {
                assert(self.key_seq() =~= old(self).key_seq().push(key));
                assert(self.loads() =~= old(self).loads().push(old(self).default_rtt_view()));
            } else {
                assert(self.key_seq() =~= old(self).key_seq());
            }
        }
        r
    }

    /// Evicts a removed endpoint, returning its service.
    pub fn remove(&mut self, key: SockAddr) -> (r: Result<S, PoolFault>)
        requires
            old(self).wf(),
        ensures
            final(self).wf(),
            final(self).decay_view() == old(self).decay_view(),
            final(self).default_rtt_view() == old(self).default_rtt_view(),
            !old(self).has_key(key) ==> r == Err::<S, PoolFault>(PoolFault::UnknownKey) && final(self).key_seq() == old(self).key_seq(),
            old(self).has_key(key) ==> exists|i: int|
                {
                    &&& 0 <= i < old(self).card()
                    &&& old(self).key_seq()[i] == key
                    &&& r == Ok::<S, PoolFault>(old(self).set_view().pair_seq()[i].1.svc)
                    &&& final(self).card() + 1 == old(self).card()
                    &&& !final(self).has_key(key)
                },
    {
        match self.set.remove(key) {
            Ok(state) => {
                proof {
                    let i = choose|i: int|
                        {
                            &&& 0 <= i < old(self).set_view().pair_seq().len()
                            &&& old(self).set_view().key_seq()[i] == key
                            &&& self.set_view().pair_seq() == old(self).set_view().pair_seq().remove(i)
                        };
                    old(self).set_view().pair_seq().remove_ensures(i);
                    assert(self.key_seq() =~= old(self).key_seq().remove(i));
                    lemma_unique_remove_no_longer_contains(old(self).key_seq(), i);
                    assert(state == old(self).set_view().pair_seq()[i].1);
                }
                Ok(state.svc)
            },
            Err(e) => Err(e),
        }
    }

    /// The selector is ready exactly when some pool member is ready;
    /// otherwise the caller stays in backpressure, never an error.
    pub fn is_ready(&self) -> (r: bool)
        ensures
            r == exists|i: int|
                0 <= i < self.set_view().pair_seq().len()
                    && (#[trigger] self.set_view().pair_seq()[i]).1.ready,
    {
        let n = self.set.len();
        let mut i: usize = 0;
        while i < n
            invariant
                n == self.card(),
                i <= n,
                forall|j: int|
                    0 <= j < i ==> !(#[trigger] self.set_view().pair_seq()[j]).1.ready,
            decreases n - i,
        {
            if self.set.get(i).1.ready {
                return true;
            }
            i += 1;
        }
        false
    }

    /// Records an endpoint's readiness as last reported. Returns false
    /// when the key is no longer bound.
    pub fn set_ready(&mut self, key: SockAddr, ready: bool) -> (r: bool)
        requires
            old(self).wf(),
        ensures
            final(self).wf(),
            final(self).decay_view() == old(self).decay_view(),
            final(self).default_rtt_view() == old(self).default_rtt_view(),
            final(self).key_seq() == old(self).key_seq(),
            final(self).loads() =~= old(self).loads(),
            r == old(self).has_key(key),
            forall|i: int|
                0 <= i < final(self).set_view().pair_seq().len() ==> (
                #[trigger] final(self).set_view().pair_seq()[i]).1.ready == (if old(self).key_seq()[i] == key {
                    ready
                } else {
                    old(self).set_view().pair_seq()[i].1.ready
                }),
    {
        let n = self.set.len();
        let mut i: usize = 0;
        while i < n
            invariant
                old(self).wf(),
                self.set_view() == old(self).set_view(),
                self.decay_view() == old(self).decay_view(),
                self.default_rtt_view() == old(self).default_rtt_view(),
                n == self.card(),
                i <= n,
                forall|j: int| 0 <= j < i ==> old(self).key_seq()[j] != key,
            decreases n - i,
        {
            if self.set.get(i).0 == key {
                let ghost pre = self.set;
                let slot = self.set.value_mut(i);
                let load = slot.load;
                slot.ready = ready;
                proof {
                    EndpointSet::lemma_value_update_wf(
                        pre,
                        self.set,
                        i as int,
                        self.set.pair_seq()[i as int].1,
                    );
                    assert(self.key_seq() =~= old(self).key_seq());
                    assert(self.loads() =~= old(self).loads());
                    assert(old(self).has_key(key)) by {
                        assert(old(self).key_seq()[i as int] == key);
                    }
                    assert forall|j: int|
                        0 <= j < self.set_view().pair_seq().len() implies (
                    #[trigger] self.set_view().pair_seq()[j]).1.ready == (if old(self).key_seq()[j] == key {
                        ready
                    } else {
                        old(self).set_view().pair_seq()[j].1.ready
                    }) by {
                        if j < i as int {
                            assert(old(self).key_seq()[j] != old(self).key_seq()[i as int]);
                        } else if j > i as int {
                            assert(old(self).key_seq()[i as int] != old(self).key_seq()[j]);
                        }
                    }
                }
                return true;
            }
            i += 1;
        }
        false
    }

    /// Folds a completed request's latency sample into an endpoint's
    /// load estimate. Returns false when the key is no longer bound,
    /// which can happen when a response outlives its endpoint.
    pub fn observe(&mut self, key: SockAddr, rtt: u64, now: u64) -> (r: bool)
        requires
            old(self).wf(),
        ensures
            final(self).wf(),
            final(self).decay_view() == old(self).decay_view(),
            final(self).default_rtt_view() == old(self).default_rtt_view(),
            final(self).key_seq() == old(self).key_seq(),
            r == old(self).has_key(key),
            forall|i: int|
                0 <= i < final(self).loads().len() ==> #[trigger] final(self).loads()[i] == (if old(self).key_seq()[i] == key {
                    decayed_cost(
                        old(self).loads()[i],
                        rtt,
                        if now >= old(self).set_view().pair_seq()[i].1.load.last_update {
                            (now - old(self).set_view().pair_seq()[i].1.load.last_update) as u64
                        } else {
                            0u64
                        },
                        old(self).decay_view(),
                    )
                } else {
                    old(self).loads()[i]
                }),
    {
        let n = self.set.len();
        let mut i: usize = 0;
        while i < n
            invariant
                old(self).wf(),
                self.set_view() == old(self).set_view(),
                self.decay_view() == old(self).decay_view(),
                self.default_rtt_view() == old(self).default_rtt_view(),
                n == self.card(),
                i <= n,
                forall|j: int| 0 <= j < i ==> old(self).key_seq()[j] != key,
            decreases n - i,
        {
            if self.set.get(i).0 == key {
                let ghost pre = self.set;
                let decay = self.decay;
                let slot = self.set.value_mut(i);
                slot.load.observe(rtt, now, decay);
                proof {
                    EndpointSet::lemma_value_update_wf(
                        pre,
                        self.set,
                        i as int,
                        self.set.pair_seq()[i as int].1,
                    );
                    assert(self.key_seq() =~= old(self).key_seq());
                    assert forall|j: int| 0 <= j < self.loads().len() implies
                        #[trigger] self.loads()[j] == (if old(self).key_seq()[j] == key {
                            decayed_cost(
                                old(self).loads()[j],
                                rtt,
                                if now >= old(self).set_view().pair_seq()[j].1.load.last_update {
                                    (now - old(self).set_view().pair_seq()[j].1.load.last_update) as u64
                                } else {
                                    0u64
                                },
                                old(self).decay_view(),
                            )
                        } else {
                            old(self).loads()[j]
                        }) by {
                        if j < i as int {
                            assert(old(self).key_seq()[j] != old(self).key_seq()[i as int]);
                        } else if j > i as int {
                            assert(old(self).key_seq()[i as int] != old(self).key_seq()[j]);
                        }
                    }
                    assert(old(self).has_key(key)) by {
                        assert(old(self).key_seq()[i as int] == key);
                    }
                }
                return true;
            }
            i += 1;
        }
        false
    }

    /// Picks the endpoint for one dispatch from two draws of the
    /// embedder's random source. An empty pool yields nothing (the
    /// caller falls back or applies backpressure); a single member is
    /// used as is; otherwise two distinct candidates are derived from
    /// the draws and the one with the lower load estimate wins, the
    /// first-sampled winning ties.
    pub fn pick(&self, r1: usize, r2: usize) -> (r: Option<usize>)
        requires
            self.wf(),
        ensures
            self.card() == 0 ==> r is None,
            self.card() == 1 ==> r == Some(0usize),
            self.card() >= 2 ==> ({
                let (a, b) = p2c_pair(self.card() as int, r1 as int, r2 as int);
                &&& 0 <= a < self.card()
                &&& 0 <= b < self.card()
                &&& a != b
                &&& r == Some(
                    (if self.loads()[b] < self.loads()[a] {
                        b
                    } else {
                        a
                    }) as usize,
                )
            }),
    {
        let n = self.set.len();
        if n == 0 {
            return None;
        }
        if n == 1 {
            return Some(0);
        }
        let a = r1 % n;
        let off = r2 % (n - 1);
        let b = if a + 1 + off < n {
            a + 1 + off
        } else {
            a + 1 + off - n
        };
        let load_a = self.set.get(a).1.load.cost;
        let load_b = self.set.get(b).1.load.cost;
        if load_b < load_a {
            Some(b)
        } else {
            Some(a)
        }
    }

    /// Read access to the `i`th member's backend service.
    pub fn service_at(&self, i: usize) -> (r: &S)
        requires
            i < self.card(),
        ensures
            *r == self.set_view().pair_seq()[i as int].1.svc,
    {
        &self.set.get(i).1.svc
    }

    /// The `i`th member's key, to attribute a completed request's
    /// sample to the endpoint it was dispatched to.
    pub fn key_at(&self, i: usize) -> (r: SockAddr)
        requires
            i < self.card(),
        ensures
            r == self.key_seq()[i as int],
    {
        self.set.get(i).0
    }
}

} // verus!
