//! The endpoint set: a mapping from endpoint key to a live backend
//! service, together with the pool-emptiness flag.
//!
//! The set is owned by its discovery task and mutated only through
//! [`EndpointSet::add`] and [`EndpointSet::remove`]; the emptiness flag
//! is written in the same transition as every cardinality change, so it
//! can never diverge from the count. The request path reads the flag
//! through an [`EndpointStatus`] snapshot; sharing the flag across task
//! boundaries (an atomic read) belongs to the embedding runtime.

use vstd::prelude::*;

use crate::addr_info::SockAddr;

verus! {

/// A read of the pool-emptiness flag, as the request path sees it.
#[derive(Clone, Copy, Debug)]
pub struct EndpointStatus {
    empty: bool,
}

impl View for EndpointStatus {
    type V = bool;

    closed spec fn view(&self) -> bool {
        self.empty
    }
}

impl EndpointStatus {
    pub fn new(empty: bool) -> (r: EndpointStatus)
        ensures
            r@ == empty,
    {
        EndpointStatus { empty }
    }

    /// Whether the pool was empty at the instant of the snapshot.
    pub fn is_empty(&self) -> (r: bool)
        ensures
            r == self@,
    {
        self.empty
    }
}

/// A key-discipline violation: these indicate a defective resolution
/// stream, not a runtime condition to recover from.
#[derive(Clone, Copy, Debug, PartialEq, Eq, Structural)]
pub enum PoolFault {
    /// An `Add` arrived for a key that is still bound.
    DuplicateKey,
    /// A `Remove` arrived for a key that is not bound.
    UnknownKey,
}

/// The live pool: endpoint keys, each bound to a backend service, plus
/// the emptiness flag updated in lockstep.
pub struct EndpointSet<S> {
    entries: Vec<(SockAddr, S)>,
    empty: bool,
}

impl<S> EndpointSet<S> {
    /// The bound key/service pairs, in insertion order.
    pub closed spec fn pair_seq(&self) -> Seq<(SockAddr, S)> {
        self.entries@
    }

    /// The bound keys, in insertion order.
    pub open spec fn key_seq(&self) -> Seq<SockAddr> {
        self.pair_seq().map_values(|e: (SockAddr, S)| e.0)
    }

    pub open spec fn has_key(&self, key: SockAddr) -> bool {
        self.key_seq().contains(key)
    }

    /// How many endpoints are bound.
    pub open spec fn card(&self) -> nat {
        self.pair_seq().len()
    }

    /// The emptiness flag as stored.
    pub closed spec fn flag(&self) -> bool {
        self.empty
    }

    /// Keys are unique, and the flag is true exactly when the set holds
    /// nothing.
    pub open spec fn wf(&self) -> bool {
        &&& forall|i: int, j: int|
            0 <= i < j < self.key_seq().len() ==> self.key_seq()[i] != self.key_seq()[j]
        &&& self.flag() == (self.card() == 0)
    }

    pub fn new() -> (r: EndpointSet<S>)
        ensures
            r.wf(),
            r.card() == 0,
            r.flag(),
    {
        EndpointSet { entries: Vec::new(), empty: true }
    }

    pub fn len(&self) -> (r: usize)
        ensures
            r == self.card(),
    {
        self.entries.len()
    }

    /// Whether the pool is empty; under [`EndpointSet::wf`] this equals
    /// the stored flag.
    pub fn is_empty(&self) -> (r: bool)
        ensures
            r == (self.card() == 0),
    {
        self.entries.len() == 0
    }

    /// A snapshot of the emptiness flag for the request path.
    pub fn status(&self) -> (r: EndpointStatus)
        ensures
            r@ == self.flag(),
    {
        EndpointStatus { empty: self.empty }
    }

    /// Whether `key` is currently bound.
    pub fn contains_key(&self, key: SockAddr) -> (r: bool)
        ensures
            r == self.has_key(key),
    {
        let n = self.entries.len();
        let mut i: usize = 0;
        while i < n
            invariant
                n == self.pair_seq().len(),
                i <= n,
                forall|j: int| 0 <= j < i ==> self.key_seq()[j] != key,
            decreases n - i,
        {
            if self.entries[i].0 == key {
                assert(self.key_seq()[i as int] == key);
                return true;
            }
            i += 1;
        }
        assert(forall|j: int| 0 <= j < self.key_seq().len() ==> self.key_seq()[j] != key);
        false
    }

    /// Binds `key` to `svc`. Fails, changing nothing, when the key is
    /// still bound to an entry not yet removed. Clears the emptiness
    /// flag in the same transition.
    pub fn add(&mut self, key: SockAddr, svc: S) -> (r: Result<(), PoolFault>)
        requires
            old(self).wf(),
        ensures
            final(self).wf(),
            old(self).has_key(key) ==> {
                &&& r == Err::<(), PoolFault>(PoolFault::DuplicateKey)
                &&& final(self).pair_seq() == old(self).pair_seq()
                &&& final(self).flag() == old(self).flag()
            },
            !old(self).has_key(key) ==> {
                &&& r == Ok::<(), PoolFault>(())
                &&& final(self).pair_seq() == old(self).pair_seq().push((key, svc))
                &&& final(self).card() == old(self).card() + 1
                &&& !final(self).flag()
            },
    {
        if self.contains_key(key) {
            return Err(PoolFault::DuplicateKey);
        }
        self.entries.push((key, svc));
        self.empty = false;
        proof {
            assert(final(self).key_seq() =~= old(self).key_seq().push(key));
        }
        Ok(())
    }

    /// Unbinds `key`, returning its service. Fails, changing nothing,
    /// when the key is not bound. Sets the emptiness flag in the same
    /// transition exactly when the count reaches zero.
    pub fn remove(&mut self, key: SockAddr) -> (r: Result<S, PoolFault>)
        requires
            old(self).wf(),
        ensures
            final(self).wf(),
            !old(self).has_key(key) ==> {
                &&& r == Err::<S, PoolFault>(PoolFault::UnknownKey)
                &&& final(self).pair_seq() == old(self).pair_seq()
                &&& final(self).flag() == old(self).flag()
            },
            old(self).has_key(key) ==> exists|i: int|
                {
                    &&& 0 <= i < old(self).pair_seq().len()
                    &&& old(self).key_seq()[i] == key
                    &&& final(self).pair_seq() == old(self).pair_seq().remove(i)
                    &&& r matches Ok(svc) && svc == old(self).pair_seq()[i].1
                    &&& final(self).card() + 1 == old(self).card()
                    &&& final(self).flag() == (final(self).card() == 0)
                },
    {
        let n = self.entries.len();
        let mut i: usize = 0;
        while i < n
            invariant
                old(self).wf(),
                self.pair_seq() == old(self).pair_seq(),
                self.flag() == old(self).flag(),
                n == self.pair_seq().len(),
                i <= n,
                forall|j: int| 0 <= j < i ==> self.key_seq()[j] != key,
            decreases n - i,
        {
            if self.entries[i].0 == key {
                let ghost prev = old(self).pair_seq();
                let ghost idx = i as int;
                assert(old(self).key_seq()[idx] == key);
                let (_, svc) = self.entries.remove(i);
                self.empty = self.entries.len() == 0;
                proof {
                    prev.remove_ensures(idx);
                    assert(self.pair_seq() =~= prev.remove(idx));
                    assert forall|a: int, b: int|
                        0 <= a < b < self.key_seq().len() implies self.key_seq()[a]
                        != self.key_seq()[b] by {
                        let pa = if a < idx {
                            a
                        } else {
                            a + 1
                        };
                        let pb = if b < idx {
                            b
                        } else {
                            b + 1
                        };
                        assert(self.pair_seq()[a] == prev[pa]);
                        assert(self.pair_seq()[b] == prev[pb]);
                        assert(old(self).key_seq()[pa] == prev[pa].0);
                        assert(old(self).key_seq()[pb] == prev[pb].0);
                    }
                    assert({
                        &&& 0 <= idx < old(self).pair_seq().len()
                        &&& old(self).key_seq()[idx] == key
                        &&& self.pair_seq() == old(self).pair_seq().remove(idx)
                        &&& svc == old(self).pair_seq()[idx].1
                    });
                }
                return Ok(svc);
            }
            i += 1;
        }
        proof {
            assert(self.key_seq() =~= old(self).key_seq());
            assert(self.wf());
        }
        Err(PoolFault::UnknownKey)
    }

    /// The `i`th bound key/service pair, in insertion order.
    pub fn get(&self, i: usize) -> (r: &(SockAddr, S))
        requires
            i < self.card(),
        ensures
            *r == self.pair_seq()[i as int],
    {
        &self.entries[i]
    }

    /// Mutable access to the `i`th bound service; the key stays bound.
    pub fn value_mut(&mut self, i: usize) -> (r: &mut S)
        requires
            old(self).wf(),
            i < old(self).card(),
        ensures
            *r == old(self).pair_seq()[i as int].1,
            final(self).pair_seq() == old(self).pair_seq().update(
                i as int,
                (old(self).pair_seq()[i as int].0, *final(r)),
            ),
            final(self).flag() == old(self).flag(),
    {
        &mut self.entries[i].1
    }

    /// Replacing a bound service in place keeps the set well formed:
    /// the keys and the flag are untouched.
    pub proof fn lemma_value_update_wf(pre: Self, post: Self, i: int, v: S)
        requires
            pre.wf(),
            0 <= i < pre.card(),
            post.pair_seq() == pre.pair_seq().update(i, (pre.pair_seq()[i].0, v)),
            post.flag() == pre.flag(),
        ensures
            post.wf(),
    {
        assert(post.key_seq() =~= pre.key_seq());
    }
}


/// Removing an index from a duplicate-free key sequence removes that
/// key for good.
pub proof fn lemma_unique_remove_no_longer_contains(keys: Seq<SockAddr>, i: int)
    requires
        0 <= i < keys.len(),
        forall|a: int, b: int| 0 <= a < b < keys.len() ==> keys[a] != keys[b],
    ensures
        !keys.remove(i).contains(keys[i]),
{
    keys.remove_ensures(i);
    assert forall|j: int| 0 <= j < keys.remove(i).len() implies keys.remove(i)[j] != keys[i] by {
        if j < i {
            assert(keys.remove(i)[j] == keys[j]);
        } else {
            assert(keys.remove(i)[j] == keys[j + 1]);
        }
    }
}

// === Law of the emptiness flag ===
/// One endpoint-set change, by key.
pub enum PoolEvent {
    Add { key: SockAddr },
    Remove { key: SockAddr },
}

/// Specification-level pool: the bound keys and the emptiness flag, as
/// [`EndpointSet::add`] and [`EndpointSet::remove`] maintain them. An
/// `Add` for a bound key and a `Remove` for an unbound key are faults
/// and change nothing.
pub struct PoolModel {
    pub keys: Seq<SockAddr>,
    pub empty: bool,
}

pub open spec fn pool_init() -> PoolModel {
    PoolModel { keys: Seq::empty(), empty: true }
}

pub open spec fn pool_step(p: PoolModel, ev: PoolEvent) -> PoolModel {
    match ev {
        PoolEvent::Add { key } => if p.keys.contains(key) {
            p
        } else {
            PoolModel { keys: p.keys.push(key), empty: false }
        },
        PoolEvent::Remove { key } => if p.keys.contains(key) {
            let keys = p.keys.remove(p.keys.index_of(key));
            PoolModel { keys, empty: keys.len() == 0 }
        } else {
            p
        },
    }
}

pub open spec fn pool_run(p: PoolModel, evs: Seq<PoolEvent>) -> PoolModel
    decreases evs.len(),
{
    if evs.len() == 0 {
        p
    } else {
        pool_run(pool_step(p, evs[0]), evs.drop_first())
    }
}

/// Each step keeps the flag tied to the cardinality.
pub proof fn lemma_pool_step_consistent(p: PoolModel, ev: PoolEvent)
    requires
        p.empty == (p.keys.len() == 0),
    ensures
        pool_step(p, ev).empty == (pool_step(p, ev).keys.len() == 0),
{
    match ev {
        PoolEvent::Add { key } => {},
        PoolEvent::Remove { key } => {
            if p.keys.contains(key) {
                let i = p.keys.index_of(key);
                assert(0 <= i < p.keys.len());
            }
        },
    }
}

/// Empty-flag consistency: for every sequence of Add/Remove events
/// applied from the empty pool, the flag is true exactly when the live
/// count is zero.
pub proof fn lemma_empty_flag_consistency(evs: Seq<PoolEvent>)
    ensures
        pool_run(pool_init(), evs).empty == (pool_run(pool_init(), evs).keys.len() == 0),
{
    lemma_pool_run_consistent(pool_init(), evs);
}

/// The flag stays tied to the cardinality over any run.
pub proof fn lemma_pool_run_consistent(p: PoolModel, evs: Seq<PoolEvent>)
    requires
        p.empty == (p.keys.len() == 0),
    ensures
        pool_run(p, evs).empty == (pool_run(p, evs).keys.len() == 0),
    decreases evs.len(),
{
    if evs.len() > 0 {
        lemma_pool_step_consistent(p, evs[0]);
        lemma_pool_run_consistent(pool_step(p, evs[0]), evs.drop_first());
    }
}

} // verus!
