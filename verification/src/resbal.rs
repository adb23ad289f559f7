//! Endpoint discovery: adapts a resolution stream of `Add`/`Remove`
//! events into live backend service instances, invoking the backend
//! factory once per `Add`, surfacing the change outward so the pool
//! view stays observable, and tracking pool emptiness in lockstep.
//!
//! The adapter consumes one stream outcome per step, through verified
//! functions that take the outcome as an argument: [`Discover::apply`]
//! fixes, for every update, exactly which change is surfaced and how
//! the key set and the emptiness flag move ([`step_surfaces`]), and
//! [`Discover::absorb`] fixes how a stream failure is tagged. One
//! update in, at most one change out, the key set stepped by exactly
//! that update's event: changes are surfaced in receipt order, never
//! reordered or coalesced.
//!
//! A resolution failure or a factory failure terminates the discovery
//! stream for that target: the mechanism for finding backends is
//! broken, so the error propagates as a request-path error — tagged
//! with the collaborator that failed — rather than being swallowed.

use vstd::prelude::*;

use crate::addr_info::SockAddr;
use crate::pool::{pool_step, EndpointSet, EndpointStatus, PoolEvent, PoolModel};
use crate::selector::Selector;
use crate::svc::{Async, Poll};

verus! {

/// Default baseline round-trip estimate for a fresh endpoint, in
/// nanoseconds (30 milliseconds).
pub const EWMA_DEFAULT_RTT: u64 = 30_000_000;

/// Default decay half-life of the load estimate, in nanoseconds
/// (10 seconds).
pub const EWMA_DECAY: u64 = 10_000_000_000;

/// Resolves a target to a live stream of endpoint-set changes.
pub trait Resolve<T> {
    type Endpoint;

    type Resolution: Resolution<Endpoint = Self::Endpoint>;

    fn resolve(&self, target: &T) -> Self::Resolution;
}

/// A lazy, infinite, non-restartable stream of endpoint-set changes,
/// fallible; the collaborator interface a naming system implements.
pub trait Resolution {
    type Endpoint;

    type Error;

    fn poll(&mut self) -> Poll<Update<Self::Endpoint>, Self::Error>;
}

/// One endpoint-set change as the resolution stream reports it.
#[derive(Clone, Debug)]
pub enum Update<T> {
    Add(SockAddr, T),
    Remove(SockAddr),
}

/// The key-set event an update stands for.
pub open spec fn event_of<T>(up: Update<T>) -> PoolEvent {
    match up {
        Update::Add(addr, _) => PoolEvent::Add { key: addr },
        Update::Remove(addr) => PoolEvent::Remove { key: addr },
    }
}

/// One endpoint-set change as the discovery adapter surfaces it to the
/// selector, with the backend service already built.
#[derive(Debug)]
pub enum Change<S> {
    Insert(SockAddr, S),
    Remove(SockAddr),
}

/// Why a discovery stream ended: the resolution stream failed, or the
/// backend factory failed.
#[derive(Clone, Copy, Debug)]
pub enum Error<R, M> {
    Resolve(R),
    Stack(M),
}

/// How consuming one update relates what is surfaced to how the key
/// set moves, if and only if:
///
/// - an `Add` with a fresh key either surfaces `Insert` with exactly
///   that key — the factory's product aboard — and steps the key set
///   by that event, or fails with the factory's error, tagged `Stack`,
///   changing nothing; nothing else is possible;
/// - a `Remove` of a bound key surfaces `Remove` with exactly that
///   key and steps the key set by that event; it cannot fail;
/// - the two key-discipline faults — an `Add` for a bound key, a
///   `Remove` for an unbound one — surface nothing and change
///   nothing, and pending is reported exactly in those two cases.
pub open spec fn step_surfaces<T, S, RE, ME>(
    pre: PoolModel,
    up: Update<T>,
    post: PoolModel,
    r: Poll<Change<S>, Error<RE, ME>>,
) -> bool {
    match r {
        Ok(Async::Ready(Change::Insert(k, _))) => up matches Update::Add(a, _) && k == a
            && !pre.keys.contains(a) && post == pool_step(pre, event_of(up)),
        Ok(Async::Ready(Change::Remove(k))) => up matches Update::Remove(a) && k == a
            && pre.keys.contains(a) && post == pool_step(pre, event_of(up)),
        Ok(Async::NotReady) => post == pre && (match up {
            Update::Add(a, _) => pre.keys.contains(a),
            Update::Remove(a) => !pre.keys.contains(a),
        }),
        Err(e) => e is Stack && post == pre && (up matches Update::Add(a, _)
            && !pre.keys.contains(a)),
    }
}

/// Configures discovery with a resolver.
#[derive(Clone, Debug)]
pub struct Layer<R> {
    resolve: R,
}

/// A stack that resolves targets and balances requests over the
/// discovered endpoints.
#[derive(Clone, Debug)]
pub struct Stack<R, M> {
    resolve: R,
    inner: M,
}

pub fn layer<R: Clone>(resolve: R) -> (r: Layer<R>)
    ensures
        r.resolve_view() == resolve,
{
    Layer { resolve }
}

impl<R> Layer<R> {
    pub closed spec fn resolve_view(&self) -> R {
        self.resolve
    }
}

impl<R: Clone> Layer<R> {
    pub fn bind<M>(&self, inner: M) -> (r: Stack<R, M>)
        ensures
            r.inner_view() == inner,
    {
        Stack { resolve: self.resolve.clone(), inner }
    }
}

impl<R, M> Stack<R, M> {
    pub closed spec fn resolve_view(&self) -> R {
        self.resolve
    }

    pub closed spec fn inner_view(&self) -> M {
        self.inner
    }

    /// Starts discovery for a target: resolves it and pairs the empty
    /// discovery adapter with an empty selector configured with the
    /// default load-estimate baseline and decay.
    pub fn make<T>(&self, target: &T) -> (r: (
        Discover<R::Resolution, M>,
        Selector<M::Value>,
    )) where
        R: Resolve<T> + Clone,
        M: crate::svc::Stack<R::Endpoint> + Clone,

        ensures
            r.0.wf(),
            r.0.card() == 0,
            r.0.flag(),
            r.1.wf(),
            r.1.card() == 0,
            r.1.default_rtt_view() == EWMA_DEFAULT_RTT,
            r.1.decay_view() == EWMA_DECAY,
    {
        let resolution = self.resolve.resolve(target);
        let discover = Discover { resolution, make: self.inner.clone(), keys: EndpointSet::new() };
        let selector = Selector::new(EWMA_DEFAULT_RTT, EWMA_DECAY);
        (discover, selector)
    }
}

/// The discovery adapter: drains the resolution stream, builds a
/// backend service per `Add`, and keeps the key set and the emptiness
/// flag current with every surfaced change.
pub struct Discover<R: Resolution, M: crate::svc::Stack<R::Endpoint>> {
    resolution: R,
    make: M,
    keys: EndpointSet<()>,
}

impl<R: Resolution, M: crate::svc::Stack<R::Endpoint>> Discover<R, M> {
    /// The keys currently bound, in insertion order.
    pub open spec fn key_seq(&self) -> Seq<SockAddr> {
        self.keys_view().key_seq()
    }

    /// The key set with its emptiness flag.
    pub closed spec fn keys_view(&self) -> EndpointSet<()> {
        self.keys
    }

    /// The key set and flag as a specification-level pool.
    pub open spec fn pool_model(&self) -> PoolModel {
        PoolModel { keys: self.key_seq(), empty: self.flag() }
    }

    pub open spec fn card(&self) -> nat {
        self.keys_view().card()
    }

    pub open spec fn has_key(&self, key: SockAddr) -> bool {
        self.keys_view().has_key(key)
    }

    /// The emptiness flag as maintained alongside the key set.
    pub open spec fn flag(&self) -> bool {
        self.keys_view().flag()
    }

    pub open spec fn wf(&self) -> bool {
        self.keys_view().wf()
    }

    /// A snapshot of the emptiness flag, to share with the fallback
    /// composer.
    pub fn endpoint_status(&self) -> (r: EndpointStatus)
        ensures
            r@ == self.flag(),
    {
        self.keys.status()
    }

    /// Consumes one update from the resolution stream. An `Add` with a
    /// fresh key invokes the factory exactly once, with that event's
    /// endpoint descriptor, and surfaces its product keyed by that
    /// address — or the factory's error, tagged `Stack`. A `Remove` of
    /// a bound key surfaces the removal of exactly that key. The key
    /// set and the emptiness flag move in the same transition as the
    /// surfaced change, by exactly this update's event. The two
    /// key-discipline faults change nothing and are reported as
    /// pending; [`step_surfaces`] states all of this if and only if.
    pub fn apply(&mut self, up: Update<R::Endpoint>) -> (r: Poll<
        Change<M::Value>,
        Error<R::Error, M::Error>,
    >)
        requires
            old(self).wf(),
        ensures
            final(self).wf(),
            step_surfaces(old(self).pool_model(), up, final(self).pool_model(), r),
    {
        match up {
            Update::Add(addr, target) => {
                if self.keys.contains_key(addr) {
                    return Ok(Async::NotReady);
                }
                match self.make.make(&target) {
                    Err(e) => Err(Error::Stack(e)),
                    Ok(svc) => {
                        let added = self.keys.add(addr, ());
                        proof {
                            assert(added is Ok);
                            assert(self.key_seq() =~= old(self).key_seq().push(addr));
                            assert(self.pool_model() == pool_step(
                                old(self).pool_model(),
                                PoolEvent::Add { key: addr },
                            ));
                        }
                        Ok(Async::Ready(Change::Insert(addr, svc)))
                    },
                }
            },
            Update::Remove(addr) => {
                match self.keys.remove(addr) {
                    Err(_) => Ok(Async::NotReady),
                    Ok(_) => {
                        proof {
                            let pre = old(self).pool_model();
                            let i = choose|i: int|
                                {
                                    &&& 0 <= i < old(self).keys_view().pair_seq().len()
                                    &&& old(self).keys_view().key_seq()[i] == addr
                                    &&& self.keys_view().pair_seq() == old(self).keys_view().pair_seq().remove(i)
                                };
                            old(self).keys_view().pair_seq().remove_ensures(i);
                            assert(self.key_seq() =~= old(self).key_seq().remove(i));
                            let j = pre.keys.index_of(addr);
                            assert(pre.keys.contains(addr));
                            assert(0 <= j < pre.keys.len() && pre.keys[j] == addr);
                            if i != j {
                                assert(old(self).key_seq()[i] == old(self).key_seq()[j]);
                                assert(false);
                            }
                            assert(self.pool_model() == pool_step(
                                pre,
                                PoolEvent::Remove { key: addr },
                            ));
                        }
                        Ok(Async::Ready(Change::Remove(addr)))
                    },
                }
            },
        }
    }

    /// Consumes one outcome of polling the resolution stream: a stream
    /// failure is surfaced as exactly that error, tagged `Resolve`;
    /// pending passes through; a ready update is consumed by
    /// [`Discover::apply`].
    pub fn absorb(&mut self, outcome: Poll<Update<R::Endpoint>, R::Error>) -> (r: Poll<
        Change<M::Value>,
        Error<R::Error, M::Error>,
    >)
        requires
            old(self).wf(),
        ensures
            final(self).wf(),
            outcome matches Err(e) ==> r == Err::<Async<Change<M::Value>>, Error<R::Error, M::Error>>(
                Error::Resolve(e),
            ) && final(self).pool_model() == old(self).pool_model(),
            outcome matches Ok(Async::NotReady) ==> r == Ok::<
                Async<Change<M::Value>>,
                Error<R::Error, M::Error>,
            >(Async::NotReady) && final(self).pool_model() == old(self).pool_model(),
            outcome matches Ok(Async::Ready(up)) ==> step_surfaces(
                old(self).pool_model(),
                up,
                final(self).pool_model(),
                r,
            ),
    {
        match outcome {
            Err(e) => Err(Error::Resolve(e)),
            Ok(Async::NotReady) => Ok(Async::NotReady),
            Ok(Async::Ready(up)) => self.apply(up),
        }
    }

    /// Drives discovery one stream outcome forward; what each outcome
    /// yields is fixed by [`Discover::absorb`] and [`Discover::apply`].
    pub fn poll(&mut self) -> (r: Poll<Change<M::Value>, Error<R::Error, M::Error>>)
        requires
            old(self).wf(),
        ensures
            final(self).wf(),
            r matches Ok(Async::Ready(Change::Insert(key, _))) ==> !old(self).has_key(key)
                && final(self).pool_model() == pool_step(
                old(self).pool_model(),
                PoolEvent::Add { key },
            ),
            r matches Ok(Async::Ready(Change::Remove(key))) ==> old(self).has_key(key) && final(self).pool_model() == pool_step(old(self).pool_model(), PoolEvent::Remove { key }),
            (r matches Ok(Async::NotReady) || r is Err) ==> final(self).pool_model() == old(self).pool_model(),
    {
        let outcome = self.resolution.poll();
        self.absorb(outcome)
    }
}

} // verus!
