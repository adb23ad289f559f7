//! The fallback composer: wraps the balanced endpoint pool together
//! with a fallback service and routes each request to whichever is
//! appropriate, by one read of the pool-emptiness flag per dispatch.
//!
//! While the pool is empty every request goes to the fallback path;
//! the moment endpoints appear, requests go to the pool, with no added
//! latency once the pool is populated. Errors from the two paths stay
//! distinguishable through [`Error`].

use vstd::prelude::*;

use crate::pool::EndpointStatus;
use crate::svc::Identity;

verus! {

/// An error from the composed service, tagged with the path it came
/// from so callers can tell which failed without losing the cause.
#[derive(Clone, Copy, Debug)]
pub enum Error<B, F> {
    /// The balanced pool path failed.
    Balance(B),
    /// The fallback path failed.
    Fallback(F),
}

impl<B, F> Error<B, F> {
    /// The underlying cause, with the path tag stripped.
    pub fn source(self) -> (r: crate::svc::Either<B, F>)
        ensures
            self matches Error::Balance(b) ==> r == crate::svc::Either::<B, F>::A(b),
            self matches Error::Fallback(f) ==> r == crate::svc::Either::<B, F>::B(f),
    {
        match self {
            Error::Balance(b) => crate::svc::Either::A(b),
            Error::Fallback(f) => crate::svc::Either::B(f),
        }
    }
}

/// Where one dispatched request goes, carrying the request unchanged:
/// no request is lost or duplicated by the routing decision.
#[derive(Clone, Copy, Debug)]
pub enum Routed<Req> {
    /// To the balanced endpoint pool.
    Balance(Req),
    /// To the fallback path.
    Fallback(Req),
}

/// The routing decision: the fallback exactly when the pool-emptiness
/// flag read true, the pool otherwise.
pub open spec fn routed<Req>(empty: bool, req: Req) -> Routed<Req> {
    if empty {
        Routed::Fallback(req)
    } else {
        Routed::Balance(req)
    }
}

/// Which services a readiness check consults: the pool is always
/// polled so its state machine keeps advancing; while the pool is
/// empty the reported readiness is the fallback's.
#[derive(Clone, Copy, Debug, PartialEq, Eq, Structural)]
pub enum PollPlan {
    /// Poll the pool and report its readiness.
    PoolOnly,
    /// Poll the pool, and poll and report the fallback.
    PoolAndFallback,
}

/// A one-shot making of the balanced service, as its readiness is
/// observed: not yet ready, ready with the made value, or consumed.
#[derive(Debug)]
pub enum Making<F, T> {
    NotReady(F),
    Ready(T),
    Over,
}

impl<F, T> Making<F, T> {
    /// Records one poll of the underlying making. `outcome` carries
    /// the made value when the embedder observed completion. Returns
    /// whether the made value is ready to take. A consumed making must
    /// not be polled again.
    pub fn poll(&mut self, outcome: Option<T>) -> (r: bool)
        requires
            !(*old(self) is Over),
        ensures
            *old(self) is Ready ==> r && *final(self) == *old(self),
            *old(self) is NotReady && outcome is None ==> !r && *final(self) == *old(self),
            outcome matches Some(v) ==> (*old(self) is NotReady ==> r && *final(self)
                == Making::<F, T>::Ready(v)),
    {
        match self {
            Making::Ready(_) => true,
            Making::Over => vstd::pervasive::unreached(),
            Making::NotReady(_) => {
                match outcome {
                    Some(v) => {
                        *self = Making::Ready(v);
                        true
                    },
                    None => false,
                }
            },
        }
    }

    /// Takes the made value, consuming the making.
    pub fn take(&mut self) -> (r: T)
        requires
            *old(self) is Ready,
        ensures
            *old(self) matches Making::Ready(v) && r == v,
            *final(self) is Over,
    {
        let mut prev = Making::Over;
        core::mem::swap(self, &mut prev);
        match prev {
            Making::Ready(v) => v,
            _ => vstd::pervasive::unreached(),
        }
    }

    /// The variant, spelled out for diagnostics.
    pub fn describe(&self) -> (r: &'static str)
        ensures
            self is NotReady ==> r@ == "Making::NotReady(...)"@,
            self is Ready ==> r@ == "Making::Ready(...)"@,
            self is Over ==> r@ == "Making::Over"@,
    {
        match self {
            Making::NotReady(_) => "Making::NotReady(...)",
            Making::Ready(_) => "Making::Ready(...)",
            Making::Over => "Making::Over",
        }
    }
}

/// Configures balancing: the load-estimate decay half-life and the
/// default round-trip baseline, both in nanoseconds, plus the discover
/// layer and the fallback-router layer composed in.
#[derive(Clone, Copy, Debug)]
pub struct Layer<D, R> {
    decay: u64,
    default_rtt: u64,
    discover: D,
    fallback_router: R,
}

pub fn layer(default_rtt: u64, decay: u64) -> (r: Layer<Identity, Identity>)
    ensures
        r.decay_view() == decay,
        r.default_rtt_view() == default_rtt,
{
    Layer { decay, default_rtt, discover: Identity, fallback_router: Identity }
}

impl<D, R> Layer<D, R> {
    pub closed spec fn decay_view(&self) -> u64 {
        self.decay
    }

    pub closed spec fn default_rtt_view(&self) -> u64 {
        self.default_rtt
    }

    pub closed spec fn discover_view(&self) -> D {
        self.discover
    }

    pub closed spec fn fallback_router_view(&self) -> R {
        self.fallback_router
    }

    /// Replaces the discover layer.
    pub fn with_discover<D2>(self, discover: D2) -> (r: Layer<D2, R>)
        ensures
            r.decay_view() == self.decay_view(),
            r.default_rtt_view() == self.default_rtt_view(),
            r.discover_view() == discover,
            r.fallback_router_view() == self.fallback_router_view(),
    {
        Layer {
            decay: self.decay,
            default_rtt: self.default_rtt,
            discover,
            fallback_router: self.fallback_router,
        }
    }

    /// Replaces the fallback-router layer.
    pub fn with_fallback<R2>(self, fallback_router: R2) -> (r: Layer<D, R2>)
        ensures
            r.decay_view() == self.decay_view(),
            r.default_rtt_view() == self.default_rtt_view(),
            r.discover_view() == self.discover_view(),
            r.fallback_router_view() == fallback_router,
    {
        Layer {
            decay: self.decay,
            default_rtt: self.default_rtt,
            discover: self.discover,
            fallback_router,
        }
    }

    /// Binds the layered stacks, yielding the maker of balanced
    /// services.
    pub fn layer<M, Rt>(&self, balance: M, router: Rt) -> (r: MakeSvc<M, Rt>)
        ensures
            r.decay_view() == self.decay_view(),
            r.default_rtt_view() == self.default_rtt_view(),
            r.balance_view() == balance,
            r.router_view() == router,
    {
        MakeSvc { decay: self.decay, default_rtt: self.default_rtt, balance, router }
    }
}

/// Makes one balanced-with-fallback service per target.
#[derive(Clone, Debug)]
pub struct MakeSvc<M, R> {
    decay: u64,
    default_rtt: u64,
    balance: M,
    router: R,
}

impl<M, R> MakeSvc<M, R> {
    pub closed spec fn decay_view(&self) -> u64 {
        self.decay
    }

    pub closed spec fn default_rtt_view(&self) -> u64 {
        self.default_rtt
    }

    pub closed spec fn balance_view(&self) -> M {
        self.balance
    }

    pub closed spec fn router_view(&self) -> R {
        self.router
    }

    /// Starts making the service for one target: the embedder begins
    /// building the discover through the balance stack and hands the
    /// pending making here, along with the fallback service the router
    /// built for this target.
    pub fn call<F, T, Rv>(&self, balance_making: F, router: Rv) -> (r: MakeFuture<F, T, Rv>)
        ensures
            r.balance_view() == Making::<F, T>::NotReady(balance_making),
            r.router_view() == router,
            r.decay_view() == self.decay_view(),
            r.default_rtt_view() == self.default_rtt_view(),
    {
        MakeFuture {
            decay: self.decay,
            default_rtt: self.default_rtt,
            balance: Making::NotReady(balance_making),
            router,
        }
    }
}

/// The configuration a finished making hands on for instrumenting the
/// discovered pool.
#[derive(Clone, Copy, Debug, PartialEq, Eq, Structural)]
pub struct BalanceConfig {
    pub default_rtt: u64,
    pub decay: u64,
}

/// An in-progress making of one balanced-with-fallback service.
#[derive(Debug)]
pub struct MakeFuture<F, T, R> {
    decay: u64,
    default_rtt: u64,
    balance: Making<F, T>,
    router: R,
}

impl<F, T, R> MakeFuture<F, T, R> {
    pub closed spec fn decay_view(&self) -> u64 {
        self.decay
    }

    pub closed spec fn default_rtt_view(&self) -> u64 {
        self.default_rtt
    }

    pub closed spec fn balance_view(&self) -> Making<F, T> {
        self.balance
    }

    pub closed spec fn router_view(&self) -> R {
        self.router
    }

    /// Advances the making by one poll; see [`Making::poll`].
    pub fn poll(&mut self, outcome: Option<T>) -> (r: bool)
        requires
            !(old(self).balance_view() is Over),
        ensures
            final(self).decay_view() == old(self).decay_view(),
            final(self).default_rtt_view() == old(self).default_rtt_view(),
            final(self).router_view() == old(self).router_view(),
            old(self).balance_view() is Ready ==> r && final(self).balance_view() == old(self).balance_view(),
            old(self).balance_view() is NotReady && outcome is None ==> !r && final(self).balance_view() == old(self).balance_view(),
            outcome matches Some(v) ==> (old(self).balance_view() is NotReady ==> r && final(self).balance_view() == Making::<F, T>::Ready(v)),
    {
        self.balance.poll(outcome)
    }

    /// Consumes a ready making: the made discover, the fallback
    /// service, and the instrumentation configuration, from which the
    /// embedder assembles the [`Service`].
    pub fn finish(self) -> (r: (T, R, BalanceConfig))
        requires
            self.balance_view() is Ready,
        ensures
            self.balance_view() matches Making::Ready(v) && r.0 == v,
            r.1 == self.router_view(),
            r.2 == (BalanceConfig { default_rtt: self.default_rtt_view(), decay: self.decay_view() }),
    {
        let MakeFuture { decay, default_rtt, balance, router } = self;
        let discover = match balance {
            Making::Ready(v) => v,
            _ => vstd::pervasive::unreached(),
        };
        (discover, router, BalanceConfig { default_rtt, decay })
    }
}

/// The balanced-with-fallback service for one target.
#[derive(Debug)]
pub struct Service<S, F> {
    balance: S,
    router: F,
    status: EndpointStatus,
}

impl<S, F> Service<S, F> {
    pub closed spec fn balance_view(&self) -> S {
        self.balance
    }

    pub closed spec fn router_view(&self) -> F {
        self.router
    }

    /// The pool-emptiness flag as last snapshotted.
    pub closed spec fn status_view(&self) -> bool {
        self.status@
    }

    pub fn new(balance: S, router: F, status: EndpointStatus) -> (r: Service<S, F>)
        ensures
            r.balance_view() == balance,
            r.router_view() == router,
            r.status_view() == status@,
    {
        Service { balance, router, status }
    }

    /// Refreshes the emptiness snapshot from the shared flag the
    /// discovery adapter maintains.
    pub fn set_status(&mut self, status: EndpointStatus)
        ensures
            final(self).status_view() == status@,
            final(self).balance_view() == old(self).balance_view(),
            final(self).router_view() == old(self).router_view(),
    {
        self.status = status;
    }

    /// Which paths the next readiness check consults: the pool always,
    /// and the fallback exactly while the pool is empty, whose
    /// readiness is then the one reported.
    pub fn readiness_plan(&self) -> (r: PollPlan)
        ensures
            r == (if self.status_view() {
                PollPlan::PoolAndFallback
            } else {
                PollPlan::PoolOnly
            }),
    {
        if self.status.is_empty() {
            PollPlan::PoolAndFallback
        } else {
            PollPlan::PoolOnly
        }
    }

    /// Routes one request: one read of the emptiness snapshot decides,
    /// and the request passes through unchanged to exactly one path.
    pub fn call<Req>(&mut self, req: Req) -> (r: Routed<Req>)
        ensures
            r == routed(old(self).status_view(), req),
            final(self).balance_view() == old(self).balance_view(),
            final(self).router_view() == old(self).router_view(),
            final(self).status_view() == old(self).status_view(),
    {
        if self.status.is_empty() {
            Routed::Fallback(req)
        } else {
            Routed::Balance(req)
        }
    }

    /// The pool path, to dispatch a request routed to it.
    pub fn balance_mut(&mut self) -> (r: &mut S)
        ensures
            *r == old(self).balance_view(),
            final(self).balance_view() == *final(r),
            final(self).router_view() == old(self).router_view(),
            final(self).status_view() == old(self).status_view(),
    {
        &mut self.balance
    }

    /// The fallback path, to dispatch a request routed to it.
    pub fn router_mut(&mut self) -> (r: &mut F)
        ensures
            *r == old(self).router_view(),
            final(self).router_view() == *final(r),
            final(self).balance_view() == old(self).balance_view(),
            final(self).status_view() == old(self).status_view(),
    {
        &mut self.router
    }
}

// === Law of the fallback decision ===
/// Fallback correctness: a dispatch goes to the fallback path exactly
/// when the pool was empty at dispatch time and to the pool otherwise,
/// and either way the request itself passes through unchanged — never
/// to both paths, never dropped.
pub proof fn lemma_fallback_exclusive<Req>(empty: bool, req: Req)
    ensures
        routed(empty, req) is Fallback <==> empty,
        routed(empty, req) is Balance <==> !empty,
        routed(empty, req) matches Routed::Fallback(q) ==> q == req,
        routed(empty, req) matches Routed::Balance(q) ==> q == req,
{
}

/// The sample timer of the pending-until-first-data latency policy:
/// a response is considered complete at the first byte of response
/// data, or immediately on error or end of stream — never at
/// full-body completion, so an endpoint that streams a large body
/// slowly after a fast first byte is not penalized.
#[derive(Clone, Copy, Debug)]
pub struct PendingUntilFirstData {
    start: u64,
    completed: Option<u64>,
}

impl PendingUntilFirstData {
    pub closed spec fn start_view(&self) -> u64 {
        self.start
    }

    pub closed spec fn completed_view(&self) -> Option<u64> {
        self.completed
    }

    /// Starts the timer at dispatch.
    pub fn new(now: u64) -> (r: PendingUntilFirstData)
        ensures
            r.start_view() == now,
            r.completed_view() is None,
    {
        PendingUntilFirstData { start: now, completed: None }
    }

    /// Records the first completion event: the first byte of data, an
    /// error, or the end of the stream. Later events change nothing,
    /// so the sample measures to the first event only.
    pub fn on_first_event(&mut self, now: u64)
        ensures
            final(self).start_view() == old(self).start_view(),
            old(self).completed_view() is Some ==> final(self).completed_view() == old(self).completed_view(),
            old(self).completed_view() is None ==> final(self).completed_view() == Some(now),
    {
        if self.completed.is_none() {
            self.completed = Some(now);
        }
    }

    /// The measured latency sample, once complete. A clock that ran
    /// backwards yields a zero sample.
    pub fn sample(&self) -> (r: Option<u64>)
        ensures
            self.completed_view() is None ==> r is None,
            self.completed_view() matches Some(t) ==> r == Some(
                if t >= self.start_view() {
                    (t - self.start_view()) as u64
                } else {
                    0u64
                },
            ),
    {
        match self.completed {
            None => None,
            Some(t) => {
                if t >= self.start {
                    Some(t - self.start)
                } else {
                    Some(0)
                }
            },
        }
    }
}

} // verus!
