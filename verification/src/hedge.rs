//! Speculative retry of slow requests ("hedging"), bounded by a token
//! budget.
//!
//! A dispatched request arms a timer at a configured percentile of
//! recently observed latencies; when the timer fires before the
//! primary completes, and the request can be replayed safely, and a
//! budget token is available, an identical second request is issued
//! and whichever of the two completes first wins. Budget accounting is
//! exception-safe: every issued retry returns its token when it
//! resolves, completion and cancellation alike.
//!
//! The embedding runtime owns the latency histogram, the timer and the
//! racing of the two in-flight requests; the decisions — is there
//! budget, may this request be cloned, what does issuing and resolving
//! a retry do to the accounts — live here, and the budget-conservation
//! law is proved over runs of them.

use vstd::prelude::*;

use crate::svc::Either;

verus! {

/// A request as the hedging layer sees it: an identifier and whether
/// its body can be replayed safely. A request whose body was already
/// partially consumed refuses cloning and thereby disables hedging
/// for itself.
#[derive(Clone, Copy, Debug, PartialEq, Eq, Structural)]
pub struct Request {
    pub id: u64,
    pub clonable: bool,
}

impl Request {
    /// An identical request for the second attempt, when replay is
    /// safe.
    pub fn try_clone(&self) -> (r: Option<Request>)
        ensures
            self.clonable ==> r == Some(*self),
            !self.clonable ==> r is None,
    {
        if self.clonable {
            Some(*self)
        } else {
            None
        }
    }
}

/// The caller-supplied retry-budget policy: is there budget for this
/// request, and can it be replayed.
pub trait Budget: Sized {
    /// Whether a token is available for this request.
    spec fn has_budget_spec(&self, req: Request) -> bool;

    /// The clone handed to the second attempt, if replay is safe.
    spec fn clone_request_spec(&self, req: Request) -> Option<Request>;

    fn has_budget(&self, req: &Request) -> (r: bool)
        ensures
            r == self.has_budget_spec(*req),
    ;

    fn clone_request(&self, req: &Request) -> (r: Option<Request>)
        ensures
            r == self.clone_request_spec(*req),
    ;
}

/// A target that may opt into hedging by offering a budget.
pub trait CanHedge {
    type Budget: Budget + Clone;

    /// Whether this target hedges at all.
    spec fn hedgeable(&self) -> bool;

    fn can_hedge(&self) -> (r: Option<Self::Budget>)
        ensures
            r is Some <==> self.hedgeable(),
    ;
}

/// Adapts a [`Budget`] to the retry-policy interface of the hedging
/// service.
#[derive(Clone, Debug)]
pub struct Policy<B>(pub B);

impl<B: Budget> Policy<B> {
    pub fn can_retry(&self, req: &Request) -> (r: bool)
        ensures
            r == self.0.has_budget_spec(*req),
    {
        self.0.has_budget(req)
    }

    pub fn clone_request(&self, req: &Request) -> (r: Option<Request>)
        ensures
            r == self.0.clone_request_spec(*req),
    {
        self.0.clone_request(req)
    }
}

/// A token budget: how many speculative retries may be outstanding at
/// once.
#[derive(Clone, Copy, Debug)]
pub struct TokenBudget {
    max: u64,
    avail: u64,
}

impl TokenBudget {
    pub closed spec fn max_spec(&self) -> u64 {
        self.max
    }

    pub closed spec fn avail_spec(&self) -> u64 {
        self.avail
    }

    pub open spec fn wf(&self) -> bool {
        self.avail_spec() <= self.max_spec()
    }

    pub fn new(max: u64) -> (r: TokenBudget)
        ensures
            r.wf(),
            r.max_spec() == max,
            r.avail_spec() == max,
    {
        TokenBudget { max, avail: max }
    }

    pub fn has_tokens(&self) -> (r: bool)
        ensures
            r == (self.avail_spec() > 0),
    {
        self.avail > 0
    }

    /// Takes one token if any is available.
    pub fn withdraw(&mut self) -> (r: bool)
        requires
            old(self).wf(),
        ensures
            final(self).wf(),
            final(self).max_spec() == old(self).max_spec(),
            r == (old(self).avail_spec() > 0),
            r ==> final(self).avail_spec() == old(self).avail_spec() - 1,
            !r ==> final(self).avail_spec() == old(self).avail_spec(),
    {
        if self.avail > 0 {
            self.avail = self.avail - 1;
            true
        } else {
            false
        }
    }

    /// Returns one token.
    pub fn deposit(&mut self)
        requires
            old(self).wf(),
            old(self).avail_spec() < old(self).max_spec(),
        ensures
            final(self).wf(),
            final(self).max_spec() == old(self).max_spec(),
            final(self).avail_spec() == old(self).avail_spec() + 1,
    {
        self.avail = self.avail + 1;
    }
}

impl Budget for TokenBudget {
    open spec fn has_budget_spec(&self, req: Request) -> bool {
        self.avail_spec() > 0
    }

    open spec fn clone_request_spec(&self, req: Request) -> Option<Request> {
        if req.clonable {
            Some(req)
        } else {
            None
        }
    }

    fn has_budget(&self, req: &Request) -> (r: bool) {
        self.avail > 0
    }

    fn clone_request(&self, req: &Request) -> (r: Option<Request>) {
        req.try_clone()
    }
}

/// The retry accounts of one hedged service: the token budget and the
/// number of speculative retries currently outstanding.
#[derive(Clone, Copy, Debug)]
pub struct Hedger {
    budget: TokenBudget,
    outstanding: u64,
}

impl Hedger {
    pub closed spec fn max_spec(&self) -> u64 {
        self.budget.max_spec()
    }

    pub closed spec fn avail_spec(&self) -> u64 {
        self.budget.avail_spec()
    }

    pub closed spec fn outstanding_spec(&self) -> u64 {
        self.outstanding
    }

    /// Every token is either available or held by an outstanding
    /// retry.
    pub open spec fn wf(&self) -> bool {
        self.avail_spec() + self.outstanding_spec() == self.max_spec()
    }

    pub fn new(max: u64) -> (r: Hedger)
        ensures
            r.wf(),
            r.max_spec() == max,
            r.avail_spec() == max,
            r.outstanding_spec() == 0,
    {
        Hedger { budget: TokenBudget::new(max), outstanding: 0 }
    }

    pub fn outstanding(&self) -> (r: u64)
        ensures
            r == self.outstanding_spec(),
    {
        self.outstanding
    }

    pub fn available(&self) -> (r: u64)
        ensures
            r == self.avail_spec(),
    {
        self.budget.avail
    }

    /// The hedge timer fired with the primary still unresolved: issue
    /// the second request exactly when the request can be replayed and
    /// a token is available; the token is withdrawn in the same
    /// transition.
    pub fn try_hedge(&mut self, req: &Request) -> (r: Option<Request>)
        requires
            old(self).wf(),
        ensures
            final(self).wf(),
            final(self).max_spec() == old(self).max_spec(),
            r is Some <==> (req.clonable && old(self).avail_spec() > 0),
            r matches Some(c) ==> {
                &&& c == *req
                &&& final(self).outstanding_spec() == old(self).outstanding_spec() + 1
                &&& final(self).avail_spec() + 1 == old(self).avail_spec()
            },
            r is None ==> *final(self) == *old(self),
    {
        if !req.clonable {
            return None;
        }
        if !self.budget.has_tokens() {
            return None;
        }
        let issued = self.budget.withdraw();
        proof {
            assert(issued);
        }
        self.outstanding = self.outstanding + 1;
        Some(*req)
    }

    /// An issued retry resolved — it completed, lost the race, or was
    /// canceled — and returns its token.
    pub fn hedge_resolved(&mut self)
        requires
            old(self).wf(),
            old(self).outstanding_spec() > 0,
        ensures
            final(self).wf(),
            final(self).max_spec() == old(self).max_spec(),
            final(self).outstanding_spec() + 1 == old(self).outstanding_spec(),
            final(self).avail_spec() == old(self).avail_spec() + 1,
    {
        self.outstanding = self.outstanding - 1;
        self.budget.deposit();
    }
}

/// Configures hedging: the latency percentile at which the hedge timer
/// fires, in hundredths of a percent, and the histogram rotation
/// period in nanoseconds.
#[derive(Clone, Copy, Debug)]
pub struct Layer {
    percentile: u32,
    period: u64,
}

pub fn layer(percentile: u32, period: u64) -> (r: Layer)
    ensures
        r.percentile_view() == percentile,
        r.period_view() == period,
{
    Layer { percentile, period }
}

impl Layer {
    pub closed spec fn percentile_view(&self) -> u32 {
        self.percentile
    }

    pub closed spec fn period_view(&self) -> u64 {
        self.period
    }

    pub fn bind<M>(&self, inner: M) -> (r: Stack<M>)
        ensures
            r.percentile_view() == self.percentile_view(),
            r.period_view() == self.period_view(),
    {
        Stack { inner, percentile: self.percentile, period: self.period }
    }
}

/// A stack that wraps each hedgeable target's service in a [`Hedge`].
#[derive(Clone, Debug)]
pub struct Stack<M> {
    inner: M,
    percentile: u32,
    period: u64,
}

impl<M> Stack<M> {
    pub closed spec fn percentile_view(&self) -> u32 {
        self.percentile
    }

    pub closed spec fn period_view(&self) -> u64 {
        self.period
    }

    /// Wraps an already-built inner service for a target that offered
    /// the given budget; a target that offered none keeps its service
    /// unwrapped.
    pub fn make_with<B: Budget, S>(&self, budget: Option<B>, inner: S) -> (r: Either<
        Hedge<B, S>,
        S,
    >)
        ensures
            budget matches Some(b) ==> (r matches Either::A(h) && h.policy_view().0 == b
                && h.inner_view() == inner && h.percentile_view() == self.percentile_view()
                && h.period_view() == self.period_view()),
            budget is None ==> r == Either::<Hedge<B, S>, S>::B(inner),
    {
        match budget {
            Some(b) => Either::A(
                Hedge {
                    policy: Policy(b),
                    inner,
                    percentile: self.percentile,
                    period: self.period,
                },
            ),
            None => Either::B(inner),
        }
    }

    /// Builds the service for a target: hedged exactly when the target
    /// opts in with a budget.
    pub fn make<T: CanHedge, S>(&self, target: &T, inner: S) -> (r: Either<
        Hedge<T::Budget, S>,
        S,
    >)
        ensures
            target.hedgeable() <==> r is A,
            r matches Either::A(h) ==> h.inner_view() == inner && h.percentile_view()
                == self.percentile_view() && h.period_view() == self.period_view(),
            r matches Either::B(s) ==> s == inner,
    {
        let budget = target.can_hedge();
        self.make_with(budget, inner)
    }
}

/// A per-target service wrapped with the hedging policy.
#[derive(Clone, Debug)]
pub struct Hedge<B, S> {
    policy: Policy<B>,
    inner: S,
    percentile: u32,
    period: u64,
}

/// The hedged shape of a service built for a hedgeable target.
pub type Service<B, Svc> = Hedge<B, Svc>;

impl<B, S> Hedge<B, S> {
    pub closed spec fn policy_view(&self) -> Policy<B> {
        self.policy
    }

    pub closed spec fn inner_view(&self) -> S {
        self.inner
    }

    pub closed spec fn percentile_view(&self) -> u32 {
        self.percentile
    }

    pub closed spec fn period_view(&self) -> u64 {
        self.period
    }

    /// The inner service, to dispatch the primary or a hedged request.
    pub fn inner_mut(&mut self) -> (r: &mut S)
        ensures
            *r == old(self).inner_view(),
            final(self).inner_view() == *final(r),
            final(self).policy_view() == old(self).policy_view(),
            final(self).percentile_view() == old(self).percentile_view(),
            final(self).period_view() == old(self).period_view(),
    {
        &mut self.inner
    }
}

impl<B: Budget, S> Hedge<B, S> {
    /// The hedge timer fired with the primary still unresolved: the
    /// second request to issue, if the policy grants budget and the
    /// request can be replayed; otherwise nothing, and the primary's
    /// eventual result is returned unmodified.
    pub fn should_hedge(&self, req: &Request) -> (r: Option<Request>)
        ensures
            self.policy_view().0.has_budget_spec(*req) ==> r == self.policy_view(
            ).0.clone_request_spec(*req),
            !self.policy_view().0.has_budget_spec(*req) ==> r is None,
    {
        if self.policy.can_retry(req) {
            self.policy.clone_request(req)
        } else {
            None
        }
    }
}

// === Law of the retry budget ===
/// One accounting event of a hedged service.
pub enum HedgeEvent {
    /// The timer fired for a request; it is issued only when replay is
    /// safe and a token is free.
    TryHedge { clonable: bool },
    /// An outstanding retry resolved and returned its token.
    Resolve,
}

/// Specification-level accounts, as [`Hedger::try_hedge`] and
/// [`Hedger::hedge_resolved`] maintain them.
pub struct HedgeModel {
    pub max: u64,
    pub avail: u64,
    pub outstanding: u64,
}

pub open spec fn hedge_init(max: u64) -> HedgeModel {
    HedgeModel { max, avail: max, outstanding: 0 }
}

pub open spec fn hedge_step(m: HedgeModel, ev: HedgeEvent) -> HedgeModel {
    match ev {
        HedgeEvent::TryHedge { clonable } => if clonable && m.avail > 0 {
            HedgeModel { avail: (m.avail - 1) as u64, outstanding: (m.outstanding + 1) as u64, ..m }
        } else {
            m
        },
        HedgeEvent::Resolve => if m.outstanding > 0 {
            HedgeModel { avail: (m.avail + 1) as u64, outstanding: (m.outstanding - 1) as u64, ..m }
        } else {
            m
        },
    }
}

pub open spec fn hedge_run(m: HedgeModel, evs: Seq<HedgeEvent>) -> HedgeModel
    decreases evs.len(),
{
    if evs.len() == 0 {
        m
    } else {
        hedge_run(hedge_step(m, evs[0]), evs.drop_first())
    }
}

/// Hedge budget conservation: over every sequence of issue and resolve
/// events from a fresh budget, every token is either available or held
/// by an outstanding retry, so the outstanding retries never exceed the
/// configured budget; and once no retry is outstanding, the budget is
/// back at its original value.
pub proof fn lemma_budget_conservation(max: u64, evs: Seq<HedgeEvent>)
    ensures
        hedge_run(hedge_init(max), evs).avail + hedge_run(hedge_init(max), evs).outstanding == max,
        hedge_run(hedge_init(max), evs).outstanding <= max,
        hedge_run(hedge_init(max), evs).outstanding == 0 ==> hedge_run(hedge_init(max), evs).avail
            == max,
{
    lemma_hedge_run_conserves(hedge_init(max), evs);
}

/// The conservation invariant is kept by every run.
pub proof fn lemma_hedge_run_conserves(m: HedgeModel, evs: Seq<HedgeEvent>)
    requires
        m.avail + m.outstanding == m.max,
    ensures
        hedge_run(m, evs).avail + hedge_run(m, evs).outstanding == hedge_run(m, evs).max,
        hedge_run(m, evs).max == m.max,
    decreases evs.len(),
{
    if evs.len() > 0 {
        lemma_hedge_run_conserves(hedge_step(m, evs[0]), evs.drop_first());
    }
}

} // verus!
