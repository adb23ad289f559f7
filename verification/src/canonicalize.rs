//! Lazy, dynamic canonicalization of an [`Addr`] target via DNS.
//!
//! An application may name a target like `web:8080` under a resolv.conf
//! search path; depending on the state of DNS the routing target should
//! become `web.example.com.:8080`, `web.example.net.:8080`, or stay
//! `web:8080`. A background task per refinable target re-resolves the
//! name whenever the previous answer's TTL lapses and republishes the
//! routing target whenever the canonical form changes.
//!
//! The task is a state machine. The embedding runtime owns the clock,
//! the DNS round trip and the update channel, and drives the machine:
//! [`Task::start_query`] hands it the name to resolve, [`Task::refine_ok`]
//! and [`Task::refine_err`] consume the outcome and say what, if
//! anything, to publish, and [`Task::wake`] re-arms the machine once
//! [`Task::due`] reports that the answer's validity deadline has passed.
//! Every transition is mirrored by a specification-level step function
//! on [`TaskModel`], and the laws at the end of the module are proved
//! over runs of those steps.
//!
//! All times are nanosecond readings of the runtime's monotonic clock.

use vstd::prelude::*;

use crate::svc::Either;
use crate::{Addr, AddrView, Name, NameAddr, NameAddrView};

verus! {

/// How long to wait before polling DNS again after an error (or a
/// negative answer with no TTL), in nanoseconds.
pub const DNS_ERROR_TTL: u64 = 3_000_000_000;

/// The name held by a target view that still awaits canonicalization,
/// if any.
pub open spec fn uncanonical_of(a: AddrView) -> Option<Seq<u8>> {
    match a {
        AddrView::Name(na) => Some(na.name),
        AddrView::Socket(_) => None,
    }
}

/// The target view rebuilt with a canonical name: a named target keeps
/// its port under the new name; a socket target is unchanged.
pub open spec fn canonicalized(a: AddrView, canonical: Seq<u8>) -> AddrView {
    match a {
        AddrView::Name(na) => AddrView::Name(NameAddrView { name: canonical, port: na.port }),
        AddrView::Socket(s) => AddrView::Socket(s),
    }
}

/// A target that may be refined into a canonical fully qualified form.
pub trait Canonicalize: View + Sized {
    /// The original unrefined name, if this target should be
    /// canonicalized at all.
    spec fn uncanonical_name_view(&self) -> Option<Seq<u8>>;

    /// The value of this target rebuilt with the given canonical name.
    spec fn canonicalized_view(&self, canonical: Seq<u8>) -> Self::V;

    fn uncanonical_name(&self) -> (r: Option<&Name>)
        ensures
            match r {
                Some(n) => self.uncanonical_name_view() == Some(n@),
                None => self.uncanonical_name_view() is None,
            },
    ;

    fn with_canonical(&self, canonical: Name) -> (r: Self)
        ensures
            r@ == self.canonicalized_view(canonical@),
    ;

    fn should_canonicalize(&self) -> (r: bool)
        ensures
            r == (self.uncanonical_name_view() is Some),
    {
        self.uncanonical_name().is_some()
    }
}

impl Canonicalize for Addr {
    open spec fn uncanonical_name_view(&self) -> Option<Seq<u8>> {
        uncanonical_of(self@)
    }

    open spec fn canonicalized_view(&self, canonical: Seq<u8>) -> AddrView {
        canonicalized(self@, canonical)
    }

    fn uncanonical_name(&self) -> (r: Option<&Name>) {
        match self {
            Addr::Name(na) => Some(na.name()),
            Addr::Socket(_) => None,
        }
    }

    fn with_canonical(&self, canonical: Name) -> (r: Self) {
        match self {
            Addr::Name(original) => Addr::Name(NameAddr::new(canonical, original.port())),
            Addr::Socket(_) => self.clone(),
        }
    }
}

/// Tracks the state of the last resolution, as the consumer has seen it.
#[derive(Debug)]
pub enum Cache<N> {
    /// The consumer has not yet been notified of a value.
    AwaitingInitial,
    /// The consumer has been notified with the original value (due to an
    /// error), and no resolved name is known yet.
    Unresolved,
    /// The consumer was last notified with this value.
    Resolved(N),
}

impl<N> Cache<N> {
    /// The resolved value last published, if any.
    pub fn get(&self) -> (r: Option<&N>)
        ensures
            self is Resolved <==> r is Some,
            r matches Some(v) ==> self matches Cache::Resolved(x) && v == x,
    {
        match self {
            Cache::Resolved(r) => Some(r),
            _ => None,
        }
    }
}

/// Where a canonicalization task stands between transitions.
#[derive(Clone, Copy, Debug)]
pub enum State {
    /// A new DNS query should be issued.
    Init,
    /// A DNS query is outstanding; it times out at `expires`.
    Pending { expires: u64 },
    /// The last outcome is valid until `deadline`; sleep until then.
    ValidUntil { deadline: u64 },
}

/// Mathematical value of a [`Cache`] over target views.
pub enum CacheModel {
    AwaitingInitial,
    Unresolved,
    Resolved(AddrView),
}

/// Mathematical value of a [`Task`].
pub struct TaskModel {
    pub original: AddrView,
    pub resolved: CacheModel,
    pub state: State,
    pub timeout: u64,
}

impl TaskModel {
    /// A task exists only for a refinable target.
    pub open spec fn wf(self) -> bool {
        uncanonical_of(self.original) is Some
    }

    /// The canonical target published for a resolved `name`.
    pub open spec fn canonical_target(self, name: Seq<u8>) -> AddrView {
        canonicalized(self.original, name)
    }
}

/// A new query is issued: the machine remembers when the query times
/// out and hands back the name to resolve.
pub open spec fn step_start(t: TaskModel, now: u64) -> (TaskModel, Seq<u8>) {
    (
        TaskModel { state: State::Pending { expires: (now + t.timeout) as u64 }, ..t },
        uncanonical_of(t.original).unwrap(),
    )
}

/// A query succeeded with `name`, valid until `valid_until`: publish
/// the rebuilt target unless it is the one already published.
pub open spec fn step_refine_ok(t: TaskModel, name: Seq<u8>, valid_until: u64) -> (
    TaskModel,
    Option<AddrView>,
) {
    let resolved = t.canonical_target(name);
    if t.resolved matches CacheModel::Resolved(prev) && prev == resolved {
        (TaskModel { state: State::ValidUntil { deadline: valid_until }, ..t }, None)
    } else {
        (
            TaskModel {
                resolved: CacheModel::Resolved(resolved),
                state: State::ValidUntil { deadline: valid_until },
                ..t
            },
            Some(resolved),
        )
    }
}

/// A query failed: if nothing was ever published, publish the original
/// target so the consumer is not left waiting forever; retry at the
/// authoritative negative-cache deadline if the failure carried one,
/// else after the fixed error backoff.
pub open spec fn step_refine_err(t: TaskModel, nx_valid_until: Option<u64>, now: u64) -> (
    TaskModel,
    Option<AddrView>,
) {
    let deadline = match nx_valid_until {
        Some(d) => d,
        None => (now + DNS_ERROR_TTL) as u64,
    };
    if t.resolved is AwaitingInitial {
        (
            TaskModel {
                resolved: CacheModel::Unresolved,
                state: State::ValidUntil { deadline },
                ..t
            },
            Some(t.original),
        )
    } else {
        (TaskModel { state: State::ValidUntil { deadline }, ..t }, None)
    }
}

/// The validity deadline passed: return to the initial state so the
/// next transition issues a fresh query.
pub open spec fn step_wake(t: TaskModel) -> TaskModel {
    TaskModel { state: State::Init, ..t }
}

/// The view of an optional published target.
pub open spec fn view_opt(o: Option<Addr>) -> Option<AddrView> {
    match o {
        Some(a) => Some(a@),
        None => None,
    }
}

/// The background canonicalization task for one refinable target.
#[derive(Debug)]
pub struct Task {
    original: Addr,
    resolved: Cache<Addr>,
    state: State,
    timeout: u64,
}

impl View for Task {
    type V = TaskModel;

    closed spec fn view(&self) -> TaskModel {
        TaskModel {
            original: self.original@,
            resolved: match self.resolved {
                Cache::AwaitingInitial => CacheModel::AwaitingInitial,
                Cache::Unresolved => CacheModel::Unresolved,
                Cache::Resolved(a) => CacheModel::Resolved(a@),
            },
            state: self.state,
            timeout: self.timeout,
        }
    }
}

impl Task {
    pub fn new(original: Addr, timeout: u64) -> (r: Task)
        requires
            uncanonical_of(original@) is Some,
        ensures
            r@ == (TaskModel {
                original: original@,
                resolved: CacheModel::AwaitingInitial,
                state: State::Init,
                timeout,
            }),
    {
        Task { original, resolved: Cache::AwaitingInitial, state: State::Init, timeout }
    }

    /// Begins a new DNS query; the runtime resolves the returned name,
    /// bounded by the per-query timeout.
    pub fn start_query(&mut self, now: u64) -> (name: Name)
        requires
            old(self)@.wf(),
            old(self)@.state is Init,
            now + old(self)@.timeout <= u64::MAX,
        ensures
            final(self)@ == step_start(old(self)@, now).0,
            name@ == step_start(old(self)@, now).1,
    {
        let name = match &self.original {
            Addr::Name(na) => na.name().clone(),
            Addr::Socket(_) => vstd::pervasive::unreached(),
        };
        self.state = State::Pending { expires: now + self.timeout };
        name
    }

    /// Consumes a successful resolution. Returns the rebuilt target to
    /// publish, or `None` when it matches what was already published.
    pub fn refine_ok(&mut self, name: Name, valid_until: u64) -> (publish: Option<Addr>)
        requires
            old(self)@.state is Pending,
        ensures
            final(self)@ == step_refine_ok(old(self)@, name@, valid_until).0,
            view_opt(publish) == step_refine_ok(old(self)@, name@, valid_until).1,
    {
        let resolved = self.original.with_canonical(name);
        let already = match self.resolved.get() {
            Some(prev) => prev.same(&resolved),
            None => false,
        };
        self.state = State::ValidUntil { deadline: valid_until };
        if already {
            None
        } else {
            self.resolved = Cache::Resolved(resolved.clone());
            Some(resolved)
        }
    }

    /// Consumes a failed resolution. Returns the original target when it
    /// must be published so the consumer can proceed, or `None` when a
    /// value was already published.
    pub fn refine_err(&mut self, nx_valid_until: Option<u64>, now: u64) -> (publish: Option<Addr>)
        requires
            old(self)@.state is Pending,
            now + DNS_ERROR_TTL <= u64::MAX,
        ensures
            final(self)@ == step_refine_err(old(self)@, nx_valid_until, now).0,
            view_opt(publish) == step_refine_err(old(self)@, nx_valid_until, now).1,
    {
        let deadline = match nx_valid_until {
            Some(d) => d,
            None => now + DNS_ERROR_TTL,
        };
        self.state = State::ValidUntil { deadline };
        match &self.resolved {
            Cache::AwaitingInitial => {
                self.resolved = Cache::Unresolved;
                Some(self.original.clone())
            },
            _ => None,
        }
    }

    /// Whether the last outcome's validity deadline has passed, so a
    /// fresh query is owed.
    pub fn due(&self, now: u64) -> (r: bool)
        ensures
            r == (self@.state matches State::ValidUntil { deadline } && now >= deadline),
    {
        match self.state {
            State::ValidUntil { deadline } => now >= deadline,
            _ => false,
        }
    }

    /// Re-arms the machine once the validity deadline has passed.
    pub fn wake(&mut self, now: u64)
        requires
            old(self)@.state matches State::ValidUntil { deadline } && now >= deadline,
        ensures
            final(self)@ == step_wake(old(self)@),
    {
        self.state = State::Init;
    }
}

/// Configures canonicalization: the per-query timeout, in nanoseconds.
/// The DNS collaborator itself belongs to the embedding runtime.
#[derive(Clone, Copy, Debug)]
pub struct Layer {
    timeout: u64,
}

/// A stack that canonicalizes refinable targets before handing them to
/// its inner stack.
#[derive(Clone, Debug)]
pub struct Stack<M> {
    inner: M,
    timeout: u64,
}

pub fn layer(timeout: u64) -> (r: Layer)
    ensures
        r.timeout_view() == timeout,
{
    Layer { timeout }
}

impl Layer {
    pub closed spec fn timeout_view(&self) -> u64 {
        self.timeout
    }

    pub fn bind<M>(&self, inner: M) -> (r: Stack<M>)
        ensures
            r.timeout_view() == self.timeout_view(),
    {
        Stack { inner, timeout: self.timeout }
    }
}

impl<M> Stack<M> {
    pub closed spec fn timeout_view(&self) -> u64 {
        self.timeout
    }
}

impl<M: crate::svc::Stack<Addr> + Clone> Stack<M> {
    /// Builds the routing value for a target. A refinable target gets a
    /// dynamically-updating [`Service`] along with the initial state of
    /// its background [`Task`], which the runtime must drive; any other
    /// target is handed to the inner stack unchanged.
    pub fn make(&self, name: &Addr) -> (r: Result<
        Either<(Service<M>, Task), M::Value>,
        M::Error,
    >)
        ensures
            uncanonical_of(name@) is Some ==> (r matches Ok(Either::A((svc, task))) && task@
                == (TaskModel {
                original: name@,
                resolved: CacheModel::AwaitingInitial,
                state: State::Init,
                timeout: self.timeout_view(),
            }) && !svc.is_live()),
            uncanonical_of(name@) is None ==> (r matches Ok(e) ==> e is B),
    {
        if name.should_canonicalize() {
            let task = Task::new(name.clone(), self.timeout);
            let svc = Service::new(self.inner.clone());
            Ok(Either::A((svc, task)))
        } else {
            match self.inner.make(name) {
                Ok(v) => Ok(Either::B(v)),
                Err(e) => Err(e),
            }
        }
    }
}

/// The consumer-facing side of canonicalization: holds the inner stack
/// and at most one live downstream service, rebuilt for the latest
/// published target. Exactly one downstream service is live at a time;
/// a rebuild replaces, never layers on top of, the previous one.
pub struct Service<M: crate::svc::Stack<Addr>> {
    stack: M,
    service: Option<M::Value>,
    target: Option<Addr>,
}

impl<M: crate::svc::Stack<Addr>> Service<M> {
    /// A downstream service exists.
    pub closed spec fn is_live(&self) -> bool {
        self.service is Some
    }

    /// The target the live downstream service was built for.
    pub closed spec fn live_target(&self) -> Option<AddrView> {
        match self.target {
            Some(a) => Some(a@),
            None => None,
        }
    }

    /// The live service and the target it was built for go together.
    pub closed spec fn wf(&self) -> bool {
        self.service is Some <==> self.target is Some
    }

    pub fn new(stack: M) -> (r: Service<M>)
        ensures
            r.wf(),
            !r.is_live(),
            r.live_target() is None,
    {
        Service { stack, service: None, target: None }
    }

    /// Absorbs the updates drained from the task's publish channel since
    /// the last readiness check, rebuilding the downstream service for
    /// the most recent one only. Returns whether a downstream service is
    /// live; while `Ok(false)`, the consumer stays in backpressure.
    pub fn poll_ready(&mut self, updates: Vec<Addr>) -> (r: Result<bool, M::Error>)
        requires
            old(self).wf(),
        ensures
            final(self).wf(),
            updates@.len() == 0 ==> {
                &&& final(self).is_live() == old(self).is_live()
                &&& final(self).live_target() == old(self).live_target()
                &&& r matches Ok(live) && live == old(self).is_live()
            },
            updates@.len() > 0 ==> match r {
                Ok(live) => live && final(self).is_live() && final(self).live_target() == Some(
                    (updates@.last())@,
                ),
                Err(_) => final(self).is_live() == old(self).is_live() && final(self).live_target()
                    == old(self).live_target(),
            },
    {
        let mut updates = updates;
        match updates.pop() {
            None => Ok(self.service.is_some()),
            Some(last) => {
                match self.stack.make(&last) {
                    Ok(svc) => {
                        self.service = Some(svc);
                        self.target = Some(last);
                        Ok(true)
                    },
                    Err(e) => Err(e),
                }
            },
        }
    }

    /// The live downstream service, to which the next request is
    /// dispatched. Readiness must have been observed first.
    pub fn call(&mut self) -> (svc: &mut M::Value)
        requires
            old(self).wf(),
            old(self).is_live(),
        ensures
            *svc == old(self).service_value(),
            final(self).wf(),
            final(self).is_live(),
            final(self).live_target() == old(self).live_target(),
            final(self).service_value() == *final(svc),
    {
        match &mut self.service {
            Some(s) => s,
            None => vstd::pervasive::unreached(),
        }
    }

    /// The live downstream service value.
    pub closed spec fn service_value(&self) -> M::Value
        recommends
            self.is_live(),
    {
        self.service.unwrap()
    }
}

// === Laws of the canonicalization machine ===
/// One DNS-driven event in the life of a task, stamped with the reading
/// of the monotonic clock at which the runtime delivered it.
pub enum TaskEvent {
    Start { now: u64 },
    RefineOk { name: Seq<u8>, valid_until: u64, now: u64 },
    RefineErr { nx_valid_until: Option<u64>, now: u64 },
    Wake { now: u64 },
}

pub open spec fn event_time(ev: TaskEvent) -> u64 {
    match ev {
        TaskEvent::Start { now } => now,
        TaskEvent::RefineOk { now, .. } => now,
        TaskEvent::RefineErr { now, .. } => now,
        TaskEvent::Wake { now } => now,
    }
}

/// Whether a task in state `t` admits the event: the guard each exec
/// transition demands of its caller.
pub open spec fn event_enabled(t: TaskModel, ev: TaskEvent) -> bool {
    match ev {
        TaskEvent::Start { now } => t.state is Init && now + t.timeout <= u64::MAX,
        TaskEvent::RefineOk { .. } => t.state is Pending,
        TaskEvent::RefineErr { now, .. } => t.state is Pending && now + DNS_ERROR_TTL <= u64::MAX,
        TaskEvent::Wake { now } => t.state matches State::ValidUntil { deadline } && now
            >= deadline,
    }
}

/// What one event does: the successor state, what is published, and
/// what query is issued.
pub struct StepOutcome {
    pub task: TaskModel,
    pub published: Option<AddrView>,
    pub queried: Option<Seq<u8>>,
}

pub open spec fn event_step(t: TaskModel, ev: TaskEvent) -> StepOutcome {
    match ev {
        TaskEvent::Start { now } => StepOutcome {
            task: step_start(t, now).0,
            published: None,
            queried: Some(step_start(t, now).1),
        },
        TaskEvent::RefineOk { name, valid_until, .. } => StepOutcome {
            task: step_refine_ok(t, name, valid_until).0,
            published: step_refine_ok(t, name, valid_until).1,
            queried: None,
        },
        TaskEvent::RefineErr { nx_valid_until, now } => StepOutcome {
            task: step_refine_err(t, nx_valid_until, now).0,
            published: step_refine_err(t, nx_valid_until, now).1,
            queried: None,
        },
        TaskEvent::Wake { .. } => StepOutcome {
            task: step_wake(t),
            published: None,
            queried: None,
        },
    }
}

/// Every event of the run is admitted at the point it occurs.
pub open spec fn valid_run(t: TaskModel, evs: Seq<TaskEvent>) -> bool
    decreases evs.len(),
{
    evs.len() == 0 || (event_enabled(t, evs[0]) && valid_run(
        event_step(t, evs[0]).task,
        evs.drop_first(),
    ))
}

/// The state after the run.
pub open spec fn run_task(t: TaskModel, evs: Seq<TaskEvent>) -> TaskModel
    decreases evs.len(),
{
    if evs.len() == 0 {
        t
    } else {
        run_task(event_step(t, evs[0]).task, evs.drop_first())
    }
}

/// Every target published over the run, in order.
pub open spec fn publishes_in_run(t: TaskModel, evs: Seq<TaskEvent>) -> Seq<AddrView>
    decreases evs.len(),
{
    if evs.len() == 0 {
        Seq::empty()
    } else {
        let s = event_step(t, evs[0]);
        let rest = publishes_in_run(s.task, evs.drop_first());
        match s.published {
            Some(p) => seq![p] + rest,
            None => rest,
        }
    }
}

/// How many DNS queries the run issues.
pub open spec fn queries_in_run(t: TaskModel, evs: Seq<TaskEvent>) -> nat
    decreases evs.len(),
{
    if evs.len() == 0 {
        0
    } else {
        let s = event_step(t, evs[0]);
        (if s.queried is Some {
            1nat
        } else {
            0nat
        }) + queries_in_run(s.task, evs.drop_first())
    }
}

/// Whether every resolution outcome in the run succeeds with the same
/// canonical name.
pub open spec fn all_refine_to(evs: Seq<TaskEvent>, name: Seq<u8>) -> bool {
    forall|i: int|
        0 <= i < evs.len() ==> match #[trigger] evs[i] {
            TaskEvent::RefineOk { name: n, .. } => n == name,
            TaskEvent::RefineErr { .. } => false,
            _ => true,
        }
}

/// Whether any resolution at all completes in the run.
pub open spec fn contains_refine_ok(evs: Seq<TaskEvent>) -> bool {
    exists|i: int| 0 <= i < evs.len() && #[trigger] evs[i] is RefineOk
}

/// Canonicalization idempotence: over any run whose resolutions all
/// succeed with the same canonical name, the consumer is notified
/// exactly once per distinct resolved value, not once per DNS query —
/// once the rebuilt target is cached, repeated resolutions to it
/// publish nothing — and every notification carries that one rebuilt
/// target.
pub proof fn lemma_republish_once_per_value(t: TaskModel, evs: Seq<TaskEvent>, name: Seq<u8>)
    requires
        all_refine_to(evs, name),
    ensures
        publishes_in_run(t, evs).len() == (if t.resolved == CacheModel::Resolved(
            t.canonical_target(name),
        ) || !contains_refine_ok(evs) {
            0int
        } else {
            1int
        }),
        forall|i: int|
            0 <= i < publishes_in_run(t, evs).len() ==> publishes_in_run(t, evs)[i]
                == t.canonical_target(name),
    decreases evs.len(),
{
    if evs.len() > 0 {
        let s = event_step(t, evs[0]);
        let rest = evs.drop_first();
        assert(all_refine_to(rest, name)) by {
            assert(forall|i: int| 0 <= i < rest.len() ==> rest[i] == evs[i + 1]);
        }
        lemma_republish_once_per_value(s.task, rest, name);
        assert(s.task.original == t.original);
        if evs[0] is RefineOk {
            assert(contains_refine_ok(evs));
        } else {
            assert(contains_refine_ok(evs) == contains_refine_ok(rest)) by {
                assert(forall|i: int| 0 <= i < rest.len() ==> rest[i] == evs[i + 1]);
                if contains_refine_ok(evs) {
                    let i = choose|i: int| 0 <= i < evs.len() && #[trigger] evs[i] is RefineOk;
                    assert(i >= 1);
                    assert(rest[i - 1] is RefineOk);
                }
                if contains_refine_ok(rest) {
                    let i = choose|i: int| 0 <= i < rest.len() && #[trigger] rest[i] is RefineOk;
                    assert(evs[i + 1] is RefineOk);
                }
            }
        }
    }
}

/// Initial-value guarantee: in the awaiting-initial state, the first
/// resolution outcome — success or failure — publishes exactly one
/// value: the rebuilt target on success, the original target on
/// failure. Either way the cache leaves the awaiting-initial state, so
/// later failures publish nothing.
pub proof fn lemma_first_outcome_publishes(
    t: TaskModel,
    name: Seq<u8>,
    valid_until: u64,
    nx_valid_until: Option<u64>,
    now: u64,
)
    requires
        t.resolved is AwaitingInitial,
    ensures
        step_refine_ok(t, name, valid_until).1 == Some(t.canonical_target(name)),
        step_refine_ok(t, name, valid_until).0.resolved == CacheModel::Resolved(
            t.canonical_target(name),
        ),
        step_refine_err(t, nx_valid_until, now).1 == Some(t.original),
        step_refine_err(t, nx_valid_until, now).0.resolved == CacheModel::Unresolved,
{
}

/// Last-known-good: with a canonical value already published, a failed
/// re-query publishes nothing and keeps that value cached — routing
/// continues with the last-known-good canonical target, not the raw
/// original — and the retry is paced by the failure's authoritative
/// negative-cache deadline when it carries one, else by the fixed
/// error backoff.
pub proof fn lemma_failure_keeps_last_known_good(t: TaskModel, nx_valid_until: Option<u64>, now: u64)
    requires
        t.resolved is Resolved,
    ensures
        step_refine_err(t, nx_valid_until, now).1 is None,
        step_refine_err(t, nx_valid_until, now).0.resolved == t.resolved,
        step_refine_err(t, nx_valid_until, now).0.state == (State::ValidUntil {
            deadline: match nx_valid_until {
                Some(d) => d,
                None => (now + DNS_ERROR_TTL) as u64,
            },
        }),
{
}

/// TTL correctness, first half: while the machine rests on a validity
/// deadline, no run made of events that all occur before the deadline
/// issues any DNS query. (In fact no event at all is admitted until the
/// deadline passes.)
pub proof fn lemma_no_requery_before_deadline(t: TaskModel, evs: Seq<TaskEvent>, deadline: u64)
    requires
        t.state == (State::ValidUntil { deadline }),
        valid_run(t, evs),
        forall|i: int| 0 <= i < evs.len() ==> event_time(#[trigger] evs[i]) < deadline,
    ensures
        queries_in_run(t, evs) == 0,
        run_task(t, evs) == t,
    decreases evs.len(),
{
    if evs.len() > 0 {
        assert(event_enabled(t, evs[0]));
        assert(event_time(evs[0]) < deadline);
        assert(false);
    }
}

/// TTL correctness, second half: once the deadline has passed, waking
/// the machine and starting the next query is admitted, and that run
/// issues exactly one DNS query.
pub proof fn lemma_requery_at_deadline(t: TaskModel, deadline: u64, now: u64)
    requires
        t.wf(),
        t.state == (State::ValidUntil { deadline }),
        now >= deadline,
        now + t.timeout <= u64::MAX,
    ensures
        valid_run(t, seq![TaskEvent::Wake { now }, TaskEvent::Start { now }]),
        queries_in_run(t, seq![TaskEvent::Wake { now }, TaskEvent::Start { now }]) == 1,
{
    let evs = seq![TaskEvent::Wake { now }, TaskEvent::Start { now }];
    let rest = evs.drop_first();
    assert(rest =~= seq![TaskEvent::Start { now }]);
    assert(rest.drop_first() =~= Seq::<TaskEvent>::empty());
    let s0 = event_step(t, evs[0]);
    let s1 = event_step(s0.task, rest[0]);
    assert(valid_run(s1.task, rest.drop_first()));
    assert(event_enabled(s0.task, rest[0]));
    assert(valid_run(s0.task, rest));
    assert(event_enabled(t, evs[0]));
    assert(valid_run(t, evs));
    assert(queries_in_run(s1.task, rest.drop_first()) == 0);
    assert(s1.queried is Some);
    assert(queries_in_run(s0.task, rest) == 1);
    assert(s0.queried is None);
    assert(queries_in_run(t, evs) == 1);
}

} // verus!
