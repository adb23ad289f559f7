use outbound_core::addr_info::SockAddr;
use outbound_core::canonicalize::{layer, Cache, Canonicalize, Service, Task};
use outbound_core::svc::{Either, Stack as MakeStack};
use outbound_core::{Addr, Name, NameAddr};

const SEC: u64 = 1_000_000_000;

fn name(s: &str) -> Name {
    Name::new(s.as_bytes().to_vec())
}

fn named(s: &str, port: u16) -> Addr {
    Addr::Name(NameAddr::new(name(s), port))
}

fn socket() -> Addr {
    Addr::Socket(SockAddr::V4 { ip: 0x7f000001, port: 9090 })
}

/// A backend stack that builds the target's port as its "service".
struct PortStack;

impl MakeStack<Addr> for PortStack {
    type Value = u16;
    type Error = String;

    fn make(&self, target: &Addr) -> Result<u16, String> {
        match target.name_addr() {
            Some(na) => Ok(na.port()),
            None => Err("socket target".to_string()),
        }
    }
}

impl Clone for PortStack {
    fn clone(&self) -> Self {
        PortStack
    }
}

#[test]
fn addr_canonicalize_capability() {
    let a = named("web", 8080);
    assert!(a.should_canonicalize());
    assert!(a.uncanonical_name().unwrap().same(&name("web")));
    let s = socket();
    assert!(!s.should_canonicalize());
    assert!(s.uncanonical_name().is_none());
    let rebuilt = a.with_canonical(name("web.example.com."));
    assert!(rebuilt.same(&named("web.example.com.", 8080)));
    let s2 = s.with_canonical(name("ignored"));
    assert!(s2.same(&s));
}

#[test]
fn cache_get_returns_resolved_only() {
    let c: Cache<u32> = Cache::AwaitingInitial;
    assert!(c.get().is_none());
    let c: Cache<u32> = Cache::Unresolved;
    assert!(c.get().is_none());
    let c: Cache<u32> = Cache::Resolved(7);
    assert_eq!(c.get(), Some(&7));
}

/// A target like `web:8080` under search domains: the first query
/// resolves `web.example.com.` with a five second TTL; requests route
/// to the canonicalized target for five seconds, then a re-query is
/// owed; when the re-query fails, routing keeps the last-known-good
/// canonical target, not the raw one.
#[test]
fn search_path_scenario_keeps_last_known_good() {
    let t0: u64 = 100 * SEC;
    let mut task = Task::new(named("web", 8080), SEC);

    let q = task.start_query(t0);
    assert!(q.same(&name("web")));

    let published = task.refine_ok(name("web.example.com."), t0 + 5 * SEC);
    let canonical = named("web.example.com.", 8080);
    assert!(published.expect("first outcome must publish").same(&canonical));

    // No second query is owed before the TTL lapses.
    assert!(!task.due(t0 + 1));
    assert!(!task.due(t0 + 5 * SEC - 1));
    // One is owed at the deadline.
    assert!(task.due(t0 + 5 * SEC));

    task.wake(t0 + 5 * SEC);
    let q = task.start_query(t0 + 5 * SEC);
    assert!(q.same(&name("web")));

    // The re-query fails: nothing is republished, so the consumer keeps
    // routing to the last-known-good canonical target.
    let published = task.refine_err(None, t0 + 5 * SEC);
    assert!(published.is_none());
}

#[test]
fn repeated_resolution_to_same_name_publishes_once() {
    let t0: u64 = 0;
    let mut task = Task::new(named("web", 8080), SEC);
    let mut published = 0;

    for round in 0..4u64 {
        let at = t0 + round * 5 * SEC;
        if round > 0 {
            assert!(task.due(at));
            task.wake(at);
        }
        task.start_query(at);
        if task.refine_ok(name("web.example.com."), at + 5 * SEC).is_some() {
            published += 1;
        }
    }
    assert_eq!(published, 1);
}

#[test]
fn distinct_resolved_values_each_publish() {
    let mut task = Task::new(named("web", 8080), SEC);
    task.start_query(0);
    assert!(task.refine_ok(name("web.example.com."), 5 * SEC).is_some());
    task.wake(5 * SEC);
    task.start_query(5 * SEC);
    let p = task.refine_ok(name("web.example.net."), 10 * SEC);
    assert!(p.expect("changed value must republish").same(&named("web.example.net.", 8080)));
}

#[test]
fn first_failure_publishes_original_once() {
    let mut task = Task::new(named("web", 8080), SEC);
    task.start_query(0);
    let p = task.refine_err(None, 0);
    assert!(p.expect("very first outcome must publish").same(&named("web", 8080)));
    // The fixed error backoff paces the retry at three seconds.
    assert!(!task.due(3 * SEC - 1));
    assert!(task.due(3 * SEC));
    task.wake(3 * SEC);
    task.start_query(3 * SEC);
    // Later failures publish nothing.
    assert!(task.refine_err(None, 3 * SEC).is_none());
}

#[test]
fn negative_cache_deadline_paces_the_retry() {
    let mut task = Task::new(named("web", 8080), SEC);
    task.start_query(0);
    task.refine_err(Some(7 * SEC), 0);
    assert!(!task.due(7 * SEC - 1));
    assert!(task.due(7 * SEC));
}

#[test]
fn stack_make_splits_on_refinability() {
    let stack = layer(SEC).bind(PortStack);
    match stack.make(&named("web", 8080)).unwrap() {
        Either::A((_svc, task)) => {
            // The task starts awaiting its first outcome.
            let mut task = task;
            task.start_query(0);
            assert!(task.refine_err(None, 0).is_some());
        }
        Either::B(_) => panic!("refinable target must get a canonicalizing service"),
    }
    match stack.make(&socket()) {
        Err(e) => assert_eq!(e, "socket target".to_string()),
        Ok(_) => panic!("the inner stack refuses socket targets"),
    }
}

#[test]
fn service_rebuilds_for_latest_update_only() {
    let mut svc: Service<PortStack> = Service::new(PortStack);
    // Nothing published yet: not ready, backpressure.
    assert_eq!(svc.poll_ready(Vec::new()), Ok(false));
    // Several updates queued: only the most recent is built.
    let updates = vec![named("a", 1), named("b", 2), named("c", 3)];
    assert_eq!(svc.poll_ready(updates), Ok(true));
    assert_eq!(*svc.call(), 3);
    // No new updates: the live service stays.
    assert_eq!(svc.poll_ready(Vec::new()), Ok(true));
    assert_eq!(*svc.call(), 3);
}
