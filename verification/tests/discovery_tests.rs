use outbound_core::addr_info::SockAddr;
use outbound_core::balance::{Routed, Service};
use outbound_core::resbal::{layer, Change, Error, Resolution, Resolve, Update};
use outbound_core::selector::Selector;
use outbound_core::svc::{Async, Poll, Stack as MakeStack};

fn key(n: u32) -> SockAddr {
    SockAddr::V4 { ip: 0x0a000000 + n, port: 80 }
}

/// A scripted resolution stream.
struct Script {
    events: Vec<Poll<Update<u32>, &'static str>>,
}

impl Resolution for Script {
    type Endpoint = u32;
    type Error = &'static str;

    fn poll(&mut self) -> Poll<Update<u32>, &'static str> {
        if self.events.is_empty() {
            Ok(Async::NotReady)
        } else {
            self.events.remove(0)
        }
    }
}

/// A resolver that hands out one scripted stream per target.
#[derive(Clone)]
struct ScriptedResolve {
    events: Vec<Poll<Update<u32>, &'static str>>,
}

impl Resolve<&'static str> for ScriptedResolve {
    type Endpoint = u32;
    type Resolution = Script;

    fn resolve(&self, _target: &&'static str) -> Script {
        Script { events: self.events.clone() }
    }
}

/// A factory that builds a numbered backend per endpoint descriptor.
#[derive(Clone)]
struct Factory {
    fail_on: Option<u32>,
}

impl MakeStack<u32> for Factory {
    type Value = String;
    type Error = &'static str;

    fn make(&self, endpoint: &u32) -> Result<String, &'static str> {
        if self.fail_on == Some(*endpoint) {
            Err("factory refused")
        } else {
            Ok(format!("backend-{}", endpoint))
        }
    }
}

#[test]
fn discovery_builds_a_service_per_add() {
    let resolve = ScriptedResolve {
        events: vec![
            Ok(Async::Ready(Update::Add(key(1), 1))),
            Ok(Async::NotReady),
            Ok(Async::Ready(Update::Add(key(2), 2))),
            Ok(Async::Ready(Update::Remove(key(1)))),
        ],
    };
    let stack = layer(resolve).bind(Factory { fail_on: None });
    let (mut discover, mut selector) = stack.make(&"web");

    assert!(discover.endpoint_status().is_empty());

    match discover.poll() {
        Ok(Async::Ready(Change::Insert(k, svc))) => {
            assert_eq!(k, key(1));
            assert_eq!(svc, "backend-1");
            selector.insert(k, svc, 0).unwrap();
        }
        other => panic!("expected an insert, got {:?}", other),
    }
    assert!(!discover.endpoint_status().is_empty());

    assert!(matches!(discover.poll(), Ok(Async::NotReady)));

    match discover.poll() {
        Ok(Async::Ready(Change::Insert(k, svc))) => {
            assert_eq!(k, key(2));
            assert_eq!(svc, "backend-2");
            selector.insert(k, svc, 0).unwrap();
        }
        other => panic!("expected an insert, got {:?}", other),
    }

    match discover.poll() {
        Ok(Async::Ready(Change::Remove(k))) => {
            assert_eq!(k, key(1));
            assert_eq!(selector.remove(k), Ok("backend-1".to_string()));
        }
        other => panic!("expected a remove, got {:?}", other),
    }
    assert!(!discover.endpoint_status().is_empty());
    assert_eq!(selector.len(), 1);
}

#[test]
fn discovery_surfaces_stream_and_factory_failures() {
    let resolve = ScriptedResolve {
        events: vec![
            Err("resolution broke"),
            Ok(Async::Ready(Update::Add(key(3), 3))),
        ],
    };
    let stack = layer(resolve).bind(Factory { fail_on: Some(3) });
    let (mut discover, _selector) = stack.make(&"web");
    assert!(matches!(discover.poll(), Err(Error::Resolve("resolution broke"))));
    assert!(matches!(discover.poll(), Err(Error::Stack("factory refused"))));
}

#[test]
fn key_discipline_violations_change_nothing() {
    let resolve = ScriptedResolve {
        events: vec![
            Ok(Async::Ready(Update::Remove(key(1)))),
            Ok(Async::Ready(Update::Add(key(1), 1))),
            Ok(Async::Ready(Update::Add(key(1), 1))),
        ],
    };
    let stack = layer(resolve).bind(Factory { fail_on: None });
    let (mut discover, _selector) = stack.make(&"web");
    // Remove for an unbound key: ignored, reported pending.
    assert!(matches!(discover.poll(), Ok(Async::NotReady)));
    assert!(matches!(discover.poll(), Ok(Async::Ready(Change::Insert(_, _)))));
    // Add for a bound key: ignored, reported pending.
    assert!(matches!(discover.poll(), Ok(Async::NotReady)));
    assert!(!discover.endpoint_status().is_empty());
}

/// The pool starts empty, so a request routes to the fallback; an Add
/// arrives, so the next request routes to the pool; the following
/// Remove drains the pool to zero, so the next request routes to the
/// fallback again — across the transitions every request goes to
/// exactly one path, none dropped, none duplicated.
#[test]
fn fallback_transition_scenario() {
    let resolve = ScriptedResolve {
        events: vec![
            Ok(Async::Ready(Update::Add(key(1), 1))),
            Ok(Async::Ready(Update::Remove(key(1)))),
        ],
    };
    let stack = layer(resolve).bind(Factory { fail_on: None });
    let (mut discover, mut selector) = stack.make(&"web");

    let mut svc: Service<&'static str, &'static str> =
        Service::new("pool", "fallback", discover.endpoint_status());

    // Pool empty: to the fallback.
    assert!(matches!(svc.call("req-1"), Routed::Fallback("req-1")));

    // An Add event arrives.
    match discover.poll() {
        Ok(Async::Ready(Change::Insert(k, backend))) => {
            selector.insert(k, backend, 0).unwrap()
        }
        other => panic!("expected an insert, got {:?}", other),
    }
    svc.set_status(discover.endpoint_status());
    assert!(matches!(svc.call("req-2"), Routed::Balance("req-2")));

    // The Remove drains the pool to zero.
    match discover.poll() {
        Ok(Async::Ready(Change::Remove(k))) => {
            selector.remove(k).unwrap();
        }
        other => panic!("expected a remove, got {:?}", other),
    }
    svc.set_status(discover.endpoint_status());
    assert!(matches!(svc.call("req-3"), Routed::Fallback("req-3")));
}

#[test]
fn apply_ties_the_change_to_the_consumed_update() {
    let resolve = ScriptedResolve { events: vec![] };
    let stack = layer(resolve).bind(Factory { fail_on: Some(9) });
    let (mut discover, _selector) = stack.make(&"web");

    // A fresh Add invokes the factory once, with that event's
    // descriptor, and surfaces its product under exactly that key.
    match discover.apply(Update::Add(key(1), 1)) {
        Ok(Async::Ready(Change::Insert(k, svc))) => {
            assert_eq!(k, key(1));
            assert_eq!(svc, "backend-1");
        }
        other => panic!("expected an insert, got {:?}", other),
    }
    assert!(!discover.endpoint_status().is_empty());

    // A factory failure on a fresh Add is tagged as the stack's error
    // and binds nothing.
    assert!(matches!(
        discover.apply(Update::Add(key(9), 9)),
        Err(Error::Stack("factory refused"))
    ));

    // An Add for a bound key is a key-discipline fault: pending, and
    // nothing moves.
    assert!(matches!(discover.apply(Update::Add(key(1), 1)), Ok(Async::NotReady)));
    assert!(!discover.endpoint_status().is_empty());

    // A Remove of a bound key surfaces exactly that key and never
    // consults the factory.
    match discover.apply(Update::Remove(key(1))) {
        Ok(Async::Ready(Change::Remove(k))) => assert_eq!(k, key(1)),
        other => panic!("expected a remove, got {:?}", other),
    }
    assert!(discover.endpoint_status().is_empty());

    // A Remove of an unbound key is the other fault: pending.
    assert!(matches!(discover.apply(Update::Remove(key(1))), Ok(Async::NotReady)));
}

#[test]
fn absorb_tags_the_failing_collaborator() {
    let resolve = ScriptedResolve { events: vec![] };
    let stack = layer(resolve).bind(Factory { fail_on: None });
    let (mut discover, _selector) = stack.make(&"web");

    // A stream failure surfaces as exactly that error, Resolve-tagged.
    assert!(matches!(
        discover.absorb(Err("stream broke")),
        Err(Error::Resolve("stream broke"))
    ));
    // Pending passes through.
    assert!(matches!(discover.absorb(Ok(Async::NotReady)), Ok(Async::NotReady)));
    // A ready update is consumed as by apply.
    match discover.absorb(Ok(Async::Ready(Update::Add(key(2), 2)))) {
        Ok(Async::Ready(Change::Insert(k, svc))) => {
            assert_eq!(k, key(2));
            assert_eq!(svc, "backend-2");
        }
        other => panic!("expected an insert, got {:?}", other),
    }
}
