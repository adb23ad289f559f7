use outbound_core::balance::{
    layer, Error, MakeSvc, Making, PendingUntilFirstData, PollPlan, Routed, Service,
};
use outbound_core::pool::EndpointStatus;
use outbound_core::svc::Either;

const MS: u64 = 1_000_000;
const SEC: u64 = 1_000_000_000;

#[test]
fn layer_builders_carry_the_configuration() {
    let l = layer(30 * MS, 10 * SEC);
    let l = l.with_discover("discover");
    let l = l.with_fallback("router");
    let make: MakeSvc<&'static str, &'static str> = l.layer("balance stack", "router stack");
    let fut = make.call::<_, u8, _>("pending", "fallback service");
    let mut fut = fut;
    assert!(!fut.poll(None));
    assert!(fut.poll(Some(7)));
    let (discover, router, config) = fut.finish();
    assert_eq!(discover, 7);
    assert_eq!(router, "fallback service");
    assert_eq!(config.default_rtt, 30 * MS);
    assert_eq!(config.decay, 10 * SEC);
}

#[test]
fn making_reports_readiness_once_observed() {
    let mut making: Making<&'static str, u32> = Making::NotReady("pending");
    assert_eq!(making.describe(), "Making::NotReady(...)");
    assert!(!making.poll(None));
    assert!(!making.poll(None));
    assert!(making.poll(Some(42)));
    assert_eq!(making.describe(), "Making::Ready(...)");
    // Once ready it stays ready until taken.
    assert!(making.poll(None));
    assert_eq!(making.take(), 42);
    assert_eq!(making.describe(), "Making::Over");
}

#[test]
fn dispatch_routes_by_the_emptiness_snapshot() {
    let mut svc: Service<&'static str, &'static str> =
        Service::new("pool", "fallback", EndpointStatus::new(true));
    // Pool empty: the fallback path, and readiness comes from it.
    assert_eq!(svc.readiness_plan(), PollPlan::PoolAndFallback);
    assert!(matches!(svc.call("req-1"), Routed::Fallback("req-1")));
    // Endpoints appeared: the pool path, with nothing extra polled.
    svc.set_status(EndpointStatus::new(false));
    assert_eq!(svc.readiness_plan(), PollPlan::PoolOnly);
    assert!(matches!(svc.call("req-2"), Routed::Balance("req-2")));
    assert_eq!(*svc.balance_mut(), "pool");
    assert_eq!(*svc.router_mut(), "fallback");
}

#[test]
fn errors_stay_tagged_by_path() {
    let e: Error<&'static str, u8> = Error::Balance("pool failed");
    assert!(matches!(e.source(), Either::A("pool failed")));
    let e: Error<&'static str, u8> = Error::Fallback(3);
    assert!(matches!(e.source(), Either::B(3)));
}

#[test]
fn sample_completes_at_first_data_not_full_body() {
    let mut timer = PendingUntilFirstData::new(100 * MS);
    assert_eq!(timer.sample(), None);
    // First byte of response data at +40ms.
    timer.on_first_event(140 * MS);
    assert_eq!(timer.sample(), Some(40 * MS));
    // The body streams on slowly; later events do not move the sample.
    timer.on_first_event(900 * MS);
    assert_eq!(timer.sample(), Some(40 * MS));
}

#[test]
fn sample_completes_immediately_on_error() {
    let mut timer = PendingUntilFirstData::new(0);
    timer.on_first_event(7 * MS);
    assert_eq!(timer.sample(), Some(7 * MS));
}
