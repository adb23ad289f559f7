use outbound_core::addr_info::SockAddr;
use outbound_core::pool::PoolFault;
use outbound_core::selector::{PeakEwma, Selector};

const MS: u64 = 1_000_000;
const SEC: u64 = 1_000_000_000;

fn key(n: u32) -> SockAddr {
    SockAddr::V4 { ip: 0x0a000000 + n, port: 80 }
}

#[test]
fn peak_ewma_jumps_to_a_higher_sample() {
    let mut load = PeakEwma::new(30 * MS, 0);
    load.observe(90 * MS, 10 * MS, 10 * SEC);
    assert_eq!(load.cost, 90 * MS);
    assert_eq!(load.last_update, 10 * MS);
}

#[test]
fn peak_ewma_halves_the_gap_per_half_life() {
    let mut load = PeakEwma::new(80 * MS, 0);
    // One full half-life elapsed: the gap to the sample halves.
    // cost = 40ms + (80ms - 40ms) >> 1 = 60ms.
    load.observe(40 * MS, 10 * SEC, 10 * SEC);
    assert_eq!(load.cost, 60 * MS);
    // Far past many half-lives the estimate lands on the sample.
    load.observe(20 * MS, 10 * SEC + 64 * 10 * SEC, 10 * SEC);
    assert_eq!(load.cost, 20 * MS);
}

#[test]
fn peak_ewma_no_elapsed_time_keeps_the_estimate() {
    let mut load = PeakEwma::new(80 * MS, 5 * SEC);
    // Same instant: the gap shrinks by nothing (shift of zero).
    load.observe(40 * MS, 5 * SEC, 10 * SEC);
    assert_eq!(load.cost, 80 * MS);
}

#[test]
fn selector_membership_and_degradation() {
    let mut sel: Selector<&'static str> = Selector::new(30 * MS, 10 * SEC);
    // Empty pool: nothing to pick.
    assert_eq!(sel.pick(17, 4), None);
    sel.insert(key(1), "a", 0).unwrap();
    // Single member: it is used whatever the draws say.
    assert_eq!(sel.pick(17, 4), Some(0));
    assert_eq!(sel.pick(0, 0), Some(0));
    assert_eq!(sel.insert(key(1), "dup", 0), Err(PoolFault::DuplicateKey));
    assert_eq!(sel.remove(key(9)), Err(PoolFault::UnknownKey));
    assert_eq!(sel.remove(key(1)), Ok("a"));
    assert_eq!(sel.pick(17, 4), None);
}

#[test]
fn selector_readiness_tracks_members() {
    let mut sel: Selector<u8> = Selector::new(30 * MS, 10 * SEC);
    assert!(!sel.is_ready());
    sel.insert(key(1), 1, 0).unwrap();
    sel.insert(key(2), 2, 0).unwrap();
    // Members start not ready: backpressure, never an error.
    assert!(!sel.is_ready());
    assert!(sel.set_ready(key(2), true));
    assert!(sel.is_ready());
    assert!(sel.set_ready(key(2), false));
    assert!(!sel.is_ready());
    // Reporting for an evicted key is refused.
    assert!(!sel.set_ready(key(9), true));
}

#[test]
fn pick_prefers_the_lower_load() {
    let mut sel: Selector<&'static str> = Selector::new(30 * MS, 10 * SEC);
    sel.insert(key(1), "slow", 0).unwrap();
    sel.insert(key(2), "fast", 0).unwrap();
    // Push the first endpoint's estimate up; leave the second at the
    // default baseline.
    assert!(sel.observe(key(1), 500 * MS, 1));
    // With two members both are always sampled, so the lower-loaded
    // second endpoint wins for every pair of draws.
    for r1 in 0..10 {
        for r2 in 0..10 {
            assert_eq!(sel.pick(r1, r2), Some(1));
        }
    }
    // Now make the first endpoint the cheap one (estimates decay to
    // the sample far past many half-lives).
    assert!(sel.observe(key(1), 1 * MS, 64 * 10 * SEC));
    for r1 in 0..10 {
        for r2 in 0..10 {
            assert_eq!(sel.pick(r1, r2), Some(0));
        }
    }
    // A sample for an evicted endpoint is refused.
    assert!(!sel.observe(key(9), 1, 2));
}

#[test]
fn service_and_key_accessors() {
    let mut sel: Selector<&'static str> = Selector::new(30 * MS, 10 * SEC);
    sel.insert(key(4), "a", 0).unwrap();
    sel.insert(key(7), "b", 0).unwrap();
    assert_eq!(*sel.service_at(0), "a");
    assert_eq!(*sel.service_at(1), "b");
    assert_eq!(sel.key_at(0), key(4));
    assert_eq!(sel.key_at(1), key(7));
    assert_eq!(sel.len(), 2);
}

/// Selector fairness under uniform load: N endpoints with equal
/// latency; over M >> N dispatches driven by a pseudo-random source,
/// each endpoint receives a share within tolerance of M / N. With
/// equal loads the tie-break keeps the first-sampled candidate, whose
/// distribution is that of the draws.
#[test]
fn p2c_fair_under_uniform_load() {
    let n: usize = 5;
    let m: usize = 20000;
    let mut sel: Selector<usize> = Selector::new(30 * MS, 10 * SEC);
    for i in 0..n {
        sel.insert(key(i as u32), i, 0).unwrap();
    }
    let mut seed: u64 = 0x9e3779b97f4a7c15;
    let mut rand = move || {
        seed = seed.wrapping_mul(6364136223846793005).wrapping_add(1442695040888963407);
        (seed >> 33) as usize
    };
    let mut counts = vec![0usize; n];
    for _ in 0..m {
        let picked = sel.pick(rand(), rand()).unwrap();
        counts[picked] += 1;
    }
    let expected = m / n;
    for &c in &counts {
        // Within 15% of the fair share.
        assert!(c > expected - expected * 15 / 100, "unfair share: {:?}", counts);
        assert!(c < expected + expected * 15 / 100, "unfair share: {:?}", counts);
    }
}
