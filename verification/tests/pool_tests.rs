use outbound_core::addr_info::SockAddr;
use outbound_core::pool::{EndpointSet, EndpointStatus, PoolFault};

fn key(n: u32) -> SockAddr {
    SockAddr::V4 { ip: 0x0a000000 + n, port: 80 }
}

#[test]
fn add_and_remove_follow_key_discipline() {
    let mut set: EndpointSet<&'static str> = EndpointSet::new();
    assert!(set.is_empty());
    assert_eq!(set.add(key(1), "one"), Ok(()));
    assert_eq!(set.add(key(2), "two"), Ok(()));
    assert_eq!(set.len(), 2);
    // A second Add for a bound key is an error and changes nothing.
    assert_eq!(set.add(key(1), "one again"), Err(PoolFault::DuplicateKey));
    assert_eq!(set.len(), 2);
    // A Remove for an unbound key is an error and changes nothing.
    assert_eq!(set.remove(key(9)), Err(PoolFault::UnknownKey));
    assert_eq!(set.remove(key(1)), Ok("one"));
    assert_eq!(set.len(), 1);
    // The same key may be reused after a Remove.
    assert_eq!(set.add(key(1), "one later"), Ok(()));
    assert_eq!(set.len(), 2);
}

#[test]
fn flag_moves_with_every_cardinality_change() {
    let mut set: EndpointSet<u8> = EndpointSet::new();
    assert!(set.status().is_empty());
    set.add(key(1), 1).unwrap();
    assert!(!set.status().is_empty());
    set.add(key(2), 2).unwrap();
    assert!(!set.status().is_empty());
    set.remove(key(1)).unwrap();
    assert!(!set.status().is_empty());
    set.remove(key(2)).unwrap();
    assert!(set.status().is_empty());
}

/// Empty-flag consistency under randomized Add/Remove interleavings:
/// after every event the flag equals "the live count is zero", with
/// the count tracked independently by the test.
#[test]
fn flag_consistent_under_random_interleavings() {
    let mut seed: u64 = 0x2545f4914f6cdd1d;
    let mut rand = move || {
        seed = seed.wrapping_mul(6364136223846793005).wrapping_add(1442695040888963407);
        seed >> 33
    };
    let mut set: EndpointSet<u64> = EndpointSet::new();
    let mut live: Vec<u32> = Vec::new();
    for step in 0..2000u64 {
        let k = (rand() % 8) as u32;
        if rand() % 2 == 0 {
            if set.add(key(k), step).is_ok() {
                live.push(k);
            }
        } else if set.remove(key(k)).is_ok() {
            let at = live.iter().position(|&x| x == k).unwrap();
            live.remove(at);
        }
        assert_eq!(set.len(), live.len());
        assert_eq!(set.status().is_empty(), live.is_empty());
        assert_eq!(set.is_empty(), live.is_empty());
    }
}

#[test]
fn status_snapshot_reads_its_instant() {
    let status = EndpointStatus::new(true);
    assert!(status.is_empty());
    let status = EndpointStatus::new(false);
    assert!(!status.is_empty());
}

#[test]
fn get_reads_pairs_in_insertion_order() {
    let mut set: EndpointSet<char> = EndpointSet::new();
    set.add(key(5), 'a').unwrap();
    set.add(key(6), 'b').unwrap();
    assert_eq!(*set.get(0), (key(5), 'a'));
    assert_eq!(*set.get(1), (key(6), 'b'));
    *set.value_mut(1) = 'c';
    assert_eq!(*set.get(1), (key(6), 'c'));
}
