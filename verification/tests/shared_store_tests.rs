// The shared aggregation store: arena, ordered index, capacity limit.

use nginx_vts_rust::order_key;
use nginx_vts_rust::VtsError;
use nginx_vts_rust::VtsSharedContext;

#[test]
fn test_store_insert_and_get() {
    let mut store = VtsSharedContext::new(16);
    assert_eq!(store.len(), 0);
    assert_eq!(store.capacity(), 16);

    store.insert_or_update("example.com", 200, 100, 200, 50).unwrap();
    store.insert_or_update("example.com", 404, 10, 20, 5).unwrap();
    store.insert_or_update("other.com", 200, 1, 2, 3).unwrap();

    assert_eq!(store.len(), 2);
    let stats = store.get_stats("example.com").unwrap();
    assert_eq!(stats.requests, 2);
    assert_eq!(stats.bytes_in, 110);
    assert_eq!(stats.bytes_out, 220);
    assert_eq!(stats.status_2xx, 1);
    assert_eq!(stats.status_4xx, 1);
    assert_eq!(stats.request_time_total, 55);
    assert_eq!(stats.request_time_max, 50);
    assert_eq!(stats.request_time_min, 5);

    assert!(store.get_stats("missing").is_none());
}

#[test]
fn test_store_capacity_exhausted() {
    // A fixed-capacity arena refuses a new identity once full and reports
    // it; updates to existing identities still succeed.
    let mut store = VtsSharedContext::new(2);
    store.insert_or_update("a", 200, 1, 1, 1).unwrap();
    store.insert_or_update("b", 200, 1, 1, 1).unwrap();
    let refused = store.insert_or_update("c", 200, 1, 1, 1);
    assert_eq!(refused, Err(VtsError::ResourceExhausted));
    assert_eq!(store.len(), 2);

    store.insert_or_update("a", 200, 1, 1, 1).unwrap();
    assert_eq!(store.get_stats("a").unwrap().requests, 2);
}

#[test]
fn test_store_traverse_order() {
    let mut store = VtsSharedContext::new(64);
    let names = ["zeta", "alpha", "mid", "aaaa", "zz", "m1", "m2", "m3"];
    for n in names.iter() {
        store.insert_or_update(n, 200, 1, 1, 1).unwrap();
    }
    let entries = store.traverse();
    assert_eq!(entries.len(), names.len());
    // Every identity appears exactly once, in nondecreasing order-key
    // order.
    for w in entries.windows(2) {
        assert!(order_key(&w[0].0) <= order_key(&w[1].0));
        assert_ne!(w[0].0, w[1].0);
    }
    for n in names.iter() {
        assert!(entries.iter().any(|e| e.0 == *n));
    }
}

#[test]
fn test_store_many_distinct_identities() {
    // Ten thousand distinct member identities inserted and traversed:
    // exactly ten thousand distinct entries with correct counters come
    // back out.
    let count: usize = 10000;
    let mut store = VtsSharedContext::new(count);
    for i in 0..count {
        let name = format!("10.0.{}.{}:8080", i / 256, i % 256);
        store.insert_or_update(&name, 200, 10, 20, 5).unwrap();
    }
    assert_eq!(store.len(), count);

    let entries = store.traverse();
    assert_eq!(entries.len(), count);
    for w in entries.windows(2) {
        assert_ne!(w[0].0, w[1].0);
        assert!(order_key(&w[0].0) <= order_key(&w[1].0));
    }
    for e in entries.iter() {
        assert_eq!(e.1.requests, 1);
        assert_eq!(e.1.bytes_in, 10);
        assert_eq!(e.1.bytes_out, 20);
    }

    // Per-identity lookup still finds each entry after the bulk insert.
    assert_eq!(store.get_stats("10.0.0.0:8080").unwrap().requests, 1);
    assert_eq!(store.get_stats("10.0.39.15:8080").unwrap().requests, 1);
    assert!(store.get_stats("10.0.40.0:8080").is_none());
}

#[test]
fn test_store_init_fresh_or_attach() {
    // Startup distinguishes creating a region from attaching to one the
    // process group already owns: attaching preserves the counters.
    let mut first = VtsSharedContext::new(8);
    first.insert_or_update("kept", 200, 1, 2, 3).unwrap();

    let reattached = VtsSharedContext::init_or_attach(Some(first), 8);
    assert_eq!(reattached.len(), 1);
    assert_eq!(reattached.get_stats("kept").unwrap().bytes_out, 2);

    let fresh = VtsSharedContext::init_or_attach(None, 8);
    assert_eq!(fresh.len(), 0);
    assert_eq!(fresh.capacity(), 8);
}

#[test]
fn test_order_key_deterministic() {
    // The order key is a pure function of the identity: equal strings give
    // equal keys, and the key drives the tree's placement in every
    // cooperating process.
    assert_eq!(order_key("backend"), order_key("backend"));
    assert_ne!(order_key("backend"), order_key("backend2"));
    assert_eq!(order_key(""), 0xcbf29ce484222325);
}

#[test]
fn test_record_shared_request_validation() {
    let mut store = VtsSharedContext::new(1);
    assert_eq!(
        nginx_vts_rust::record_shared_request(&mut store, "", 200, 1, 1, 1),
        Err(VtsError::InvalidArgument)
    );
    assert_eq!(
        nginx_vts_rust::record_shared_request(&mut store, "z", 200, 1, 1, 86400001),
        Err(VtsError::InvalidArgument)
    );
    assert_eq!(store.len(), 0);

    nginx_vts_rust::record_shared_request(&mut store, "z", 200, 1, 1, 1).unwrap();
    assert_eq!(
        nginx_vts_rust::record_shared_request(&mut store, "other", 200, 1, 1, 1),
        Err(VtsError::ResourceExhausted)
    );
    nginx_vts_rust::record_shared_request(&mut store, "z", 200, 1, 1, 1).unwrap();
    assert_eq!(store.get_stats("z").unwrap().requests, 2);
}
