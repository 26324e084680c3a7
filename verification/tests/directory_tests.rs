use aetherlink::directory::{
    Capabilities, NetworkServiceDirectory, ServiceEntry, ServiceMetrics,
};
use aetherlink::protocol::{NodeId, QosRequirements, ServiceType};

fn caps(max_bandwidth: u16, min_latency: u16, reliability: u8, battery_level: u8) -> Capabilities {
    Capabilities { max_bandwidth, min_latency, reliability, battery_level }
}

fn metrics(success_rate: u8, avg_response_time: u16, signal_strength: i8) -> ServiceMetrics {
    ServiceMetrics { success_rate, avg_response_time, signal_strength }
}

fn entry(
    node_id: NodeId,
    capabilities: Capabilities,
    load: u8,
    m: ServiceMetrics,
) -> ServiceEntry {
    ServiceEntry {
        node_id,
        service_type: ServiceType::VideoRelay,
        load,
        capabilities,
        last_update_time: 0,
        metrics: m,
    }
}

#[test]
fn test_score_exact_value() {
    // bandwidth surplus 500 -> 40 * (1 + 500/100)  = 240
    // latency slack 50     -> 30 * (1 + 50/50)     = 60
    // reliability surplus 15 -> 20 * (1 + 15/10)   = 40
    // load 20              -> 10 * (100-20)/10     = 80
    // battery 80           -> 5 * 80/10            = 40
    // signal -60 (> -75)   -> 3
    let e = entry(NodeId::new([1, 2, 3, 4, 5, 6]), caps(1000, 50, 95, 80), 20, metrics(100, 20, -60));
    let qos = QosRequirements { min_bandwidth: 500, max_latency: 100, reliability: 80 };
    assert_eq!(e.score(&qos), 240 + 60 + 40 + 80 + 40 + 3);
}

#[test]
fn test_score_zero_on_each_violated_bound() {
    let qos = QosRequirements { min_bandwidth: 500, max_latency: 100, reliability: 80 };
    let low_bandwidth = entry(
        NodeId::new([1, 0, 0, 0, 0, 1]),
        caps(499, 50, 95, 80),
        0,
        metrics(100, 20, -60),
    );
    let high_latency = entry(
        NodeId::new([1, 0, 0, 0, 0, 2]),
        caps(1000, 101, 95, 80),
        0,
        metrics(100, 20, -60),
    );
    let low_reliability = entry(
        NodeId::new([1, 0, 0, 0, 0, 3]),
        caps(1000, 50, 79, 80),
        0,
        metrics(100, 20, -60),
    );
    assert_eq!(low_bandwidth.score(&qos), 0);
    assert_eq!(high_latency.score(&qos), 0);
    assert_eq!(low_reliability.score(&qos), 0);
}

#[test]
fn test_score_signal_buckets() {
    let qos = QosRequirements { min_bandwidth: 0, max_latency: 1000, reliability: 0 };
    let base = |signal: i8| {
        entry(NodeId::new([1, 0, 0, 0, 0, 1]), caps(0, 1000, 0, 0), 100, metrics(0, 0, signal))
            .score(&qos)
    };
    // With everything else zeroed: 40 + 30 + 20 + 0 + 0 + bucket.
    assert_eq!(base(-59), 90 + 5);
    assert_eq!(base(-60), 90 + 3);
    assert_eq!(base(-75), 90 + 1);
    assert_eq!(base(-90), 90);
}

#[test]
fn test_find_best_service_prefers_higher_score() {
    let mut directory = NetworkServiceDirectory::new();
    let weak = NodeId::new([0x0A, 0, 0, 0, 0, 1]);
    let strong = NodeId::new([0x0B, 0, 0, 0, 0, 2]);
    let qos = QosRequirements { min_bandwidth: 500, max_latency: 100, reliability: 80 };

    assert!(directory.update_service(
        weak,
        ServiceType::VideoRelay,
        90,
        caps(600, 90, 85, 10),
        metrics(80, 90, -85),
        0,
    ));
    assert!(directory.update_service(
        strong,
        ServiceType::VideoRelay,
        10,
        caps(1500, 40, 99, 95),
        metrics(100, 15, -55),
        0,
    ));

    let best = directory.find_best_service(ServiceType::VideoRelay, &qos).unwrap();
    assert_eq!(best.node_id, strong);
}

#[test]
fn test_find_best_service_tie_keeps_first() {
    let mut directory = NetworkServiceDirectory::new();
    let first = NodeId::new([0x0A, 0, 0, 0, 0, 1]);
    let second = NodeId::new([0x0B, 0, 0, 0, 0, 2]);
    let qos = QosRequirements { min_bandwidth: 500, max_latency: 100, reliability: 80 };
    let same_caps = caps(1000, 50, 95, 80);
    let same_metrics = metrics(100, 20, -60);

    directory.update_service(first, ServiceType::VideoRelay, 20, same_caps, same_metrics, 0);
    directory.update_service(second, ServiceType::VideoRelay, 20, same_caps, same_metrics, 0);

    let best = directory.find_best_service(ServiceType::VideoRelay, &qos).unwrap();
    assert_eq!(best.node_id, first);
}

#[test]
fn test_find_best_service_none_when_no_candidate_qualifies() {
    let mut directory = NetworkServiceDirectory::new();
    let qos = QosRequirements { min_bandwidth: 500, max_latency: 100, reliability: 80 };

    // Nothing registered at all.
    assert!(directory.find_best_service(ServiceType::VideoRelay, &qos).is_none());

    // A provider of another type does not count.
    directory.update_service(
        NodeId::new([1, 0, 0, 0, 0, 1]),
        ServiceType::Storage,
        0,
        caps(2000, 10, 100, 100),
        metrics(100, 10, -50),
        0,
    );
    // A provider violating a hard bound does not count.
    directory.update_service(
        NodeId::new([1, 0, 0, 0, 0, 2]),
        ServiceType::VideoRelay,
        0,
        caps(100, 10, 100, 100),
        metrics(100, 10, -50),
        0,
    );
    assert!(directory.find_best_service(ServiceType::VideoRelay, &qos).is_none());
}

#[test]
fn test_update_service_upserts_and_rejects_when_full() {
    let mut directory = NetworkServiceDirectory::new();
    let qos = QosRequirements { min_bandwidth: 0, max_latency: 1000, reliability: 0 };

    // Fill all 32 slots with distinct keys.
    for i in 0..32u8 {
        assert!(directory.update_service(
            NodeId::new([i, 0, 0, 0, 0, 1]),
            ServiceType::VideoRelay,
            0,
            caps(1000, 50, 95, 80),
            metrics(100, 20, -60),
            0,
        ));
    }

    // Updating an existing key still succeeds and keeps the count.
    assert!(directory.update_service(
        NodeId::new([5, 0, 0, 0, 0, 1]),
        ServiceType::VideoRelay,
        42,
        caps(800, 60, 90, 70),
        metrics(90, 30, -70),
        100,
    ));

    // A new key is rejected: the directory is full.
    assert!(!directory.update_service(
        NodeId::new([99, 0, 0, 0, 0, 1]),
        ServiceType::VideoRelay,
        0,
        caps(1000, 50, 95, 80),
        metrics(100, 20, -60),
        0,
    ));

    let all = directory.get_services_by_type(ServiceType::VideoRelay);
    assert_eq!(all.len(), 32);
    let refreshed = all.iter().find(|e| e.node_id == NodeId::new([5, 0, 0, 0, 0, 1])).unwrap();
    assert_eq!(refreshed.load, 42);
    assert_eq!(refreshed.last_update_time, 100);
    assert!(directory.find_best_service(ServiceType::VideoRelay, &qos).is_some());
}

#[test]
fn test_cleanup_is_throttled_and_purges_stale_entries() {
    let mut directory = NetworkServiceDirectory::new();
    let stale = NodeId::new([1, 0, 0, 0, 0, 1]);
    let fresh = NodeId::new([2, 0, 0, 0, 0, 2]);

    directory.update_service(
        stale,
        ServiceType::VideoRelay,
        0,
        caps(1000, 50, 95, 80),
        metrics(100, 20, -60),
        0,
    );
    directory.update_service(
        fresh,
        ServiceType::VideoRelay,
        0,
        caps(1000, 50, 95, 80),
        metrics(100, 20, -60),
        390_000,
    );

    // Before 30 s have passed since the (initial) last sweep, cleanup is
    // a no-op even for stale entries.
    directory.cleanup(29_999);
    assert_eq!(directory.service_count(), 2);

    // After the throttle window, the stale entry (age > 5 min) goes and
    // the fresh one stays.
    directory.cleanup(400_000);
    assert_eq!(directory.service_count(), 1);
    let remaining = directory.get_services_by_type(ServiceType::VideoRelay);
    assert_eq!(remaining.len(), 1);
    assert_eq!(remaining[0].node_id, fresh);

    // Immediately sweeping again is throttled.
    directory.cleanup(401_000);
    assert_eq!(directory.service_count(), 1);
}

#[test]
fn test_register_find_remove_service() {
    let mut directory = NetworkServiceDirectory::new();
    let server = NodeId::new([9, 9, 9, 9, 9, 9]);

    assert_eq!(directory.service_count(), 0);
    assert!(directory.find_service(ServiceType::Gateway).is_none());

    directory.register_service(server, ServiceType::Gateway);
    assert_eq!(directory.service_count(), 1);
    assert_eq!(directory.find_service(ServiceType::Gateway).unwrap(), server);

    directory.remove_service(server, ServiceType::Gateway);
    assert_eq!(directory.service_count(), 0);
    assert!(directory.find_service(ServiceType::Gateway).is_none());
}
