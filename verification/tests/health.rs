use horizon_common::health::{TICK_RATE_SIXTY_BITS, ZERO_BITS};
use horizon_common::{
    ClusterHealth, ComponentHealth, HealthCheck, HealthCheckRequest, HealthSnapshots, HealthStatus,
    LoadFactor, ServerId, Timestamp,
};

fn check(status: HealthStatus, players: u32, capacity: u32) -> HealthCheck {
    let mut c = HealthCheck::healthy(ServerId::new(), players, capacity);
    c.status = status;
    c
}

#[test]
fn test_health_status_operational() {
    assert!(HealthStatus::Healthy.is_operational());
    assert!(HealthStatus::Degraded.is_operational());
    assert!(!HealthStatus::Unhealthy.is_operational());
    assert!(!HealthStatus::Unknown.is_operational());
}

#[test]
fn test_cluster_health_aggregation() {
    let server_id = ServerId::new();
    let checks = vec![
        HealthCheck::healthy(server_id.clone(), 50, 100),
        HealthCheck::healthy(server_id, 30, 100),
    ];
    let cluster = ClusterHealth::new(&checks);
    assert_eq!(cluster.healthy_servers, 2);
    assert_eq!(cluster.total_players, 80);
    assert_eq!(cluster.total_capacity, 200);
}

#[test]
fn health_status_defaults_to_unknown() {
    assert_eq!(HealthStatus::default(), HealthStatus::Unknown);
}

#[test]
fn health_check_request_defaults_to_nothing_included() {
    let r = HealthCheckRequest::default();
    assert!(!r.include_components);
    assert!(!r.include_metrics);
}

#[test]
fn component_health_constructors() {
    let ok = ComponentHealth::healthy("database");
    assert_eq!(ok.name, "database");
    assert_eq!(ok.status, HealthStatus::Healthy);
    assert_eq!(ok.details, None);
    assert_eq!(ok.response_time_ms, None);

    let bad = ComponentHealth::unhealthy("cache", "connection refused");
    assert_eq!(bad.name, "cache");
    assert_eq!(bad.status, HealthStatus::Unhealthy);
    assert_eq!(bad.details.as_deref(), Some("connection refused"));
    assert_eq!(bad.response_time_ms, None);
}

#[test]
fn healthy_check_is_filled_in() {
    let id = ServerId::from_string("s-1");
    let c = HealthCheck::healthy_at(id.clone(), 12, 40, Timestamp::new(1_700_000_000, 5));
    assert_eq!(c.server_id, id);
    assert_eq!(c.status, HealthStatus::Healthy);
    assert_eq!(c.timestamp, Timestamp::new(1_700_000_000, 5));
    assert_eq!(c.player_count, 12);
    assert_eq!(c.capacity, 40);
    assert_eq!(c.uptime_secs, 0);
    assert_eq!(c.tick_rate_bits, TICK_RATE_SIXTY_BITS);
    assert_eq!(f32::from_bits(c.tick_rate_bits), 60.0);
    assert_eq!(c.memory_mb, 0);
    assert_eq!(f32::from_bits(c.cpu_percent_bits), 0.0);
    assert!(c.components.is_empty());
    assert_eq!(c.message, None);
}

#[test]
fn unhealthy_check_is_filled_in() {
    let id = ServerId::from_string("s-2");
    let c = HealthCheck::unhealthy_at(id.clone(), "disk full".to_string(), Timestamp::new(7, 0));
    assert_eq!(c.server_id, id);
    assert_eq!(c.status, HealthStatus::Unhealthy);
    assert_eq!(c.timestamp, Timestamp::new(7, 0));
    assert_eq!(c.player_count, 0);
    assert_eq!(c.capacity, 0);
    assert_eq!(c.uptime_secs, 0);
    assert_eq!(c.tick_rate_bits, ZERO_BITS);
    assert_eq!(f32::from_bits(c.tick_rate_bits), 0.0);
    assert_eq!(c.memory_mb, 0);
    assert_eq!(c.cpu_percent_bits, ZERO_BITS);
    assert!(c.components.is_empty());
    assert_eq!(c.message.as_deref(), Some("disk full"));
}

#[test]
fn checks_made_now_carry_a_recent_time() {
    let before = Timestamp::now();
    let ok = HealthCheck::healthy(ServerId::new(), 1, 2);
    let bad = HealthCheck::unhealthy(ServerId::new(), "down".to_string());
    assert!(ok.timestamp.seconds.abs_diff(before.seconds) < 60);
    assert!(bad.timestamp.seconds.abs_diff(before.seconds) < 60);
    assert!(ok.timestamp.nanos < 1_000_000_000);
    assert_eq!(ok.status, HealthStatus::Healthy);
    assert_eq!((ok.player_count, ok.capacity), (1, 2));
    assert_eq!(bad.status, HealthStatus::Unhealthy);
    assert_eq!(bad.message.as_deref(), Some("down"));
}

#[test]
fn check_load_factor_is_players_over_capacity() {
    let c = HealthCheck::healthy(ServerId::new(), 30, 120);
    let load = c.load_factor();
    assert_eq!(load, LoadFactor { numerator: 30, denominator: 120 });
    assert_eq!(load.numerator as f32 / load.denominator as f32, 0.25);
    let none = HealthCheck::unhealthy(ServerId::new(), "down".to_string());
    assert_eq!(none.load_factor(), LoadFactor { numerator: 0, denominator: 1 });
}

#[test]
fn two_healthy_servers_make_a_healthy_cluster() {
    let checks = vec![check(HealthStatus::Healthy, 50, 100), check(HealthStatus::Healthy, 30, 100)];
    let at = Timestamp::new(1_700_000_000, 0);
    let cluster = ClusterHealth::at(&checks, at).unwrap();
    assert_eq!(
        cluster,
        ClusterHealth {
            status: HealthStatus::Healthy,
            healthy_servers: 2,
            degraded_servers: 0,
            unhealthy_servers: 0,
            total_players: 80,
            total_capacity: 200,
            timestamp: at,
        }
    );
    let load = cluster.load_factor();
    assert_eq!(load, LoadFactor { numerator: 80, denominator: 200 });
    assert!((load.numerator as f32 / load.denominator as f32 - 0.4).abs() < 1e-6);
}

#[test]
fn healthy_beside_unhealthy_is_degraded() {
    let checks =
        vec![check(HealthStatus::Healthy, 10, 20), check(HealthStatus::Unhealthy, 0, 0)];
    let cluster = ClusterHealth::new(&checks);
    assert_eq!(cluster.status, HealthStatus::Degraded);
    assert_eq!(cluster.healthy_servers, 1);
    assert_eq!(cluster.unhealthy_servers, 1);
}

#[test]
fn only_unhealthy_servers_make_an_unhealthy_cluster() {
    let checks =
        vec![check(HealthStatus::Unhealthy, 0, 0), check(HealthStatus::Unhealthy, 3, 10)];
    let cluster = ClusterHealth::new(&checks);
    assert_eq!(cluster.status, HealthStatus::Unhealthy);
    assert_eq!(cluster.unhealthy_servers, 2);
    assert_eq!(cluster.total_players, 3);
}

#[test]
fn no_checks_make_an_unknown_cluster() {
    let cluster = ClusterHealth::new(&[]);
    assert_eq!(cluster.status, HealthStatus::Unknown);
    assert_eq!(cluster.healthy_servers, 0);
    assert_eq!(cluster.degraded_servers, 0);
    assert_eq!(cluster.unhealthy_servers, 0);
    assert_eq!(cluster.total_players, 0);
    assert_eq!(cluster.total_capacity, 0);
    assert_eq!(cluster.load_factor(), LoadFactor { numerator: 0, denominator: 1 });
}

#[test]
fn unknown_servers_are_counted_as_unhealthy() {
    let checks = vec![check(HealthStatus::Unknown, 1, 5)];
    let cluster = ClusterHealth::new(&checks);
    assert_eq!(cluster.unhealthy_servers, 1);
    assert_eq!(cluster.status, HealthStatus::Unhealthy);
    let mixed = vec![check(HealthStatus::Unknown, 1, 5), check(HealthStatus::Healthy, 1, 5)];
    assert_eq!(ClusterHealth::new(&mixed).status, HealthStatus::Degraded);
}

#[test]
fn a_degraded_server_degrades_the_cluster() {
    let checks = vec![check(HealthStatus::Healthy, 1, 5), check(HealthStatus::Degraded, 2, 5)];
    let cluster = ClusterHealth::new(&checks);
    assert_eq!(cluster.status, HealthStatus::Degraded);
    assert_eq!(cluster.degraded_servers, 1);
    let only = vec![check(HealthStatus::Degraded, 2, 5)];
    assert_eq!(ClusterHealth::new(&only).status, HealthStatus::Degraded);
    let worse = vec![check(HealthStatus::Degraded, 2, 5), check(HealthStatus::Unhealthy, 2, 5)];
    assert_eq!(ClusterHealth::new(&worse).status, HealthStatus::Unhealthy);
}

#[test]
fn aggregation_ignores_the_order_of_the_checks() {
    let a = check(HealthStatus::Healthy, 5, 10);
    let b = check(HealthStatus::Degraded, 7, 20);
    let c = check(HealthStatus::Unknown, 9, 30);
    let at = Timestamp::new(99, 1);
    let one = ClusterHealth::at(&[a.clone(), b.clone(), c.clone()], at).unwrap();
    let two = ClusterHealth::at(&[c.clone(), a.clone(), b.clone()], at).unwrap();
    let three = ClusterHealth::at(&[b, c, a], at).unwrap();
    assert_eq!(one, two);
    assert_eq!(one, three);
    assert_eq!(one.total_players, 21);
    assert_eq!(one.total_capacity, 60);
    assert_eq!(one.status, HealthStatus::Degraded);
}

#[test]
fn sums_that_do_not_fit_give_nothing() {
    let checks = vec![check(HealthStatus::Healthy, u32::MAX, 1), check(HealthStatus::Healthy, 1, 1)];
    assert_eq!(ClusterHealth::at(&checks, Timestamp::new(0, 0)), None);
    let capacity =
        vec![check(HealthStatus::Healthy, 0, u32::MAX), check(HealthStatus::Healthy, 0, 1)];
    assert_eq!(ClusterHealth::at(&capacity, Timestamp::new(0, 0)), None);
    let fits = vec![check(HealthStatus::Healthy, u32::MAX, 1), check(HealthStatus::Healthy, 0, 1)];
    assert_eq!(ClusterHealth::at(&fits, Timestamp::new(0, 0)).unwrap().total_players, u32::MAX);
}

#[test]
fn test_heartbeat_load() {
    let load = LoadFactor::of(50, 100);
    let value = load.numerator as f32 / load.denominator as f32;
    assert!((value - 0.5).abs() < 0.001);
}

#[test]
fn load_of_fifty_out_of_a_hundred_is_one_half() {
    let load = LoadFactor::of(50, 100);
    assert_eq!(load, LoadFactor { numerator: 50, denominator: 100 });
    assert_eq!(load.numerator as f32 / load.denominator as f32, 0.5);
}

#[test]
fn load_without_capacity_is_zero() {
    let load = LoadFactor::of(50, 0);
    assert_eq!(load, LoadFactor { numerator: 0, denominator: 1 });
    let value = load.numerator as f32 / load.denominator as f32;
    assert_eq!(value, 0.0);
    assert!(value.is_finite());
}

fn report(server: &str, players: u32, seconds: i64) -> HealthCheck {
    HealthCheck::healthy_at(ServerId::from_string(server), players, 100, Timestamp::new(seconds, 0))
}

fn kept(snapshots: &HealthSnapshots) -> Vec<(String, u32, i64)> {
    snapshots
        .as_slice()
        .iter()
        .map(|c| (c.server_id.to_string(), c.player_count, c.timestamp.seconds))
        .collect()
}

#[test]
fn snapshots_keep_one_check_for_each_server() {
    let mut snapshots = HealthSnapshots::new();
    assert!(snapshots.as_slice().is_empty());
    assert!(snapshots.record(report("west", 10, 100)));
    assert!(snapshots.record(report("east", 20, 100)));
    assert!(snapshots.record(report("north", 30, 100)));
    assert_eq!(
        kept(&snapshots),
        vec![("west".to_string(), 10, 100), ("east".to_string(), 20, 100), ("north".to_string(), 30, 100)]
    );
    assert_eq!(snapshots.find(&ServerId::from_string("west")), Some(0));
    assert_eq!(snapshots.find(&ServerId::from_string("north")), Some(2));
    assert_eq!(snapshots.find(&ServerId::from_string("south")), None);
}

#[test]
fn the_latest_check_of_a_server_wins() {
    let mut snapshots = HealthSnapshots::new();
    assert!(snapshots.record(report("west", 10, 100)));
    assert!(snapshots.record(report("east", 20, 100)));
    assert!(snapshots.record(report("west", 11, 101)));
    assert_eq!(kept(&snapshots), vec![("west".to_string(), 11, 101), ("east".to_string(), 20, 100)]);
    assert!(!snapshots.record(report("west", 12, 100)));
    assert_eq!(kept(&snapshots), vec![("west".to_string(), 11, 101), ("east".to_string(), 20, 100)]);
    assert!(snapshots.record(report("west", 13, 101)));
    assert_eq!(kept(&snapshots), vec![("west".to_string(), 13, 101), ("east".to_string(), 20, 100)]);
}

#[test]
fn snapshots_are_aggregated_server_by_server() {
    let mut snapshots = HealthSnapshots::new();
    snapshots.record(report("west", 50, 100));
    snapshots.record(report("east", 30, 100));
    snapshots.record(report("west", 60, 200));
    let cluster = ClusterHealth::new(snapshots.as_slice());
    assert_eq!(cluster.healthy_servers, 2);
    assert_eq!(cluster.total_players, 90);
    assert_eq!(cluster.total_capacity, 200);
    assert_eq!(cluster.status, HealthStatus::Healthy);
}

#[test]
fn a_server_that_missed_its_deadline_is_seen_as_unknown() {
    let mut snapshots = HealthSnapshots::new();
    snapshots.record(report("west", 10, 100));
    let mut failing = report("east", 20, 100);
    failing.status = HealthStatus::Unhealthy;
    snapshots.record(failing);
    let west = ServerId::from_string("west");
    let east = ServerId::from_string("east");
    assert_eq!(snapshots.observed_status(&west, Timestamp::new(100, 0), 15), HealthStatus::Healthy);
    assert_eq!(snapshots.observed_status(&west, Timestamp::new(115, 0), 15), HealthStatus::Healthy);
    assert_eq!(snapshots.observed_status(&west, Timestamp::new(115, 1), 15), HealthStatus::Unknown);
    assert_eq!(snapshots.observed_status(&west, Timestamp::new(900, 0), 15), HealthStatus::Unknown);
    assert_eq!(snapshots.observed_status(&east, Timestamp::new(110, 0), 15), HealthStatus::Unhealthy);
    assert_eq!(
        snapshots.observed_status(&ServerId::from_string("south"), Timestamp::new(100, 0), 15),
        HealthStatus::Unknown
    );
    assert_eq!(snapshots.as_slice()[0].status, HealthStatus::Healthy);
    assert_eq!(kept(&snapshots), vec![("west".to_string(), 10, 100), ("east".to_string(), 20, 100)]);
}
