use horizon_common::{
    AdjacentServerInfo, ApiRegistrationResponse, RegionCoordinate, ServerStatus,
    SpawnServerResponse, Timestamp,
};

const ALL: [ServerStatus; 5] = [
    ServerStatus::Starting,
    ServerStatus::Running,
    ServerStatus::Draining,
    ServerStatus::Stopped,
    ServerStatus::Error,
];

#[test]
fn server_status_defaults_to_starting() {
    assert_eq!(ServerStatus::default(), ServerStatus::Starting);
}

#[test]
fn lifecycle_runs_from_starting_to_stopped() {
    assert!(ServerStatus::Starting.can_transition_to(ServerStatus::Running));
    assert!(ServerStatus::Running.can_transition_to(ServerStatus::Draining));
    assert!(ServerStatus::Draining.can_transition_to(ServerStatus::Stopped));
    assert!(!ServerStatus::Starting.can_transition_to(ServerStatus::Draining));
    assert!(!ServerStatus::Starting.can_transition_to(ServerStatus::Stopped));
    assert!(!ServerStatus::Running.can_transition_to(ServerStatus::Stopped));
    assert!(!ServerStatus::Running.can_transition_to(ServerStatus::Starting));
    assert!(!ServerStatus::Draining.can_transition_to(ServerStatus::Running));
    assert!(!ServerStatus::Stopped.can_transition_to(ServerStatus::Running));
}

#[test]
fn every_state_but_error_can_fail() {
    for from in ALL {
        assert_eq!(from.can_transition_to(ServerStatus::Error), from != ServerStatus::Error);
    }
}

#[test]
fn error_is_terminal_and_no_state_steps_to_itself() {
    for to in ALL {
        assert!(!ServerStatus::Error.can_transition_to(to));
        assert!(!to.can_transition_to(to));
    }
}

#[test]
fn only_a_running_server_accepts_new_players() {
    for s in ALL {
        assert_eq!(s.accepts_new_players(), s == ServerStatus::Running);
    }
}

#[test]
fn plain_records_hold_their_fields() {
    let spawn = SpawnServerResponse {
        success: true,
        instance_id: "i-1".to_string(),
        address: Some("10.0.0.1:7777".to_string()),
        error: None,
    };
    assert!(spawn.success);
    assert_eq!(spawn.clone().instance_id, "i-1");
    let neighbour = AdjacentServerInfo {
        server_id: "s-2".to_string(),
        address: "10.0.0.2:7777".to_string(),
        region_coord: RegionCoordinate::new(1, 0, 0),
    };
    let response = ApiRegistrationResponse {
        success: true,
        server_id: "s-1".to_string(),
        message: "registered".to_string(),
        heartbeat_interval_secs: 5,
        adjacent_servers: vec![neighbour],
    };
    assert_eq!(response.adjacent_servers[0].region_coord, RegionCoordinate::new(1, 0, 0));
    assert_eq!(response.heartbeat_interval_secs, 5);
}

#[test]
fn timestamp_order_goes_by_seconds_then_nanoseconds() {
    let a = Timestamp::new(10, 5);
    assert!(Timestamp::new(11, 0).is_after(&a));
    assert!(Timestamp::new(10, 6).is_after(&a));
    assert!(!Timestamp::new(10, 5).is_after(&a));
    assert!(!Timestamp::new(10, 4).is_after(&a));
    assert!(!Timestamp::new(9, 999_999_999).is_after(&a));
    assert!(Timestamp::new(-1, 0).is_after(&Timestamp::new(-2, 999_999_999)));
}

#[test]
fn timestamp_plus_seconds_saturates() {
    assert_eq!(Timestamp::new(10, 7).plus_seconds(30), Timestamp::new(40, 7));
    assert_eq!(Timestamp::new(-5, 0).plus_seconds(5), Timestamp::new(0, 0));
    assert_eq!(Timestamp::new(i64::MAX - 1, 3).plus_seconds(1), Timestamp::new(i64::MAX, 3));
    assert_eq!(Timestamp::new(i64::MAX - 1, 3).plus_seconds(2), Timestamp::new(i64::MAX, 3));
    assert_eq!(Timestamp::new(i64::MAX, 3).plus_seconds(u32::MAX), Timestamp::new(i64::MAX, 3));
}

#[test]
fn timestamp_unix_millis() {
    assert_eq!(Timestamp::new(0, 0).unix_millis(), 0);
    assert_eq!(Timestamp::new(1, 444_000_000).unix_millis(), 1_444);
    assert_eq!(Timestamp::new(1_000_000_000, 555_999_999).unix_millis(), 1_000_000_000_555);
    let wide = (i64::MAX as u128) * 1000 + 999;
    assert_eq!(Timestamp::new(i64::MAX, 999_000_000).unix_millis(), wide as u64);
    assert_eq!(Timestamp::new(-1, 0).unix_millis(), u64::MAX - 999);
    assert_eq!(Timestamp::new(-1, 999_999_999).unix_millis(), u64::MAX);
}

#[test]
fn the_clock_reads_a_time_after_the_epoch() {
    let a = Timestamp::now();
    let b = Timestamp::now();
    assert!(a.seconds > 1_600_000_000);
    assert!(a.nanos < 1_000_000_000);
    assert!(b.seconds.abs_diff(a.seconds) < 60);
}
