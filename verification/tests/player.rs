use horizon_common::{
    AuthenticationStatus, ConnectionState, DisconnectReason, PlayerId, PlayerInfo, ServerId,
    Timestamp, WorldCoordinate,
};

#[test]
fn a_player_starts_unauthenticated_and_connecting() {
    assert_eq!(AuthenticationStatus::default(), AuthenticationStatus::Unauthenticated);
    assert_eq!(ConnectionState::default(), ConnectionState::Connecting);
}

#[test]
fn disconnect_reasons_carry_their_details() {
    let kicked = DisconnectReason::Kicked { reason: "cheating".to_string() };
    match kicked.clone() {
        DisconnectReason::Kicked { reason } => assert_eq!(reason, "cheating"),
        other => panic!("unexpected reason {:?}", other),
    }
    let moved = DisconnectReason::Transfer { target_server: ServerId::from_string("east") };
    match moved {
        DisconnectReason::Transfer { target_server } => assert_eq!(target_server.as_str(), "east"),
        other => panic!("unexpected reason {:?}", other),
    }
    assert!(matches!(DisconnectReason::Timeout, DisconnectReason::Timeout));
}

#[test]
fn a_new_player_is_unauthenticated_connecting_and_at_the_origin() {
    let info = PlayerInfo::new_at(PlayerId(9), "TestPlayer".to_string(), Timestamp::new(50, 7));
    assert_eq!(info.id, PlayerId(9));
    assert_eq!(info.name, "TestPlayer");
    assert_eq!(info.auth_status, AuthenticationStatus::Unauthenticated);
    assert_eq!(info.connection_state, ConnectionState::Connecting);
    assert_eq!(info.current_server, None);
    assert_eq!(info.last_position, WorldCoordinate::zero());
    assert_eq!(info.last_updated, Timestamp::new(50, 7));
    let now = PlayerInfo::new(PlayerId(9), "TestPlayer".to_string());
    assert_eq!(now.name, "TestPlayer");
    assert_eq!(now.last_position, WorldCoordinate::zero());
    assert!(now.last_updated.seconds > 1_600_000_000);
}

#[test]
fn a_reported_position_replaces_the_last_one_and_nothing_else() {
    let mut info = PlayerInfo::new_at(PlayerId(9), "TestPlayer".to_string(), Timestamp::new(50, 7));
    info.current_server = Some(ServerId::from_string("west"));
    info.connection_state = ConnectionState::Connected;
    let here = WorldCoordinate::from_bits(1.5f64.to_bits(), (-2.0f64).to_bits(), 0).unwrap();
    info.update_position_at(here, Timestamp::new(60, 0));
    assert_eq!(info.last_position, here);
    assert_eq!(info.last_updated, Timestamp::new(60, 0));
    assert_eq!(info.id, PlayerId(9));
    assert_eq!(info.name, "TestPlayer");
    assert_eq!(info.connection_state, ConnectionState::Connected);
    assert_eq!(info.current_server, Some(ServerId::from_string("west")));
    let there = WorldCoordinate::new(3, 2, 1);
    info.update_position(there);
    assert_eq!(info.last_position, there);
    assert!(info.last_updated.seconds > 1_600_000_000);
}
