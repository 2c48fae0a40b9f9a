use arena_core::encode::encode_pong;
use arena_core::game::WeaponId;
use arena_core::room::{PlayerId, PlayerInput, RoomConfig, RoomId};
use arena_core::session::{Session, SessionAction};
use arena_core::types::ClientMsg;

fn input_msg(seq: u64, weapon_switch: i32, weapon_scroll: i32) -> ClientMsg {
    ClientMsg::Input {
        seq,
        key_up: true,
        key_down: false,
        key_left: false,
        key_right: true,
        mouse_down: true,
        weapon_switch,
        weapon_scroll,
        aim_angle: 0.5f32.to_bits(),
        facing_left: true,
    }
}

#[test]
fn hello_names_the_player_until_it_joins() {
    let mut session = Session::new(PlayerId(4), "player4".to_string());
    assert_eq!(
        session.handle_client_msg(ClientMsg::Hello { username: String::new() }, 0),
        SessionAction::Idle
    );
    assert_eq!(session.username, "player4");
    session.handle_client_msg(ClientMsg::Hello { username: "alice".to_string() }, 0);
    assert_eq!(session.username, "alice");
    session.joined(RoomId::from("r".to_string()));
    session.handle_client_msg(ClientMsg::Hello { username: "mallory".to_string() }, 0);
    assert_eq!(session.username, "alice");
}

#[test]
fn join_room_asks_for_the_named_or_the_default_room() {
    let mut session = Session::new(PlayerId(4), "alice".to_string());
    let action = session.handle_client_msg(ClientMsg::JoinRoom { room_id: None, map: None }, 0);
    assert_eq!(
        action,
        SessionAction::JoinRoom {
            config: RoomConfig {
                name: "room-1".to_string(),
                max_players: 8,
                map_id: "dm2".to_string(),
                mode: "deathmatch".to_string(),
                tick_rate: 60,
                protocol_version: "1".to_string(),
                region: None,
            },
            username: "alice".to_string(),
        }
    );
    assert_eq!(session.current_room, None);
    match session.handle_client_msg(
        ClientMsg::JoinRoom { room_id: Some("duel".to_string()), map: Some("dm7".to_string()) },
        0,
    ) {
        SessionAction::JoinRoom { config, .. } => {
            assert_eq!(config.name, "duel");
            assert_eq!(config.map_id, "dm7");
        }
        other => panic!("expected JoinRoom, got {:?}", other),
    }
}

#[test]
fn input_goes_to_the_room_of_the_player() {
    let mut session = Session::new(PlayerId(4), "alice".to_string());
    assert_eq!(session.handle_client_msg(input_msg(1, 3, 0), 0), SessionAction::Idle);
    session.joined(RoomId::from("r".to_string()));
    assert_eq!(
        session.handle_client_msg(input_msg(2, 5, -1), 0),
        SessionAction::ForwardInput {
            room: RoomId::from("r".to_string()),
            seq: 2,
            input: PlayerInput {
                key_up: true,
                key_down: false,
                key_left: false,
                key_right: true,
                mouse_down: true,
                weapon_switch: Some(WeaponId::Rail),
                weapon_scroll: -1,
                aim_angle: 0.5f32.to_bits(),
                facing_left: true,
            },
        }
    );
    match session.handle_client_msg(input_msg(3, -1, 257), 0) {
        SessionAction::ForwardInput { input, .. } => {
            assert_eq!(input.weapon_switch, None);
            assert_eq!(input.weapon_scroll, 1);
        }
        other => panic!("expected ForwardInput, got {:?}", other),
    }
    match session.handle_client_msg(input_msg(4, 9, 128), 0) {
        SessionAction::ForwardInput { input, .. } => {
            assert_eq!(input.weapon_switch, None);
            assert_eq!(input.weapon_scroll, -128);
        }
        other => panic!("expected ForwardInput, got {:?}", other),
    }
}

#[test]
fn ping_is_answered_with_a_pong() {
    let mut session = Session::new(PlayerId(4), "alice".to_string());
    assert_eq!(
        session.handle_client_msg(ClientMsg::Ping { client_time_ms: 11 }, 22),
        SessionAction::Send { frame: encode_pong(11, 22) }
    );
}

#[test]
fn a_session_leaves_its_room_exactly_once() {
    let mut session = Session::new(PlayerId(4), "alice".to_string());
    assert_eq!(session.close(), None);
    session.joined(RoomId::from("r".to_string()));
    assert_eq!(session.close(), Some(RoomId::from("r".to_string())));
    assert_eq!(session.close(), None);
}
