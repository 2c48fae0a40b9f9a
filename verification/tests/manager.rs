use arena_core::encode::encode_join_rejected;
use arena_core::listing::{key_before, list_order, list_rooms, ListKey};
use arena_core::manager::{ManagerError, RoomManager, RoomMetrics};
use arena_core::map::GameMap;
use arena_core::room::{JoinError, PlayerId, RoomConfig, RoomId, RoomStatus, RoomSummary};
use arena_core::room_task::{Reply, RoomCmd, RoomTask};
use arena_core::text::str_eq;

fn map() -> GameMap {
    GameMap {
        rows: 1,
        cols: 1,
        bricks: vec![0],
        respawns: vec![(0, 0)],
        items: Vec::new(),
        name: "dm2".to_string(),
    }
}

fn config(name: &str, max: usize) -> RoomConfig {
    RoomConfig {
        name: name.to_string(),
        max_players: max,
        map_id: "dm2".to_string(),
        mode: "deathmatch".to_string(),
        tick_rate: 60,
        protocol_version: "1".to_string(),
        region: None,
    }
}

fn summary(name: &str, status: RoomStatus, players: usize, last: u64) -> RoomSummary {
    RoomSummary {
        room_id: format!("id-{}", name),
        name: name.to_string(),
        current_players: players,
        max_players: 8,
        map_id: "dm2".to_string(),
        mode: "deathmatch".to_string(),
        status,
        created_at_ms: 0,
        last_activity_at_ms: last,
        protocol_version: "1".to_string(),
        region: None,
    }
}

fn join_through(
    manager: &mut RoomManager,
    rooms: &mut Vec<RoomTask>,
    player: u64,
    target: &RoomId,
) -> Result<Vec<u8>, Vec<u8>> {
    if let Some(old) = manager.leave_player(PlayerId(player)) {
        let room = rooms.iter_mut().find(|r| r.id() == &old).unwrap();
        room.handle_cmd(RoomCmd::Leave { player_id: PlayerId(player) }, 0);
    }
    let room = rooms.iter_mut().find(|r| r.id() == target).unwrap();
    let answer = match room
        .handle_cmd(RoomCmd::Join { player_id: PlayerId(player), username: format!("player{}", player) }, 0)
        .reply
    {
        Reply::Join(answer) => answer,
        other => panic!("expected a join answer, got {:?}", other),
    };
    manager.complete_join(PlayerId(player), target, answer)
}

fn open(manager: &mut RoomManager, rooms: &mut Vec<RoomTask>, name: &str, max: usize) -> RoomId {
    let id = manager.create_room(&config(name, max)).expect("room create");
    rooms.push(RoomTask::new(id.duplicate(), map(), Vec::new(), config(name, max), 0));
    id
}

#[test]
fn create_list_and_close_room() {
    let mut manager = RoomManager::new();
    let room = manager.create_room(&config("alpha", 2));
    assert!(room.is_ok());
    assert_eq!(manager.current_rooms(), 1);

    let close_result = manager.close_room("alpha");
    assert_eq!(close_result, room);
    manager.note_room_closed();
    assert_eq!(manager.current_rooms(), 0);
    assert_eq!(manager.metrics().rooms_created_total, 1);
    assert_eq!(manager.metrics().rooms_closed_total, 1);
    assert_eq!(manager.close_room("alpha"), Err(ManagerError::RoomNotFound));
}

#[test]
fn room_ids_are_drawn_fresh() {
    let mut manager = RoomManager::new();
    let a = manager.create_room(&config("a", 2)).unwrap();
    let b = manager.create_room(&config("b", 2)).unwrap();
    assert_ne!(a, b);
    for id in [&a, &b] {
        assert_eq!(id.as_str().len(), 32);
        assert!(id.as_str().chars().all(|c| c.is_ascii_hexdigit() && !c.is_ascii_uppercase()));
    }
}

#[test]
fn create_room_checks_limit_name_and_id() {
    let mut manager = RoomManager::new();
    assert_eq!(manager.create_room(&config("zero", 0)), Err(ManagerError::InvalidMaxPlayers));
    assert_eq!(manager.create_room(&config("nine", 9)), Err(ManagerError::InvalidMaxPlayers));
    assert!(manager.create_room(&config("one", 1)).is_ok());
    assert!(manager.create_room(&config("eight", 8)).is_ok());
    assert_eq!(manager.create_room(&config("one", 4)), Err(ManagerError::RoomNameAlreadyExists));
    assert_eq!(manager.create_room(&config("one", 0)), Err(ManagerError::InvalidMaxPlayers));
    assert_eq!(
        manager.create_room_with_id(&config("fixed", 2), "abc".to_string()),
        Ok(RoomId::from("abc".to_string()))
    );
    assert_eq!(
        manager.create_room_with_id(&config("other", 2), "abc".to_string()),
        Err(ManagerError::RoomIdTaken)
    );
    assert_eq!(manager.current_rooms(), 3);
    assert_eq!(manager.metrics().rooms_created_total, 3);
    assert_eq!(ManagerError::RoomNotFound.message(), "room_not_found");
    assert_eq!(ManagerError::RoomNameAlreadyExists.message(), "room_name_already_exists");
    assert_eq!(ManagerError::InvalidMaxPlayers.message(), "maxPlayers must be 1..=8");
}

#[test]
fn get_or_create_is_idempotent() {
    let mut manager = RoomManager::new();
    let (first, first_new) = manager.get_or_create_room(&config("lobby", 8)).unwrap();
    let (second, second_new) = manager.get_or_create_room(&config("lobby", 4)).unwrap();
    assert!(first_new);
    assert!(!second_new);
    assert_eq!(first, second);
    assert_eq!(manager.current_rooms(), 1);
    assert_eq!(manager.metrics().rooms_created_total, 1);
    assert_eq!(
        manager.get_or_create_room(&config("lobby", 9)),
        Err(ManagerError::InvalidMaxPlayers)
    );
    assert_eq!(
        manager.get_or_create_room_with_id(&config("new", 2), first.as_str().to_string()),
        Err(ManagerError::RoomIdTaken)
    );
}

#[test]
fn rooms_are_found_by_id_first_then_by_name() {
    let mut manager = RoomManager::new();
    manager.create_room_with_id(&config("one", 2), "two".to_string()).unwrap();
    manager.create_room_with_id(&config("two", 2), "x".to_string()).unwrap();
    assert_eq!(manager.get_room_by_ref("two"), Some(RoomId::from("two".to_string())));
    assert_eq!(manager.get_room_by_ref("one"), Some(RoomId::from("two".to_string())));
    assert_eq!(manager.get_room_by_ref("x"), Some(RoomId::from("x".to_string())));
    assert_eq!(manager.get_room_by_ref("none"), None);
    assert_eq!(manager.kick("one"), Ok(RoomId::from("two".to_string())));
    assert_eq!(manager.kick("none"), Err(ManagerError::RoomNotFound));
    assert_eq!(manager.set_room_max_players("x", 0), Err(ManagerError::InvalidMaxPlayers));
    assert_eq!(manager.set_room_max_players("none", 9), Err(ManagerError::InvalidMaxPlayers));
    assert_eq!(manager.set_room_max_players("none", 3), Err(ManagerError::RoomNotFound));
    assert_eq!(manager.set_room_max_players("x", 8), Ok(RoomId::from("x".to_string())));
    assert_eq!(manager.close_room("two"), Ok(RoomId::from("x".to_string())));
    assert_eq!(manager.get_room_by_ref("two"), Some(RoomId::from("two".to_string())));
}

#[test]
fn join_until_full() {
    let mut manager = RoomManager::new();
    let mut rooms = Vec::new();
    let room = open(&mut manager, &mut rooms, "beta", 1);
    let first = join_through(&mut manager, &mut rooms, 1, &room);
    assert!(first.is_ok());
    let second = join_through(&mut manager, &mut rooms, 2, &room);
    assert_eq!(second, Err(encode_join_rejected("room_full")));
    assert_eq!(manager.current_players(), 1);
    assert_eq!(manager.room_of(PlayerId(2)), None);
    assert_eq!(manager.metrics().players_joined_total, 1);
}

#[test]
fn concurrent_join_respects_capacity() {
    let mut manager = RoomManager::new();
    let mut rooms = Vec::new();
    let room = open(&mut manager, &mut rooms, "gamma", 2);
    let mut joined = 0;
    for player in 0..6_u64 {
        if join_through(&mut manager, &mut rooms, player, &room).is_ok() {
            joined += 1;
        }
    }
    assert_eq!(joined, 2);
    assert_eq!(rooms[0].player_count(), 2);
}

#[test]
fn leave_last_player_triggers_auto_close_flow() {
    let mut manager = RoomManager::new();
    let mut rooms = Vec::new();
    let room = open(&mut manager, &mut rooms, "delta", 2);
    assert!(join_through(&mut manager, &mut rooms, 7, &room).is_ok());

    let left = manager.leave_player(PlayerId(7)).unwrap();
    assert_eq!(left, room);
    rooms[0].handle_cmd(RoomCmd::Leave { player_id: PlayerId(7) }, 0);
    assert_eq!(manager.get_room_by_ref("delta"), Some(room));
    assert_eq!(rooms[0].info().summary.status.as_str(), "closing");
}

#[test]
fn disconnect_cleanup_reuses_leave_path() {
    let mut manager = RoomManager::new();
    let mut rooms = Vec::new();
    let room = open(&mut manager, &mut rooms, "epsilon", 2);
    assert!(join_through(&mut manager, &mut rooms, 9, &room).is_ok());
    assert_eq!(manager.room_of(PlayerId(9)), Some(room));

    assert!(manager.leave_player(PlayerId(9)).is_some());
    assert_eq!(manager.current_players(), 0);
    assert_eq!(manager.leave_player(PlayerId(9)), None);
    assert_eq!(manager.metrics().players_left_total, 1);
}

#[test]
fn moving_between_rooms_clears_old_membership() {
    let mut manager = RoomManager::new();
    let mut rooms = Vec::new();
    let room_a = open(&mut manager, &mut rooms, "a", 8);
    let room_b = open(&mut manager, &mut rooms, "b", 8);

    assert!(join_through(&mut manager, &mut rooms, 77, &room_a).is_ok());
    assert!(rooms[0].contains_player(PlayerId(77)));

    let target = manager.move_target("b").unwrap();
    assert_eq!(target, room_b);
    assert!(join_through(&mut manager, &mut rooms, 77, &target).is_ok());

    assert!(!rooms[0].contains_player(PlayerId(77)));
    assert!(rooms[1].contains_player(PlayerId(77)));
    assert_eq!(manager.room_of(PlayerId(77)), Some(room_b));
    assert_eq!(manager.current_players(), 1);
    assert_eq!(manager.metrics().players_joined_total, 2);
    assert_eq!(manager.metrics().players_left_total, 1);
    assert_eq!(manager.move_target("nowhere"), Err(encode_join_rejected("room_not_found")));
}

#[test]
fn player_can_move_between_rooms_without_ghosting() {
    let mut manager = RoomManager::new();
    let mut rooms = Vec::new();
    let first = open(&mut manager, &mut rooms, "room-a", 8);
    let second = open(&mut manager, &mut rooms, "room-b", 8);
    assert!(join_through(&mut manager, &mut rooms, 7, &first).is_ok());
    assert!(rooms[0].contains_player(PlayerId(7)));
    assert!(!rooms[1].contains_player(PlayerId(7)));
    assert!(join_through(&mut manager, &mut rooms, 7, &second).is_ok());
    assert!(!rooms[0].contains_player(PlayerId(7)));
    assert!(rooms[1].contains_player(PlayerId(7)));
    assert_eq!(rooms[0].status(), RoomStatus::Closing);
    assert_eq!(rooms[1].status(), RoomStatus::Running);
}

#[test]
fn a_rejected_join_changes_nothing() {
    let mut manager = RoomManager::new();
    let id = manager.create_room(&config("r", 2)).unwrap();
    let before = manager.metrics();
    assert_eq!(
        manager.complete_join(PlayerId(1), &id, Err(JoinError::RoomClosing)),
        Err(encode_join_rejected("room_closing"))
    );
    assert_eq!(manager.metrics(), before);
    assert_eq!(manager.current_players(), 0);
    assert_eq!(manager.complete_join(PlayerId(1), &id, Ok(vec![1, 2])), Ok(vec![1, 2]));
    assert_eq!(manager.complete_join(PlayerId(1), &id, Ok(vec![3])), Ok(vec![3]));
    assert_eq!(manager.current_players(), 1);
    assert_eq!(
        manager.metrics(),
        RoomMetrics { players_joined_total: 2, ..before }
    );
}

#[test]
fn closing_a_room_forgets_its_players() {
    let mut manager = RoomManager::new();
    let a = manager.create_room(&config("a", 8)).unwrap();
    let b = manager.create_room(&config("b", 8)).unwrap();
    for (player, room) in [(1, &a), (2, &b), (3, &a), (4, &b)] {
        manager.complete_join(PlayerId(player), room, Ok(Vec::new())).unwrap();
    }
    assert_eq!(manager.close_room(a.as_str()), Ok(a.duplicate()));
    assert_eq!(manager.current_players(), 2);
    assert_eq!(manager.room_of(PlayerId(1)), None);
    assert_eq!(manager.room_of(PlayerId(3)), None);
    assert_eq!(manager.room_of(PlayerId(2)), Some(b.duplicate()));
    assert_eq!(manager.room_of(PlayerId(4)), Some(b));
    assert_eq!(manager.get_room_by_ref("a"), None);
}

#[test]
fn a_room_that_is_gone_is_not_told_of_a_leave() {
    let mut manager = RoomManager::new();
    let ghost = RoomId::from("gone".to_string());
    manager.complete_join(PlayerId(1), &ghost, Ok(Vec::new())).unwrap();
    assert_eq!(manager.leave_player(PlayerId(1)), None);
    assert_eq!(manager.current_players(), 0);
    assert_eq!(manager.metrics().players_left_total, 0);
}

#[test]
fn rename_keeps_names_apart() {
    let mut manager = RoomManager::new();
    let a = manager.create_room(&config("a", 8)).unwrap();
    manager.create_room(&config("b", 8)).unwrap();
    assert_eq!(manager.rename_room("a", "b".to_string()), Err(ManagerError::RoomNameAlreadyExists));
    assert_eq!(manager.rename_room("a", "a".to_string()), Err(ManagerError::RoomNameAlreadyExists));
    assert_eq!(manager.rename_room("zz", "c".to_string()), Err(ManagerError::RoomNotFound));
    assert_eq!(manager.rename_room("a", "c".to_string()), Ok(a.duplicate()));
    assert_eq!(manager.get_room_by_ref("c"), Some(a.duplicate()));
    assert_eq!(manager.get_room_by_ref("a"), None);
    assert_eq!(manager.rename_room(a.as_str(), "d".to_string()), Ok(a.duplicate()));
    assert_eq!(manager.get_room_by_ref("d"), Some(a));
    assert!(manager.create_room(&config("a", 8)).is_ok());
}

#[test]
fn rooms_are_listed_running_first_then_fuller_then_fresher() {
    let rooms = vec![
        summary("closing", RoomStatus::Closing, 8, 900),
        summary("created", RoomStatus::Created, 0, 800),
        summary("closed", RoomStatus::Closed, 0, 999),
        summary("run-small-old", RoomStatus::Running, 1, 100),
        summary("run-big", RoomStatus::Running, 5, 50),
        summary("run-small-new", RoomStatus::Running, 1, 200),
        summary("run-small-new-twin", RoomStatus::Running, 1, 200),
        summary("created-late", RoomStatus::Created, 0, 850),
    ];
    let (listed, order) = list_rooms(&rooms);
    let names: Vec<&str> = listed.iter().map(|r| r.name.as_str()).collect();
    assert_eq!(
        names,
        vec![
            "run-big",
            "run-small-new",
            "run-small-new-twin",
            "run-small-old",
            "created-late",
            "created",
            "closing",
        ]
    );
    assert_eq!(order, vec![4, 5, 6, 3, 7, 1, 0]);
    assert_eq!(listed[0], rooms[4]);
    let keys: Vec<ListKey> = rooms
        .iter()
        .map(|r| ListKey {
            status: r.status,
            current_players: r.current_players,
            last_activity_at_ms: r.last_activity_at_ms,
        })
        .collect();
    assert_eq!(list_order(&keys), order);
    assert!(key_before(&keys[4], &keys[3]));
    assert!(!key_before(&keys[5], &keys[6]));
    assert!(list_order(&[]).is_empty());
}

#[test]
fn strings_compare_by_their_characters() {
    assert!(str_eq("", ""));
    assert!(str_eq("room", "room"));
    assert!(!str_eq("room", "roo"));
    assert!(!str_eq("room", "rooM"));
    assert!(str_eq("é", "é"));
}

#[test]
fn a_player_is_in_one_room_at_most() {
    let mut manager = RoomManager::new();
    assert_eq!(manager.current_players(), 0);
    let a = manager.create_room(&config("a", 8)).unwrap();
    let b = manager.create_room(&config("b", 8)).unwrap();
    assert_eq!(manager.complete_join(PlayerId(1), &a, Ok(vec![1, 2])), Ok(vec![1, 2]));
    assert_eq!(manager.complete_join(PlayerId(1), &b, Ok(vec![3])), Ok(vec![3]));
    assert_eq!(manager.current_players(), 1);
    assert_eq!(manager.room_of(PlayerId(1)), Some(b.duplicate()));
    assert_eq!(manager.metrics().players_joined_total, 2);
    for player in 2..=40u64 {
        let room = if player % 2 == 0 { &a } else { &b };
        manager.complete_join(PlayerId(player), room, Ok(Vec::new())).unwrap();
    }
    assert_eq!(manager.current_players(), 40);
    assert_eq!(manager.close_room("b"), Ok(b.duplicate()));
    assert_eq!(manager.current_players(), 20);
    for player in 1..=40u64 {
        let expected = if player % 2 == 0 { Some(a.duplicate()) } else { None };
        assert_eq!(manager.room_of(PlayerId(player)), expected);
    }
    assert_eq!(manager.leave_player(PlayerId(2)), Some(a.duplicate()));
    assert_eq!(manager.leave_player(PlayerId(2)), None);
    assert_eq!(manager.leave_player(PlayerId(3)), None);
    assert_eq!(manager.current_players(), 19);
    assert_eq!(manager.metrics().players_left_total, 1);
}

#[test]
fn a_fresh_registry_takes_every_valid_room() {
    for max in 1..=8usize {
        let mut manager = RoomManager::new();
        let id = manager.create_room(&config("first", max)).expect("a first room");
        assert_eq!(id.as_str().chars().count(), 32);
        assert_eq!(manager.current_rooms(), 1);
        let mut other = RoomManager::new();
        let (again, is_new) = other.get_or_create_room(&config("first", max)).expect("a first room");
        assert!(is_new);
        assert_eq!(again.as_str().chars().count(), 32);
    }
    let mut manager = RoomManager::new();
    for n in 0..50 {
        assert!(manager.create_room_with_id(&config(&format!("r{}", n), 8), format!("short-{}", n)).is_ok());
    }
    assert!(manager.create_room(&config("drawn", 8)).is_ok());
    assert!(matches!(manager.get_or_create_room(&config("lobby", 8)), Ok((_, true))));
    assert_eq!(manager.current_rooms(), 52);
}
