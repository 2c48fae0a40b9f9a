use arena_core::decode_server::decode_server_message;
use arena_core::encode::{encode_kicked, encode_player_joined, encode_player_left, encode_room_closed};
use arena_core::game::{Explosion, FireOrder, ProjectileKind, WeaponId};
use arena_core::map::{GameMap, ItemKind, MapItem};
use arena_core::player::PlayerState;
use arena_core::player_store::PlayerStore;
use arena_core::room::{
    JoinError, PlayerConn, PlayerId, PlayerInput, RoomConfig, RoomId, RoomStatus, Tick,
};
use arena_core::room_task::{
    come_back, room_seed, CmdOutcome, Outbound, Recipients, Reply, RoomCmd, RoomError, RoomTask,
    SpawnPoint,
};
use arena_core::types::{EffectEvent, EffectEventJs, ServerMsg};

fn simple_map() -> GameMap {
    GameMap {
        rows: 1,
        cols: 1,
        bricks: vec![0],
        respawns: vec![(0, 0)],
        items: Vec::new(),
        name: "test".to_string(),
    }
}

fn spawn_point() -> SpawnPoint {
    SpawnPoint {
        x: 10.0f32.to_bits(),
        y: (-24.0f32).to_bits(),
        on_ground: true,
        brick_on_head: true,
        brick_crouch_on_head: false,
        cache_x: 10,
        cache_y: -24,
    }
}

fn cfg(name: &str, max_players: usize) -> RoomConfig {
    RoomConfig {
        name: name.to_string(),
        max_players,
        map_id: "test".to_string(),
        mode: "dm".to_string(),
        tick_rate: 60,
        protocol_version: "1".to_string(),
        region: None,
    }
}

fn room(name: &str, max_players: usize) -> RoomTask {
    RoomTask::new(
        RoomId::from(name.to_string()),
        simple_map(),
        vec![spawn_point()],
        cfg(name, max_players),
        100,
    )
}

fn join(room: &mut RoomTask, id: u64, name: &str) -> CmdOutcome {
    room.handle_cmd(RoomCmd::Join { player_id: PlayerId(id), username: name.to_string() }, 200)
}

fn joined_frame(outcome: &CmdOutcome) -> Vec<u8> {
    match &outcome.reply {
        Reply::Join(Ok(frame)) => frame.clone(),
        other => panic!("expected a room state, got {:?}", other),
    }
}

fn names_in(frame: &[u8]) -> Vec<String> {
    match decode_server_message(frame).unwrap() {
        ServerMsg::RoomState { players, .. } => players.into_iter().map(|p| p.username).collect(),
        other => panic!("expected RoomState, got {:?}", other),
    }
}

#[test]
fn room_join_is_idempotent_and_leave_removes_player() {
    let mut room = room("room-test", 8);
    let first = join(&mut room, 10, "alice");
    assert!(matches!(first.reply, Reply::Join(Ok(_))));
    assert!(room.contains_player(PlayerId(10)));

    let second = join(&mut room, 10, "alice");
    assert!(matches!(second.reply, Reply::Join(Ok(_))));
    assert!(room.contains_player(PlayerId(10)));
    assert_eq!(room.player_count(), 1);

    room.handle_cmd(RoomCmd::Leave { player_id: PlayerId(10) }, 300);
    assert!(!room.contains_player(PlayerId(10)));
}

#[test]
fn a_new_room_waits_for_players() {
    let room = room("fresh", 4);
    assert_eq!(room.status(), RoomStatus::Created);
    assert_eq!(room.player_count(), 0);
    assert_eq!(room.id().as_str(), "fresh");
    assert_eq!(room.map().name, "test");
    let summary = room.summary();
    assert_eq!(summary.room_id, "fresh");
    assert_eq!(summary.name, "fresh");
    assert_eq!(summary.current_players, 0);
    assert_eq!(summary.max_players, 4);
    assert_eq!(summary.map_id, "test");
    assert_eq!(summary.mode, "dm");
    assert_eq!(summary.status, RoomStatus::Created);
    assert_eq!(summary.created_at_ms, 100);
    assert_eq!(summary.last_activity_at_ms, 100);
    assert_eq!(summary.protocol_version, "1");
    assert_eq!(summary.region, None);
}

#[test]
fn a_room_takes_the_items_of_its_map() {
    let mut map = simple_map();
    map.items.push(MapItem { kind: ItemKind::Quad, row: 0, col: 0, active: true, respawn_timer: 0 });
    let room = RoomTask::new(RoomId::from("r".to_string()), map, Vec::new(), cfg("r", 2), 0);
    assert_eq!(room.items().len(), 1);
    assert!(room.map().items.is_empty());
}

#[test]
fn join_answers_with_the_room_state_and_tells_the_others() {
    let mut room = room("r", 8);
    let first = join(&mut room, 1, "alice");
    assert_eq!(first.outbound.len(), 1);
    assert_eq!(
        first.outbound[0],
        Outbound { to: Recipients::AllExcept(PlayerId(1)), frame: encode_player_joined(1, "alice") }
    );
    assert!(!first.stop);
    assert_eq!(names_in(&joined_frame(&first)), vec!["alice".to_string()]);
    assert_eq!(room.status(), RoomStatus::Running);
    assert_eq!(room.summary().last_activity_at_ms, 200);

    let second = join(&mut room, 2, "bob");
    assert_eq!(names_in(&joined_frame(&second)), vec!["alice".to_string(), "bob".to_string()]);
    match decode_server_message(&joined_frame(&second)).unwrap() {
        ServerMsg::RoomState { room_id, map, players } => {
            assert_eq!(room_id, "r");
            assert_eq!(map, "test");
            let state = players[1].state.unwrap();
            assert_eq!(players[1].id, 2);
            assert_eq!(state.id, 2);
            assert_eq!(f32::from_bits(state.x), 10.0);
            assert_eq!(f32::from_bits(state.y), -24.0);
            assert_eq!(state.health, 100);
            assert_eq!(state.current_weapon, 4);
            assert_eq!(state.last_input_seq, 0);
        }
        other => panic!("expected RoomState, got {:?}", other),
    }
    let state = room.player_state(1);
    assert!(state.cache_on_ground);
    assert_eq!(state.prev_x, state.x);
    assert_eq!(state.last_cache_y, -24);
}

#[test]
fn capacity_is_enforced() {
    let mut room = room("beta", 1);
    assert!(matches!(join(&mut room, 1, "ann").reply, Reply::Join(Ok(_))));
    let second = join(&mut room, 2, "ben");
    assert_eq!(second.reply, Reply::Join(Err(JoinError::RoomFull)));
    assert!(second.outbound.is_empty());
    assert_eq!(room.player_count(), 1);
    assert!(!room.contains_player(PlayerId(2)));
    assert_eq!(room.join_rejection(PlayerId(2)), Some(JoinError::RoomFull));
    assert_eq!(room.join_rejection(PlayerId(1)), None);
    assert!(matches!(join(&mut room, 1, "ann").reply, Reply::Join(Ok(_))));
    assert_eq!(JoinError::RoomFull.reason(), "room_full");
    assert_eq!(JoinError::RoomClosing.reason(), "room_closing");
}

#[test]
fn rejoin_keeps_state_and_updates_the_name() {
    let mut room = room("r", 8);
    join(&mut room, 7, "seven");
    let mut state = room.player_state(0);
    state.health = 42;
    state.x = 5.0f32.to_bits();
    state.velocity_y = 1.0f32.to_bits();
    room.set_player_state(0, state);
    room.handle_cmd(
        RoomCmd::Input {
            player_id: PlayerId(7),
            seq: 9,
            input: PlayerInput { key_up: true, ..PlayerInput::default() },
        },
        250,
    );

    let again = join(&mut room, 7, "seven-again");
    assert!(again.outbound.is_empty());
    assert_eq!(room.player_count(), 1);
    assert_eq!(names_in(&joined_frame(&again)), vec!["seven-again".to_string()]);
    assert_eq!(room.player_state(0), state);
    assert!(room.player_input(0).key_up);
    match room.handle_cmd(RoomCmd::Info, 300).reply {
        Reply::Info(info) => {
            assert_eq!(info.players, vec![(7, "seven-again".to_string())]);
            assert_eq!(info.tick, 0);
            assert_eq!(info.summary.current_players, 1);
        }
        other => panic!("expected Info, got {:?}", other),
    }
}

#[test]
fn inputs_are_filtered_by_sequence_number() {
    let mut room = room("r", 8);
    join(&mut room, 1, "a");
    room.handle_cmd(
        RoomCmd::Input {
            player_id: PlayerId(1),
            seq: 10,
            input: PlayerInput { key_up: true, ..PlayerInput::default() },
        },
        0,
    );
    room.handle_cmd(
        RoomCmd::Input {
            player_id: PlayerId(1),
            seq: 9,
            input: PlayerInput { key_down: true, ..PlayerInput::default() },
        },
        0,
    );
    assert!(room.player_input(0).key_up);
    assert!(!room.player_input(0).key_down);
    assert!(room.begin_tick());
    assert_eq!(room.prepare_player(0), None);
    let state = room.player_state(0);
    assert!(state.key_up);
    assert!(!state.key_down);
    match decode_server_message(&joined_frame(&join(&mut room, 1, "a"))).unwrap() {
        ServerMsg::RoomState { players, .. } => {
            assert_eq!(players[0].state.unwrap().last_input_seq, 10)
        }
        other => panic!("expected RoomState, got {:?}", other),
    }
    room.handle_cmd(
        RoomCmd::Input {
            player_id: PlayerId(1),
            seq: 10,
            input: PlayerInput { key_left: true, ..PlayerInput::default() },
        },
        0,
    );
    assert!(room.player_input(0).key_left);
    let unknown = room.handle_cmd(
        RoomCmd::Input { player_id: PlayerId(99), seq: 1, input: PlayerInput::default() },
        0,
    );
    assert_eq!(unknown.reply, Reply::Done);
}

#[test]
fn leave_swaps_the_last_player_into_the_gap() {
    let mut room = room("r", 8);
    join(&mut room, 1, "a");
    join(&mut room, 2, "b");
    join(&mut room, 3, "c");
    let left = room.handle_cmd(RoomCmd::Leave { player_id: PlayerId(1) }, 400);
    assert_eq!(left.reply, Reply::Done);
    assert_eq!(
        left.outbound,
        vec![Outbound { to: Recipients::All, frame: encode_player_left(1) }]
    );
    assert_eq!(room.player_count(), 2);
    assert_eq!(room.player_state(0).id, 3);
    assert_eq!(room.player_state(1).id, 2);
    assert!(room.contains_player(PlayerId(2)));
    assert!(room.contains_player(PlayerId(3)));
    assert_eq!(room.status(), RoomStatus::Running);
    assert_eq!(room.summary().last_activity_at_ms, 400);
    let again = room.handle_cmd(RoomCmd::Leave { player_id: PlayerId(1) }, 500);
    assert!(again.outbound.is_empty());
    assert_eq!(room.summary().last_activity_at_ms, 400);
}

#[test]
fn the_last_leave_starts_to_close_the_room() {
    let mut room = room("delta", 2);
    join(&mut room, 7, "gus");
    room.handle_cmd(RoomCmd::Leave { player_id: PlayerId(7) }, 0);
    assert_eq!(room.status(), RoomStatus::Closing);
    assert_eq!(room.summary().status.as_str(), "closing");
    assert_eq!(join(&mut room, 8, "hal").reply, Reply::Join(Err(JoinError::RoomClosing)));
    assert!(!room.begin_tick());
    room.close();
    assert_eq!(room.status(), RoomStatus::Closed);
    let refused = room.handle_cmd(RoomCmd::Summary, 0);
    assert_eq!(refused.reply, Reply::Refused);
    assert!(!refused.stop);
    let late = join(&mut room, 8, "hal");
    assert_eq!(late.reply, Reply::Join(Err(JoinError::RoomClosing)));
    assert!(late.outbound.is_empty());
    assert!(!late.stop);
    assert_eq!(room.status(), RoomStatus::Closed);
    assert_eq!(room.player_count(), 0);
}

#[test]
fn kick_tells_the_room_and_the_player() {
    let mut room = room("r", 8);
    join(&mut room, 1, "a");
    join(&mut room, 2, "b");
    let kicked = room.handle_cmd(
        RoomCmd::Kick { player_id: PlayerId(2), reason: "admin_kick".to_string() },
        0,
    );
    assert_eq!(kicked.reply, Reply::Kick(true));
    assert_eq!(
        kicked.outbound,
        vec![
            Outbound { to: Recipients::All, frame: encode_player_left(2) },
            Outbound { to: Recipients::Only(PlayerId(2)), frame: encode_kicked("admin_kick") },
        ]
    );
    assert!(!room.contains_player(PlayerId(2)));
    let missing = room.handle_cmd(
        RoomCmd::Kick { player_id: PlayerId(2), reason: "again".to_string() },
        0,
    );
    assert_eq!(missing.reply, Reply::Kick(false));
    assert!(missing.outbound.is_empty());
}

#[test]
fn rename_and_player_limit() {
    let mut room = room("r", 8);
    join(&mut room, 1, "a");
    join(&mut room, 2, "b");
    room.handle_cmd(RoomCmd::Rename { name: "arena".to_string() }, 700);
    assert_eq!(room.summary().name, "arena");
    assert_eq!(room.summary().last_activity_at_ms, 700);
    assert_eq!(
        room.handle_cmd(RoomCmd::SetMaxPlayers { max_players: 1 }, 800).reply,
        Reply::SetMaxPlayers(Err(RoomError::MaxPlayersLowerThanCurrentPlayers))
    );
    assert_eq!(room.summary().max_players, 8);
    assert_eq!(room.summary().last_activity_at_ms, 700);
    assert_eq!(
        room.handle_cmd(RoomCmd::SetMaxPlayers { max_players: 2 }, 800).reply,
        Reply::SetMaxPlayers(Ok(()))
    );
    assert_eq!(room.summary().max_players, 2);
    assert_eq!(join(&mut room, 3, "c").reply, Reply::Join(Err(JoinError::RoomFull)));
    assert_eq!(
        RoomError::MaxPlayersLowerThanCurrentPlayers.message(),
        "maxPlayers_lower_than_current_players"
    );
    assert_eq!(
        room.handle_cmd(RoomCmd::ContainsPlayer { player_id: PlayerId(2) }, 0).reply,
        Reply::Contains(true)
    );
}

#[test]
fn begin_close_tells_everyone_and_stops_the_loop() {
    let mut room = room("r", 8);
    join(&mut room, 1, "a");
    let closing = room.handle_cmd(RoomCmd::BeginClose { reason: "admin_close".to_string() }, 0);
    assert!(closing.stop);
    assert_eq!(closing.reply, Reply::Done);
    assert_eq!(
        closing.outbound,
        vec![Outbound { to: Recipients::All, frame: encode_room_closed("admin_close") }]
    );
    assert_eq!(room.status(), RoomStatus::Closing);
    assert!(room.contains_player(PlayerId(1)));
}

#[test]
fn status_names_and_ranks() {
    assert_eq!(RoomStatus::Created.as_str(), "created");
    assert_eq!(RoomStatus::Running.as_str(), "running");
    assert_eq!(RoomStatus::Closing.as_str(), "closing");
    assert_eq!(RoomStatus::Closed.as_str(), "closed");
    assert_eq!(RoomStatus::Running.rank(), 0);
    assert_eq!(RoomStatus::Created.rank(), 1);
    assert_eq!(RoomStatus::Closing.rank(), 2);
    assert_eq!(RoomStatus::Closed.rank(), 3);
    assert!(RoomStatus::Closing.is_closing());
    assert!(!RoomStatus::Running.is_closing());
    assert_eq!(Tick(3), Tick(3));
}

#[test]
fn eviction_removes_failed_players_from_the_last() {
    let mut room = room("r", 8);
    for id in 1..=4 {
        join(&mut room, id, "p");
    }
    let out = room.evict(&[PlayerId(2), PlayerId(9), PlayerId(4), PlayerId(2)], 900);
    assert_eq!(
        out,
        vec![
            Outbound { to: Recipients::All, frame: encode_player_left(2) },
            Outbound { to: Recipients::All, frame: encode_player_left(4) },
        ]
    );
    assert_eq!(room.player_count(), 2);
    assert!(room.contains_player(PlayerId(1)));
    assert!(room.contains_player(PlayerId(3)));
    assert_eq!(room.status(), RoomStatus::Running);
    assert!(room.evict(&[], 0).is_empty());
    room.evict(&[PlayerId(1), PlayerId(3)], 0);
    assert_eq!(room.status(), RoomStatus::Closing);
}

#[test]
fn snapshots_go_out_every_second_tick() {
    let mut room = room("solo", 8);
    let first = join(&mut room, 1, "alice");
    assert_eq!(names_in(&joined_frame(&first)), vec!["alice".to_string()]);
    let mut snapshots = 0;
    let mut ticks_seen = Vec::new();
    for tick in 1..=32u64 {
        assert!(room.begin_tick());
        for idx in 0..room.player_count() {
            room.prepare_player(idx);
            room.respawn_player(idx);
        }
        if let Some(frame) = room.finish_tick(&[], &Vec::new(), tick * 16) {
            snapshots += 1;
            match decode_server_message(&frame).unwrap() {
                ServerMsg::Snapshot { tick: t, server_time_ms, players, .. } => {
                    ticks_seen.push(t);
                    assert_eq!(server_time_ms, tick * 16);
                    assert_eq!(players.len(), 1);
                    assert_eq!(players[0].id, 1);
                }
                other => panic!("expected Snapshot, got {:?}", other),
            }
        }
    }
    assert_eq!(snapshots, 16);
    assert_eq!(ticks_seen, (1..=16).map(|k| 2 * k).collect::<Vec<u64>>());
}

#[test]
fn a_tick_fires_weapons_and_carries_events_into_the_snapshot() {
    let mut room = room("r", 8);
    join(&mut room, 1, "a");
    join(&mut room, 2, "b");
    room.handle_cmd(
        RoomCmd::Input {
            player_id: PlayerId(1),
            seq: 1,
            input: PlayerInput { mouse_down: true, ..PlayerInput::default() },
        },
        0,
    );
    assert!(room.begin_tick());
    let order = room.prepare_player(0);
    assert_eq!(
        order,
        Some(FireOrder::Launch { weapon: WeaponId::Rocket, kind: ProjectileKind::Rocket })
    );
    assert_eq!(room.prepare_player(1), None);
    assert_eq!(room.player_state(0).ammo[4], 19);
    assert_eq!(room.player_state(0).fire_cooldown, 40);
    let (projectiles, events, _) = room.parts_mut();
    let id = projectiles.spawn(events, ProjectileKind::Rocket, 1, 2, 3, 4, 5, 6, 1).unwrap();
    assert_eq!(id, 1);
    assert_eq!(room.projectiles().len(), 1);
    assert_eq!(room.events().len(), 2);
    assert_eq!(room.finish_tick(&[], &Vec::new(), 16), None);

    assert!(room.begin_tick());
    assert_eq!(room.prepare_player(0), None);
    let explosions = [Explosion { x: 7, y: 8, kind: ProjectileKind::Rocket, owner_id: 1 }];
    let frame = room.finish_tick(&explosions, &Vec::new(), 32).unwrap();
    match decode_server_message(&frame).unwrap() {
        ServerMsg::Snapshot { tick, players, items, projectiles, events, .. } => {
            assert_eq!(tick, 2);
            assert_eq!(players.len(), 2);
            assert!(items.is_empty());
            assert!(projectiles.is_empty());
            assert_eq!(
                events,
                vec![
                    EffectEventJs::WeaponFired { player_id: 1, weapon_id: 4 },
                    EffectEventJs::ProjectileSpawn {
                        id: 1,
                        kind: "rocket".to_string(),
                        x: 1,
                        y: 2,
                        velocity_x: 5,
                        velocity_y: 6,
                        owner_id: 1,
                    },
                    EffectEventJs::Explosion { x: 7, y: 8, kind: "rocket".to_string() },
                ]
            );
        }
        other => panic!("expected Snapshot, got {:?}", other),
    }
    assert!(room.begin_tick());
    assert_eq!(room.finish_tick(&[], &Vec::new(), 48), None);
    assert!(room.begin_tick());
    match decode_server_message(&room.finish_tick(&[], &Vec::new(), 64).unwrap()).unwrap() {
        ServerMsg::Snapshot { events, .. } => assert!(events.is_empty()),
        other => panic!("expected Snapshot, got {:?}", other),
    }
    assert_eq!(room.events().len(), 0);
    let _ = EffectEvent::Gauntlet { x: 0, y: 0 };
}

#[test]
fn a_tick_runs_the_items() {
    let mut map = simple_map();
    map.items.push(MapItem { kind: ItemKind::Armor50, row: 0, col: 0, active: true, respawn_timer: 0 });
    let mut room =
        RoomTask::new(RoomId::from("r".to_string()), map, vec![spawn_point()], cfg("r", 2), 0);
    join(&mut room, 1, "a");
    assert!(room.begin_tick());
    room.finish_tick(&[], &vec![vec![true]], 16);
    assert_eq!(room.player_state(0).armor, 50);
    assert!(!room.items()[0].active);
    assert_eq!(room.items()[0].respawn_timer, 600);
    assert!(room.begin_tick());
    let frame = room.finish_tick(&[], &vec![vec![true]], 32).unwrap();
    assert_eq!(room.items()[0].respawn_timer, 599);
    match decode_server_message(&frame).unwrap() {
        ServerMsg::Snapshot { items, players, .. } => {
            assert_eq!(items.len(), 1);
            assert!(!items[0].active);
            assert_eq!(items[0].respawn_timer, 599);
            assert_eq!(players[0].armor, 50);
        }
        other => panic!("expected Snapshot, got {:?}", other),
    }
}

#[test]
fn a_dead_player_comes_back_on_a_spawn_point() {
    let mut room = room("r", 2);
    join(&mut room, 1, "a");
    assert!(!room.respawn_player(0));
    let mut state = room.player_state(0);
    state.dead = true;
    state.health = 0;
    state.respawn_timer = 0;
    state.x = 99.0f32.to_bits();
    room.set_player_state(0, state);
    assert!(room.respawn_player(0));
    let back = room.player_state(0);
    assert!(!back.dead);
    assert_eq!(back.health, 100);
    assert_eq!(back.spawn_protection, 120);
    assert_eq!(f32::from_bits(back.x), 10.0);
    assert_eq!(back.prev_y, back.y);
}

#[test]
fn a_state_stays_with_its_player() {
    let mut room = room("r", 2);
    join(&mut room, 5, "a");
    let mut state = PlayerState::new(77);
    state.health = 1;
    room.set_player_state(0, state);
    assert_eq!(room.player_state(0).id, 5);
    assert_eq!(room.player_state(0).health, 1);
}

#[test]
fn the_seed_of_a_room_folds_its_id() {
    assert_eq!(room_seed(""), 0);
    assert_eq!(room_seed("a"), 97);
    assert_eq!(room_seed("ab"), 97 * 31 + 98);
    let long = "z".repeat(64);
    let expected = long.bytes().fold(0u64, |acc, b| acc.wrapping_mul(31).wrapping_add(b as u64));
    assert_eq!(room_seed(&long), expected);
}

#[test]
fn rooms_of_one_id_draw_the_same_spawn_points() {
    let points: Vec<SpawnPoint> =
        (0..16).map(|k| SpawnPoint { cache_x: k, ..spawn_point() }).collect();
    let mut draws: Vec<Vec<i32>> = Vec::new();
    for _ in 0..2 {
        let mut room = RoomTask::new(
            RoomId::from("same".to_string()),
            simple_map(),
            points.clone(),
            cfg("same", 8),
            0,
        );
        for id in 1..=8 {
            join(&mut room, id, "p");
        }
        draws.push((0..8).map(|idx| room.player_state(idx).last_cache_x).collect());
    }
    assert_eq!(draws[0], draws[1]);
    assert!(draws[0].iter().all(|x| (0..16).contains(x)));
}

#[test]
fn the_player_table_stays_consistent() {
    let mut store = PlayerStore::new();
    assert!(store.is_empty());
    for id in [10u64, 20, 30, 40] {
        store.insert(
            PlayerConn {
                id: PlayerId(id),
                username: format!("player{}", id),
                input: PlayerInput::default(),
                last_input_seq: 0,
            },
            PlayerState::new(id),
        );
    }
    assert_eq!(store.len(), 4);
    assert_eq!(store.index_of(PlayerId(30)), Some(2));
    assert!(store.remove(PlayerId(20)));
    assert!(!store.remove(PlayerId(20)));
    assert_eq!(store.len(), 3);
    assert_eq!(store.index_of(PlayerId(40)), Some(1));
    assert_eq!(store.index_of(PlayerId(20)), None);
    assert!(!store.contains(PlayerId(20)));
    let ids: Vec<u64> = store.conns().iter().map(|c| c.id.0).collect();
    assert_eq!(ids, vec![10, 40, 30]);
    let state_ids: Vec<u64> = store.states().iter().map(|s| s.id).collect();
    assert_eq!(state_ids, ids);
    for (idx, id) in ids.iter().enumerate() {
        assert_eq!(store.index_of(PlayerId(*id)), Some(idx));
    }
    assert!(store.remove(PlayerId(30)));
    assert!(store.remove(PlayerId(10)));
    assert!(store.remove(PlayerId(40)));
    assert!(store.is_empty());
}

#[test]
fn frames_find_their_recipients() {
    let mut room = room("r", 8);
    for id in [5, 6, 7] {
        join(&mut room, id, "p");
    }
    assert_eq!(room.recipients(Recipients::All), vec![5, 6, 7]);
    assert_eq!(room.recipients(Recipients::AllExcept(PlayerId(6))), vec![5, 7]);
    assert_eq!(room.recipients(Recipients::AllExcept(PlayerId(9))), vec![5, 6, 7]);
    assert_eq!(room.recipients(Recipients::Only(PlayerId(7))), vec![7]);
    assert_eq!(room.recipients(Recipients::Only(PlayerId(9))), Vec::<u64>::new());
}

#[test]
fn a_closed_room_turns_every_join_away() {
    let mut room = room("omega", 4);
    join(&mut room, 1, "ann");
    join(&mut room, 2, "bob");
    room.close();
    assert_eq!(room.status(), RoomStatus::Closed);
    let before = room.summary();
    let kept = room.player_state(0);
    for (id, name) in [(1u64, "ann2"), (2, "bob"), (9, "new")] {
        let out = join(&mut room, id, name);
        assert_eq!(out.reply, Reply::Join(Err(JoinError::RoomClosing)));
        assert!(out.outbound.is_empty());
        assert!(!out.stop);
    }
    assert_eq!(room.status(), RoomStatus::Closed);
    assert_eq!(room.summary(), before);
    assert_eq!(room.player_count(), 2);
    assert!(!room.contains_player(PlayerId(9)));
    assert_eq!(room.info().players, vec![(1, "ann".to_string()), (2, "bob".to_string())]);
    assert_eq!(room.player_state(0), kept);
    for cmd in [
        RoomCmd::Leave { player_id: PlayerId(1) },
        RoomCmd::Kick { player_id: PlayerId(1), reason: "x".to_string() },
        RoomCmd::Input { player_id: PlayerId(1), seq: 5, input: PlayerInput::default() },
        RoomCmd::Summary,
        RoomCmd::Info,
        RoomCmd::Rename { name: "other".to_string() },
        RoomCmd::SetMaxPlayers { max_players: 8 },
        RoomCmd::BeginClose { reason: "late".to_string() },
        RoomCmd::ContainsPlayer { player_id: PlayerId(1) },
    ] {
        assert!(!cmd.is_join());
        let out = room.handle_cmd(cmd, 999);
        assert_eq!(out.reply, Reply::Refused);
        assert!(out.outbound.is_empty());
        assert!(!out.stop);
    }
    assert!(RoomCmd::Join { player_id: PlayerId(1), username: String::new() }.is_join());
    assert_eq!(room.summary(), before);
    assert_eq!(room.player_count(), 2);
}

#[test]
fn a_closing_room_turns_members_and_strangers_away() {
    let mut room = room("psi", 4);
    join(&mut room, 1, "ann");
    let done = room.handle_cmd(RoomCmd::BeginClose { reason: "bye".to_string() }, 300);
    assert!(done.stop);
    assert_eq!(room.status(), RoomStatus::Closing);
    let before = room.summary();
    for id in [1u64, 2] {
        let out = join(&mut room, id, "again");
        assert_eq!(out.reply, Reply::Join(Err(JoinError::RoomClosing)));
        assert!(out.outbound.is_empty());
        assert!(!out.stop);
    }
    assert_eq!(room.status(), RoomStatus::Closing);
    assert_eq!(room.summary(), before);
    assert_eq!(room.info().players, vec![(1, "ann".to_string())]);
}

#[test]
fn eviction_leaves_the_other_players_as_they_were() {
    let mut room = room("r", 8);
    for id in 1..=5u64 {
        join(&mut room, id, &format!("p{}", id));
        room.handle_cmd(
            RoomCmd::Input {
                player_id: PlayerId(id),
                seq: id * 10,
                input: PlayerInput { key_left: id % 2 == 0, ..PlayerInput::default() },
            },
            0,
        );
        let mut state = room.player_state((id - 1) as usize);
        state.health = 50 + id as i32;
        room.set_player_state((id - 1) as usize, state);
    }
    let before: Vec<(u64, String, PlayerState, PlayerInput)> = room
        .info()
        .players
        .into_iter()
        .enumerate()
        .map(|(i, (id, name))| (id, name, room.player_state(i), room.player_input(i)))
        .collect();
    let out = room.evict(&[PlayerId(1), PlayerId(4)], 900);
    assert_eq!(out.len(), 2);
    let after = room.info().players;
    assert_eq!(after.len(), 3);
    for (id, name, state, input) in before {
        let at = after.iter().position(|(other, _)| *other == id);
        if id == 1 || id == 4 {
            assert_eq!(at, None);
        } else {
            let at = at.unwrap();
            assert_eq!(after[at].1, name);
            assert_eq!(room.player_state(at), state);
            assert_eq!(room.player_input(at), input);
        }
    }
}

#[test]
fn a_player_comes_back_on_the_point_that_was_drawn() {
    let points: Vec<SpawnPoint> = (0..3)
        .map(|k| SpawnPoint {
            x: (100.0f32 * k as f32).to_bits(),
            cache_x: k,
            ..spawn_point()
        })
        .collect();
    let mut dead = PlayerState::new(3);
    dead.dead = true;
    dead.health = -5;
    dead.armor = 10;
    dead.x = 7.0f32.to_bits();
    dead.y = 8.0f32.to_bits();
    for k in 0..3usize {
        let mut state = dead;
        come_back(&mut state, &points, Some(k));
        assert!(!state.dead);
        assert_eq!(state.health, 100);
        assert_eq!(state.armor, 0);
        assert_eq!(state.x, points[k].x);
        assert_eq!(state.prev_x, points[k].x);
        assert_eq!(state.y, points[k].y);
        assert_eq!(state.last_cache_x, k as i32);
        assert_eq!(state.id, 3);
    }
    for drawn in [None, Some(3usize), Some(usize::MAX)] {
        let mut state = dead;
        come_back(&mut state, &points, drawn);
        assert!(!state.dead);
        assert_eq!(state.health, 100);
        assert_eq!(state.x, dead.x);
        assert_eq!(state.y, dead.y);
    }
    let mut state = dead;
    come_back(&mut state, &[], Some(0));
    assert_eq!(state.x, dead.x);
    assert_eq!(state.health, 100);
}

#[test]
fn a_room_never_changes_its_map() {
    let mut map = simple_map();
    map.rows = 2;
    map.cols = 2;
    map.bricks = vec![0, 1, 2, 0];
    map.respawns = vec![(0, 0), (1, 1)];
    map.items.push(MapItem { kind: ItemKind::Quad, row: 0, col: 0, active: true, respawn_timer: 0 });
    let mut expected = map.clone();
    expected.items.clear();
    let mut room = RoomTask::new(
        RoomId::from("fixed".to_string()),
        map,
        vec![spawn_point(), spawn_point()],
        cfg("fixed", 4),
        0,
    );
    assert_eq!(room.map(), &expected);
    join(&mut room, 1, "a");
    join(&mut room, 2, "b");
    room.handle_cmd(RoomCmd::Rename { name: "renamed".to_string() }, 1);
    room.handle_cmd(RoomCmd::SetMaxPlayers { max_players: 2 }, 2);
    for _ in 0..4 {
        assert!(room.begin_tick());
        room.prepare_player(0);
        room.respawn_player(1);
        room.finish_tick(&[], &vec![vec![true, false]], 5);
    }
    room.evict(&[PlayerId(2)], 6);
    room.handle_cmd(RoomCmd::Leave { player_id: PlayerId(1) }, 7);
    room.handle_cmd(RoomCmd::BeginClose { reason: "end".to_string() }, 8);
    room.close();
    assert_eq!(room.map(), &expected);
    assert_eq!(room.items().len(), 1);
}

#[test]
fn a_new_player_goes_to_the_end_of_the_table() {
    let mut store = PlayerStore::new();
    for (n, id) in [7u64, 3, 9].into_iter().enumerate() {
        let before: Vec<(u64, String, PlayerState)> = store
            .conns()
            .iter()
            .zip(store.states())
            .map(|(c, s)| (c.id.0, c.username.clone(), *s))
            .collect();
        let mut state = PlayerState::new(id);
        state.health = 10 + id as i32;
        store.insert(
            PlayerConn {
                id: PlayerId(id),
                username: format!("u{}", id),
                input: PlayerInput::default(),
                last_input_seq: id,
            },
            state,
        );
        assert_eq!(store.len(), n + 1);
        assert_eq!(store.index_of(PlayerId(id)), Some(n));
        assert_eq!(store.conns()[n].id, PlayerId(id));
        assert_eq!(store.conns()[n].last_input_seq, id);
        assert_eq!(store.state(n), state);
        for (at, (other, name, kept)) in before.into_iter().enumerate() {
            assert_eq!(store.index_of(PlayerId(other)), Some(at));
            assert_eq!(store.conns()[at].username, name);
            assert_eq!(store.state(at), kept);
        }
    }
}

#[test]
fn the_table_takes_a_state_as_it_is() {
    let mut store = PlayerStore::new();
    let mut state = PlayerState::new(99);
    state.health = 42;
    store.insert(
        PlayerConn {
            id: PlayerId(5),
            username: "five".to_string(),
            input: PlayerInput::default(),
            last_input_seq: 0,
        },
        state,
    );
    assert_eq!(store.len(), 1);
    assert_eq!(store.index_of(PlayerId(5)), Some(0));
    assert_eq!(store.index_of(PlayerId(99)), None);
    assert_eq!(store.conns()[0].id, PlayerId(5));
    assert_eq!(store.state(0), state);
    let replaced = vec![PlayerState::new(7)];
    store.replace_states(replaced.clone());
    assert_eq!(store.states(), &replaced[..]);
    assert_eq!(store.index_of(PlayerId(5)), Some(0));
}
