use arena_core::decode::{
    decode_client_message, read_i16, read_i64, read_string, read_u16, read_u32, read_u64,
};
use arena_core::decode_server::{decode_event, decode_player_record, decode_server_message};
use arena_core::encode::{
    encode_event, encode_hello, encode_input, encode_join_rejected, encode_join_room,
    encode_kicked, encode_ping, encode_player_joined, encode_player_left, encode_player_record,
    encode_pong, encode_room_closed, encode_room_state, encode_snapshot, encode_welcome,
    kind_u8_to_str, write_event, write_player_record,
};
use arena_core::roundtrip::encode_client_message;
use arena_core::snapshot::SnapshotEncoder;
use arena_core::types::{
    ClientMsg, DecodeError, EffectEvent, EffectEventJs, ItemSnapshot, ItemState, PlayerInfo,
    PlayerSnapshot, ProjectileSnapshot, ProjectileStateJs, ServerMsg,
};
use arena_core::wire::{push_i16, push_i64, push_u16, push_u32, push_u64};

fn sample_player() -> PlayerSnapshot {
    PlayerSnapshot {
        id: 0x0102030405060708,
        x: 64.0f32.to_bits(),
        y: 32.5f32.to_bits(),
        vx: (-1.5f32).to_bits(),
        vy: 0.056f32.to_bits(),
        aim_angle: 1.25f32.to_bits(),
        facing_left: true,
        crouch: false,
        dead: true,
        health: 100,
        armor: 50,
        current_weapon: 4,
        fire_cooldown: 40,
        weapons: [true, false, true, false, true, false, true, false, true],
        ammo: [-1, 100, 10, 5, 20, 10, 30, 50, 10],
        last_input_seq: 77,
        key_left: false,
        key_right: true,
        key_up: false,
        key_down: true,
    }
}

#[test]
fn hello_roundtrip() {
    let encoded = encode_hello("TestUser");
    let decoded = decode_client_message(&encoded).unwrap();
    match decoded {
        ClientMsg::Hello { username } => assert_eq!(username, "TestUser"),
        _ => panic!("expected Hello"),
    }
}

#[test]
fn join_room_roundtrip() {
    let encoded = encode_join_room("room-1", "dm2");
    let decoded = decode_client_message(&encoded).unwrap();
    match decoded {
        ClientMsg::JoinRoom { room_id, map } => {
            assert_eq!(room_id, Some("room-1".to_string()));
            assert_eq!(map, Some("dm2".to_string()));
        }
        _ => panic!("expected JoinRoom"),
    }
}

#[test]
fn input_roundtrip() {
    let encoded = encode_input(42, 1.25f32.to_bits(), true, false, true, false, true, true, 3, -1);
    let decoded = decode_client_message(&encoded).unwrap();
    match decoded {
        ClientMsg::Input {
            seq,
            key_up,
            key_down,
            key_left,
            key_right,
            mouse_down,
            weapon_switch,
            weapon_scroll,
            aim_angle,
            facing_left,
        } => {
            assert_eq!(seq, 42);
            assert!(key_up);
            assert!(!key_down);
            assert!(key_left);
            assert!(!key_right);
            assert!(mouse_down);
            assert_eq!(weapon_switch, 3);
            assert_eq!(weapon_scroll, -1);
            assert!((f32::from_bits(aim_angle) - 1.25).abs() < f32::EPSILON);
            assert!(facing_left);
        }
        _ => panic!("expected Input"),
    }
}

#[test]
fn client_frames_are_byte_exact() {
    assert_eq!(encode_hello("ab"), vec![0x01, 2, b'a', b'b']);
    assert_eq!(encode_join_room("r", "dm"), vec![0x02, 1, 2, b'r', b'd', b'm']);
    assert_eq!(encode_join_room("", ""), vec![0x02, 0, 0]);
    assert_eq!(encode_ping(0x0102), vec![0x04, 2, 1, 0, 0, 0, 0, 0, 0]);
    let input = encode_input(1, 0x3fa00000, true, true, true, true, true, true, -1, 1);
    assert_eq!(
        input,
        vec![0x03, 1, 0, 0, 0, 0, 0, 0, 0, 0x00, 0x00, 0xa0, 0x3f, 0x3f, 0xff, 0x01]
    );
    assert_eq!(input.len(), 16);
    let flags_only_down =
        encode_input(0, 0, false, true, false, false, false, false, 0, 0)[13];
    assert_eq!(flags_only_down, 0x02);
}

#[test]
fn server_frames_are_byte_exact() {
    assert_eq!(encode_welcome(1), vec![0x81, 1, 0, 0, 0, 0, 0, 0, 0]);
    assert_eq!(encode_player_left(258), vec![0x84, 2, 1, 0, 0, 0, 0, 0, 0]);
    assert_eq!(
        encode_player_joined(3, "bo"),
        vec![0x83, 3, 0, 0, 0, 0, 0, 0, 0, 2, b'b', b'o']
    );
    assert_eq!(
        encode_pong(1, 2),
        vec![0x86, 1, 0, 0, 0, 0, 0, 0, 0, 2, 0, 0, 0, 0, 0, 0, 0]
    );
    assert_eq!(encode_join_rejected("no"), vec![0x87, 2, b'n', b'o']);
    assert_eq!(encode_room_closed("x"), vec![0x88, 1, b'x']);
    assert_eq!(encode_kicked(""), vec![0x89, 0]);
}

#[test]
fn wire_primitives_are_little_endian() {
    let mut out = Vec::new();
    push_u16(&mut out, 0x0102);
    push_i16(&mut out, -2);
    push_u32(&mut out, 0x01020304);
    push_u64(&mut out, 0x0102030405060708);
    push_i64(&mut out, -1);
    assert_eq!(
        out,
        vec![
            2, 1, 0xfe, 0xff, 4, 3, 2, 1, 8, 7, 6, 5, 4, 3, 2, 1, 0xff, 0xff, 0xff, 0xff, 0xff,
            0xff, 0xff, 0xff
        ]
    );
    assert_eq!(read_u16(&out, 0), Ok(0x0102));
    assert_eq!(read_i16(&out, 2), Ok(-2));
    assert_eq!(read_u32(&out, 4), Ok(0x01020304));
    assert_eq!(read_u64(&out, 8), Ok(0x0102030405060708));
    assert_eq!(read_i64(&out, 16), Ok(-1));
    assert_eq!(read_i16(&[0x00, 0x80], 0), Ok(i16::MIN));
    assert_eq!(read_i64(&[0, 0, 0, 0, 0, 0, 0, 0x80], 0), Ok(i64::MIN));
    assert_eq!(read_u16(&out, 23), Err(DecodeError::OutOfBounds));
    assert_eq!(read_u64(&out, 17), Err(DecodeError::OutOfBounds));
    assert_eq!(read_u32(&out, usize::MAX), Err(DecodeError::OutOfBounds));
    assert_eq!(read_f32_bits(&out), 0x01020304);
}

fn read_f32_bits(bytes: &[u8]) -> u32 {
    f32::from_le_bytes([bytes[4], bytes[5], bytes[6], bytes[7]]).to_bits()
}

#[test]
fn read_string_reads_utf8_only() {
    assert_eq!(read_string(b"xhey", 1, 3), Ok("hey".to_string()));
    assert_eq!(read_string("é".as_bytes(), 0, 2), Ok("é".to_string()));
    assert_eq!(read_string(b"hey", 1, 3), Err(DecodeError::OutOfBounds));
    assert_eq!(read_string(&[0xff, 0xfe], 0, 2), Err(DecodeError::InvalidUtf8));
    assert_eq!(read_string("é".as_bytes(), 0, 1), Err(DecodeError::InvalidUtf8));
    assert_eq!(read_string(b"", 0, 0), Ok(String::new()));
}

#[test]
fn decode_client_message_names_each_error() {
    assert_eq!(decode_client_message(&[]), Err(DecodeError::Empty));
    assert_eq!(decode_client_message(&[0x7f, 1]), Err(DecodeError::UnknownType(0x7f)));
    assert_eq!(decode_client_message(&[0x81]), Err(DecodeError::UnknownType(0x81)));
    assert_eq!(decode_client_message(&[0x01]), Err(DecodeError::OutOfBounds));
    assert_eq!(decode_client_message(&[0x01, 3, b'a']), Err(DecodeError::OutOfBounds));
    assert_eq!(decode_client_message(&[0x01, 1, 0xff]), Err(DecodeError::InvalidUtf8));
    assert_eq!(decode_client_message(&[0x02, 1]), Err(DecodeError::OutOfBounds));
    assert_eq!(decode_client_message(&[0x02, 1, 1, b'a']), Err(DecodeError::OutOfBounds));
    assert_eq!(decode_client_message(&[0x02, 1, 0, 0xc0]), Err(DecodeError::InvalidUtf8));
    assert_eq!(decode_client_message(&[0x03; 15]), Err(DecodeError::OutOfBounds));
    assert_eq!(decode_client_message(&[0x04, 0, 0]), Err(DecodeError::OutOfBounds));
}

#[test]
fn hello_name_is_limited_to_32_bytes() {
    let long = "x".repeat(40);
    let encoded = encode_hello(&long);
    assert_eq!(encoded.len(), 34);
    assert_eq!(encoded[1], 32);
    assert_eq!(
        decode_client_message(&encoded),
        Ok(ClientMsg::Hello { username: "x".repeat(32) })
    );
    let mut too_long = vec![0x01, 33];
    too_long.extend_from_slice(&[b'a'; 33]);
    assert_eq!(decode_client_message(&too_long), Err(DecodeError::OutOfBounds));
}

#[test]
fn join_room_without_names_means_default() {
    assert_eq!(
        decode_client_message(&encode_join_room("", "")),
        Ok(ClientMsg::JoinRoom { room_id: None, map: None })
    );
    assert_eq!(
        decode_client_message(&encode_join_room("", "dm3")),
        Ok(ClientMsg::JoinRoom { room_id: None, map: Some("dm3".to_string()) })
    );
}

#[test]
fn ping_and_every_client_shape_round_trip() {
    let messages = vec![
        ClientMsg::Hello { username: "alice".to_string() },
        ClientMsg::Hello { username: String::new() },
        ClientMsg::JoinRoom { room_id: Some("lobby".to_string()), map: None },
        ClientMsg::JoinRoom { room_id: None, map: None },
        ClientMsg::Input {
            seq: u64::MAX,
            key_up: false,
            key_down: true,
            key_left: false,
            key_right: true,
            mouse_down: false,
            weapon_switch: -1,
            weapon_scroll: -128,
            aim_angle: (-3.0f32).to_bits(),
            facing_left: false,
        },
        ClientMsg::Input {
            seq: 0,
            key_up: true,
            key_down: false,
            key_left: true,
            key_right: false,
            mouse_down: true,
            weapon_switch: 8,
            weapon_scroll: 127,
            aim_angle: f32::NAN.to_bits(),
            facing_left: true,
        },
        ClientMsg::Ping { client_time_ms: 123456789 },
    ];
    for message in messages {
        let frame = encode_client_message(&message);
        assert_eq!(decode_client_message(&frame), Ok(message));
    }
}

#[test]
fn a_message_that_the_wire_cannot_carry_comes_back_changed() {
    let message = ClientMsg::JoinRoom { room_id: Some(String::new()), map: None };
    assert_eq!(
        decode_client_message(&encode_client_message(&message)),
        Ok(ClientMsg::JoinRoom { room_id: None, map: None })
    );
}

#[test]
fn player_record_layout_is_63_bytes() {
    let mut out = Vec::new();
    encode_player_record(&mut out, &sample_player());
    assert_eq!(out.len(), 63);
    assert_eq!(&out[0..8], &[8, 7, 6, 5, 4, 3, 2, 1]);
    assert_eq!(&out[8..12], &64.0f32.to_le_bytes());
    assert_eq!(&out[24..28], &1.25f32.to_le_bytes());
    assert_eq!(&out[28..30], &[100, 0]);
    assert_eq!(&out[30..32], &[50, 0]);
    assert_eq!(out[32], 4);
    assert_eq!(out[33], 40);
    assert_eq!(&out[34..36], &[0b0101_0101, 0b0000_0001]);
    assert_eq!(&out[36..38], &[0xff, 0xff]);
    assert_eq!(&out[38..40], &[100, 0]);
    assert_eq!(&out[54..62], &[77, 0, 0, 0, 0, 0, 0, 0]);
    assert_eq!(out[62], 0x01 | 0x04 | 0x10 | 0x40);
    let mut again: Vec<u8> = vec![9];
    write_player_record(&mut again, &sample_player());
    assert_eq!(&again[1..], &out[..]);
}

#[test]
fn a_bytes_buffer_takes_the_same_bytes_as_a_vector() {
    let mut vector: Vec<u8> = Vec::new();
    let mut buffer = bytes::BytesMut::new();
    write_player_record(&mut vector, &sample_player());
    write_player_record(&mut buffer, &sample_player());
    for (event, _) in all_events() {
        write_event(&mut vector, &event);
        write_event(&mut buffer, &event);
    }
    arena_core::wire::write_u16(&mut buffer, 0x0102);
    vector.extend_from_slice(&[2, 1]);
    arena_core::wire::BinaryWriter::put_slice(&mut buffer, &[9, 8]);
    arena_core::wire::BinaryWriter::put_u8(&mut buffer, 7);
    vector.extend_from_slice(&[9, 8, 7]);
    assert_eq!(&buffer[..], &vector[..]);
    assert_eq!(buffer.len(), 63 + 148 + 5);
}

#[test]
fn player_record_saturates_when_narrowing() {
    let mut player = sample_player();
    player.health = 40000;
    player.armor = -40000;
    player.fire_cooldown = 300;
    player.ammo[1] = 70000;
    player.ammo[2] = -70000;
    player.current_weapon = 260;
    let mut out = Vec::new();
    encode_player_record(&mut out, &player);
    assert_eq!(&out[28..30], &i16::MAX.to_le_bytes());
    assert_eq!(&out[30..32], &i16::MIN.to_le_bytes());
    assert_eq!(out[32], 4);
    assert_eq!(out[33], 255);
    assert_eq!(&out[38..40], &i16::MAX.to_le_bytes());
    assert_eq!(&out[40..42], &i16::MIN.to_le_bytes());
    player.fire_cooldown = -5;
    let mut low = Vec::new();
    encode_player_record(&mut low, &player);
    assert_eq!(low[33], 0);
}

#[test]
fn player_record_flags_round_trip_bit_exactly() {
    for bits in 0u8..128 {
        let mut player = sample_player();
        player.facing_left = bits & 0x01 != 0;
        player.crouch = bits & 0x02 != 0;
        player.dead = bits & 0x04 != 0;
        player.key_left = bits & 0x08 != 0;
        player.key_right = bits & 0x10 != 0;
        player.key_up = bits & 0x20 != 0;
        player.key_down = bits & 0x40 != 0;
        let mut out = Vec::new();
        encode_player_record(&mut out, &player);
        assert_eq!(out[62], bits);
        let (decoded, used) = decode_player_record(&out, 0).unwrap();
        assert_eq!(used, 63);
        assert_eq!(decoded, player);
    }
}

#[test]
fn player_record_decodes_at_an_offset_or_not_at_all() {
    let mut out = vec![0xaa, 0xbb];
    encode_player_record(&mut out, &sample_player());
    assert_eq!(decode_player_record(&out, 2), Ok((sample_player(), 63)));
    assert_eq!(decode_player_record(&out, 3), Err(DecodeError::OutOfBounds));
    assert_eq!(decode_player_record(&out, usize::MAX), Err(DecodeError::OutOfBounds));
}

fn all_events() -> Vec<(EffectEvent, usize)> {
    vec![
        (EffectEvent::WeaponFired { player_id: 7, weapon_id: 4 }, 10),
        (
            EffectEvent::ProjectileSpawn {
                id: 1,
                kind: 2,
                x: 1.0f32.to_bits(),
                y: 2.0f32.to_bits(),
                velocity_x: 3.0f32.to_bits(),
                velocity_y: 4.0f32.to_bits(),
                owner_id: 9,
            },
            34,
        ),
        (EffectEvent::Rail { start_x: 1, start_y: 2, end_x: 3, end_y: 4 }, 17),
        (EffectEvent::Shaft { start_x: 5, start_y: 6, end_x: 7, end_y: 8 }, 17),
        (EffectEvent::BulletImpact { x: 9, y: 10, radius: 2.5f32.to_bits() }, 13),
        (EffectEvent::Gauntlet { x: 11, y: 12 }, 9),
        (EffectEvent::Explosion { x: 13, y: 14, kind: 1 }, 10),
        (EffectEvent::Damage { attacker_id: 1, target_id: 2, amount: 33, killed: true }, 20),
        (EffectEvent::ProjectileRemove { id: 3, x: 15, y: 16, kind: 3 }, 18),
    ]
}

#[test]
fn each_event_has_its_tag_and_size() {
    for (index, (event, size)) in all_events().into_iter().enumerate() {
        let mut out = Vec::new();
        encode_event(&mut out, &event);
        assert_eq!(out.len(), size);
        assert_eq!(out[0] as usize, index + 1);
        let mut again: Vec<u8> = Vec::new();
        write_event(&mut again, &event);
        assert_eq!(again, out);
    }
    let mut damage = Vec::new();
    encode_event(
        &mut damage,
        &EffectEvent::Damage { attacker_id: 1, target_id: 2, amount: 100000, killed: false },
    );
    assert_eq!(&damage[17..19], &i16::MAX.to_le_bytes());
    assert_eq!(damage[19], 0);
}

#[test]
fn events_decode_to_what_was_encoded() {
    let mut out = Vec::new();
    for (event, _) in all_events() {
        encode_event(&mut out, &event);
    }
    let mut offset = 0;
    let mut decoded = Vec::new();
    while offset < out.len() {
        let (event, used) = decode_event(&out, offset).unwrap();
        decoded.push(event.unwrap());
        offset += used;
    }
    assert_eq!(decoded.len(), 9);
    assert_eq!(decoded[0], EffectEventJs::WeaponFired { player_id: 7, weapon_id: 4 });
    assert_eq!(
        decoded[1],
        EffectEventJs::ProjectileSpawn {
            id: 1,
            kind: "plasma".to_string(),
            x: 1.0f32.to_bits(),
            y: 2.0f32.to_bits(),
            velocity_x: 3.0f32.to_bits(),
            velocity_y: 4.0f32.to_bits(),
            owner_id: 9,
        }
    );
    assert_eq!(decoded[6], EffectEventJs::Explosion { x: 13, y: 14, kind: "grenade".to_string() });
    assert_eq!(
        decoded[7],
        EffectEventJs::Damage { attacker_id: 1, target_id: 2, amount: 33, killed: true }
    );
    assert_eq!(
        decoded[8],
        EffectEventJs::ProjectileRemove { id: 3, x: 15, y: 16, kind: "bfg".to_string() }
    );
    assert_eq!(decode_event(&out, out.len()), Err(DecodeError::OutOfBounds));
    assert_eq!(decode_event(&[0x01, 0, 0], 0), Err(DecodeError::OutOfBounds));
    assert_eq!(decode_event(&[0x55, 0, 0], 0), Ok((None, 1)));
}

#[test]
fn kind_names() {
    assert_eq!(kind_u8_to_str(0), "rocket");
    assert_eq!(kind_u8_to_str(1), "grenade");
    assert_eq!(kind_u8_to_str(2), "plasma");
    assert_eq!(kind_u8_to_str(3), "bfg");
    assert_eq!(kind_u8_to_str(200), "rocket");
}

fn sample_snapshot_parts() -> (Vec<PlayerSnapshot>, Vec<ItemSnapshot>, Vec<ProjectileSnapshot>, Vec<EffectEvent>)
{
    let players = vec![sample_player(), PlayerSnapshot { id: 2, ..sample_player() }];
    let items = vec![
        ItemSnapshot { active: true, respawn_timer: 0 },
        ItemSnapshot { active: false, respawn_timer: 300 },
        ItemSnapshot { active: false, respawn_timer: -1 },
    ];
    let projectiles = vec![ProjectileSnapshot {
        id: 5,
        x: 1,
        y: 2,
        velocity_x: 3,
        velocity_y: 4,
        owner_id: -6,
        kind: 1,
    }];
    let events: Vec<EffectEvent> = all_events().into_iter().map(|(e, _)| e).collect();
    (players, items, projectiles, events)
}

#[test]
fn snapshot_frame_length_is_header_plus_records() {
    let (players, items, projectiles, events) = sample_snapshot_parts();
    let frame = encode_snapshot(9, 1000, &players, &items, &projectiles, &events);
    let event_bytes: usize = all_events().iter().map(|(_, size)| size).sum();
    assert_eq!(frame.len(), 22 + 63 * 2 + 3 * 3 + 33 + event_bytes);
    assert_eq!(frame[0], 0x85);
    assert_eq!(&frame[1..9], &9u64.to_le_bytes());
    assert_eq!(&frame[9..17], &1000u64.to_le_bytes());
    assert_eq!(frame[17], 2);
    assert_eq!(frame[18], 3);
    assert_eq!(&frame[19..21], &[1, 0]);
    assert_eq!(frame[21], 9);
    assert_eq!(&frame[22 + 126..22 + 126 + 3], &[1, 0, 0]);
    assert_eq!(&frame[22 + 126 + 3..22 + 126 + 6], &[0, 0x2c, 0x01]);
    let empty = encode_snapshot(0, 0, &[], &[], &[], &[]);
    assert_eq!(empty.len(), 22);
}

#[test]
fn snapshot_round_trips_through_the_server_decoder() {
    let (players, items, projectiles, events) = sample_snapshot_parts();
    let frame = encode_snapshot(9, 1000, &players, &items, &projectiles, &events);
    match decode_server_message(&frame).unwrap() {
        ServerMsg::Snapshot {
            tick,
            server_time_ms,
            players: got_players,
            items: got_items,
            projectiles: got_projectiles,
            events: got_events,
        } => {
            assert_eq!(tick, 9);
            assert_eq!(server_time_ms, 1000);
            assert_eq!(got_players, players);
            assert_eq!(
                got_items,
                vec![
                    ItemState { active: true, respawn_timer: 0 },
                    ItemState { active: false, respawn_timer: 300 },
                    ItemState { active: false, respawn_timer: -1 },
                ]
            );
            assert_eq!(
                got_projectiles,
                vec![ProjectileStateJs {
                    id: 5,
                    x: 1,
                    y: 2,
                    velocity_x: 3,
                    velocity_y: 4,
                    owner_id: -6,
                    kind: "grenade".to_string(),
                }]
            );
            assert_eq!(got_events.len(), 9);
            assert_eq!(got_events[5], EffectEventJs::Gauntlet { x: 11, y: 12 });
        }
        other => panic!("expected Snapshot, got {:?}", other),
    }
    assert_eq!(decode_server_message(&frame[..frame.len() - 1]), Err(DecodeError::OutOfBounds));
    assert_eq!(decode_server_message(&frame[..21]), Err(DecodeError::OutOfBounds));
}

#[test]
fn snapshot_decoder_passes_over_unknown_events() {
    let mut frame = encode_snapshot(1, 2, &[], &[], &[], &[]);
    frame[21] = 2;
    frame.push(0x77);
    frame.extend_from_slice(&[0x06, 1, 0, 0, 0, 2, 0, 0, 0]);
    match decode_server_message(&frame).unwrap() {
        ServerMsg::Snapshot { events, .. } => {
            assert_eq!(events, vec![EffectEventJs::Gauntlet { x: 1, y: 2 }]);
        }
        other => panic!("expected Snapshot, got {:?}", other),
    }
}

#[test]
fn room_state_round_trips_through_the_server_decoder() {
    let players = vec![
        ("alice".to_string(), sample_player()),
        ("bob".to_string(), PlayerSnapshot { id: 2, ..sample_player() }),
    ];
    let frame = encode_room_state("room-1", "dm2", &players);
    assert_eq!(&frame[0..4], &[0x82, 6, 3, 2]);
    assert_eq!(frame.len(), 4 + 6 + 3 + (1 + 5 + 63) + (1 + 3 + 63));
    assert_eq!(
        decode_server_message(&frame),
        Ok(ServerMsg::RoomState {
            room_id: "room-1".to_string(),
            map: "dm2".to_string(),
            players: vec![
                PlayerInfo {
                    id: 0x0102030405060708,
                    username: "alice".to_string(),
                    model: None,
                    skin: None,
                    state: Some(sample_player()),
                },
                PlayerInfo {
                    id: 2,
                    username: "bob".to_string(),
                    model: None,
                    skin: None,
                    state: Some(PlayerSnapshot { id: 2, ..sample_player() }),
                },
            ],
        })
    );
    assert_eq!(decode_server_message(&frame[..frame.len() - 1]), Err(DecodeError::OutOfBounds));
    assert_eq!(decode_server_message(&[0x82, 1, 0]), Err(DecodeError::OutOfBounds));
}

#[test]
fn small_server_frames_round_trip() {
    assert_eq!(
        decode_server_message(&encode_welcome(42)),
        Ok(ServerMsg::Welcome { player_id: 42 })
    );
    assert_eq!(
        decode_server_message(&encode_player_left(43)),
        Ok(ServerMsg::PlayerLeft { player_id: 43 })
    );
    assert_eq!(
        decode_server_message(&encode_player_joined(44, "zed")),
        Ok(ServerMsg::PlayerJoined {
            player: PlayerInfo {
                id: 44,
                username: "zed".to_string(),
                model: None,
                skin: None,
                state: None,
            },
        })
    );
    assert_eq!(
        decode_server_message(&encode_pong(5, 6)),
        Ok(ServerMsg::Pong { client_time_ms: 5, server_time_ms: 6 })
    );
    assert_eq!(
        decode_server_message(&encode_join_rejected("room_full")),
        Ok(ServerMsg::JoinRejected { reason: "room_full".to_string() })
    );
    assert_eq!(
        decode_server_message(&encode_room_closed("admin_close")),
        Ok(ServerMsg::RoomClosed { reason: "admin_close".to_string() })
    );
    assert_eq!(
        decode_server_message(&encode_kicked("admin_kick")),
        Ok(ServerMsg::Kicked { reason: "admin_kick".to_string() })
    );
    assert_eq!(decode_server_message(&[]), Err(DecodeError::Empty));
    assert_eq!(decode_server_message(&[0x01, 0]), Err(DecodeError::UnknownType(0x01)));
    assert_eq!(decode_server_message(&[0x81, 0]), Err(DecodeError::OutOfBounds));
    assert_eq!(decode_server_message(&[0x87]), Err(DecodeError::OutOfBounds));
    assert_eq!(decode_server_message(&[0x89, 1, 0xff]), Err(DecodeError::InvalidUtf8));
}

#[test]
fn snapshot_ring_hands_out_eight_buffers_in_turn() {
    let (players, items, projectiles, events) = sample_snapshot_parts();
    let mut encoder = SnapshotEncoder::new();
    let mut frames: Vec<Vec<u8>> = Vec::new();
    assert_eq!(encoder.next_slot(), 0);
    for tick in 0..20u64 {
        assert_eq!(encoder.next_slot(), (tick % 8) as usize);
        let frame = encoder.encode_snapshot(tick, tick * 16, &players, &items, &projectiles, &events);
        assert_eq!(
            frame,
            &encode_snapshot(tick, tick * 16, &players, &items, &projectiles, &events)[..]
        );
        frames.push(frame.to_vec());
    }
    assert_ne!(frames[0], frames[8]);
    let mut fresh = SnapshotEncoder::default();
    assert_eq!(fresh.encode_snapshot(1, 2, &[], &[], &[], &[]).len(), 22);
}

#[test]
fn decode_errors_in_words() {
    assert_eq!(DecodeError::Empty.message(), "empty buffer");
    assert_eq!(DecodeError::UnknownType(0x7f).message(), "unknown message type: 0x7f");
    assert_eq!(DecodeError::UnknownType(5).message(), "unknown message type: 0x5");
    assert_eq!(DecodeError::UnknownType(0xa0).message(), "unknown message type: 0xa0");
    assert_eq!(DecodeError::OutOfBounds.message(), "buffer too short");
    assert_eq!(DecodeError::InvalidUtf8.message(), "invalid UTF-8");
}
