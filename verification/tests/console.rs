use arena_core::console::{parse_admin_command, parse_number, white_space, AdminCommand};

fn chars(s: &str) -> Vec<char> {
    s.chars().collect()
}

#[test]
fn lines_that_are_no_rooms_commands_are_passed_over() {
    assert_eq!(parse_admin_command(""), AdminCommand::NotForRooms);
    assert_eq!(parse_admin_command("help"), AdminCommand::NotForRooms);
    assert_eq!(parse_admin_command(" rooms list"), AdminCommand::NotForRooms);
    assert_eq!(parse_admin_command("room list"), AdminCommand::NotForRooms);
    assert_eq!(parse_admin_command("rooms"), AdminCommand::Usage);
    assert_eq!(parse_admin_command("rooms   "), AdminCommand::Usage);
    assert_eq!(parse_admin_command("roomsx list"), AdminCommand::List);
}

#[test]
fn each_rooms_command_is_read() {
    assert_eq!(parse_admin_command("rooms list"), AdminCommand::List);
    assert_eq!(parse_admin_command("rooms\tlist\u{a0}extra"), AdminCommand::List);
    assert_eq!(
        parse_admin_command("rooms create duel"),
        AdminCommand::Create {
            name: "duel".to_string(),
            max_players: 8,
            map_id: "dm2".to_string(),
            mode: "deathmatch".to_string(),
        }
    );
    assert_eq!(
        parse_admin_command("rooms create duel 2 dm7 ctf ignored"),
        AdminCommand::Create {
            name: "duel".to_string(),
            max_players: 2,
            map_id: "dm7".to_string(),
            mode: "ctf".to_string(),
        }
    );
    assert_eq!(
        parse_admin_command("rooms create duel many dm7"),
        AdminCommand::Create {
            name: "duel".to_string(),
            max_players: 8,
            map_id: "dm7".to_string(),
            mode: "deathmatch".to_string(),
        }
    );
    assert_eq!(
        parse_admin_command("rooms close  lobby "),
        AdminCommand::Close { room_ref: "lobby".to_string(), reason: "admin_close".to_string() }
    );
    assert_eq!(
        parse_admin_command("rooms close lobby maintenance tonight"),
        AdminCommand::Close { room_ref: "lobby".to_string(), reason: "maintenance".to_string() }
    );
    assert_eq!(
        parse_admin_command("rooms info lobby"),
        AdminCommand::Info { room_ref: "lobby".to_string() }
    );
    assert_eq!(
        parse_admin_command("rooms set lobby maxPlayers 4"),
        AdminCommand::SetMaxPlayers { room_ref: "lobby".to_string(), new_limit: Some(4) }
    );
    assert_eq!(
        parse_admin_command("rooms set lobby maxPlayers four"),
        AdminCommand::SetMaxPlayers { room_ref: "lobby".to_string(), new_limit: None }
    );
    assert_eq!(parse_admin_command("rooms set lobby maxplayers 4"), AdminCommand::Unknown);
    assert_eq!(
        parse_admin_command("rooms rename lobby arena"),
        AdminCommand::Rename { room_ref: "lobby".to_string(), new_name: "arena".to_string() }
    );
    assert_eq!(
        parse_admin_command("rooms kick lobby 12"),
        AdminCommand::Kick { room_ref: "lobby".to_string(), player_id: Some(12) }
    );
    assert_eq!(
        parse_admin_command("rooms kick lobby -12"),
        AdminCommand::Kick { room_ref: "lobby".to_string(), player_id: None }
    );
    assert_eq!(
        parse_admin_command("rooms move 7 arena"),
        AdminCommand::Move { player_id: Some(7), target_ref: "arena".to_string() }
    );
    assert_eq!(
        parse_admin_command("rooms move seven arena"),
        AdminCommand::Move { player_id: None, target_ref: "arena".to_string() }
    );
}

#[test]
fn commands_with_too_few_words_are_unknown() {
    for line in [
        "rooms create",
        "rooms close",
        "rooms info",
        "rooms set lobby maxPlayers",
        "rooms rename lobby",
        "rooms kick lobby",
        "rooms move 7",
        "rooms destroy lobby",
    ] {
        assert_eq!(parse_admin_command(line), AdminCommand::Unknown, "{}", line);
    }
}

#[test]
fn numbers_are_decimal_digits_with_or_without_a_plus() {
    assert_eq!(parse_number(&chars("0"), u64::MAX), Some(0));
    assert_eq!(parse_number(&chars("007"), u64::MAX), Some(7));
    assert_eq!(parse_number(&chars("+42"), u64::MAX), Some(42));
    assert_eq!(parse_number(&chars("18446744073709551615"), u64::MAX), Some(u64::MAX));
    assert_eq!(parse_number(&chars("18446744073709551616"), u64::MAX), None);
    assert_eq!(parse_number(&chars("99999999999999999999999"), u64::MAX), None);
    assert_eq!(parse_number(&chars("256"), 255), None);
    assert_eq!(parse_number(&chars("255"), 255), Some(255));
    assert_eq!(parse_number(&chars(""), u64::MAX), None);
    assert_eq!(parse_number(&chars("+"), u64::MAX), None);
    assert_eq!(parse_number(&chars("-1"), u64::MAX), None);
    assert_eq!(parse_number(&chars("1+"), u64::MAX), None);
    assert_eq!(parse_number(&chars("++1"), u64::MAX), None);
    assert_eq!(parse_number(&chars("12a"), u64::MAX), None);
    assert_eq!(parse_number(&chars("１"), u64::MAX), None);
}

#[test]
fn white_space_is_what_the_standard_library_says() {
    for code in 0u32..0x3100 {
        if let Some(c) = char::from_u32(code) {
            assert_eq!(white_space(c), c.is_whitespace(), "U+{:04X}", code);
        }
    }
    assert!(!white_space('\u{feff}'));
}
