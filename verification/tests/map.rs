use arena_core::map::{GameMap, ItemKind, MapItem};
use arena_core::map_text::{parse_map, try_parse_map};
use arena_core::tilemap::{FlatTileMap, TileMap};

#[test]
fn parse_map_ignores_trailing_newline() {
    let map = parse_map("R0\n00\n", "test");
    assert_eq!(map.rows, 2);
    assert_eq!(map.cols, 2);
    assert!(map.is_brick(1, 0));
    assert!(map.is_brick(0, 1));
    assert_eq!(map.respawns, vec![(0, 0)]);
}

#[test]
fn parse_map_reads_bricks_spawns_and_items() {
    let map = parse_map("0 R\r\nHh\n2", "arena");
    assert_eq!(map.name, "arena");
    assert_eq!(map.rows, 3);
    assert_eq!(map.cols, 3);
    assert_eq!(map.bricks, vec![1, 0, 0, 0, 0, 0, 1, 0, 0]);
    assert_eq!(map.respawns, vec![(0, 2)]);
    assert_eq!(
        map.items,
        vec![
            MapItem { kind: ItemKind::Health100, row: 1, col: 0, active: true, respawn_timer: 0 },
            MapItem { kind: ItemKind::Health25, row: 1, col: 1, active: true, respawn_timer: 0 },
        ]
    );
    assert!(map.is_well_formed());
}

#[test]
fn parse_map_of_nothing_is_empty() {
    let map = parse_map("\r\n\n", "void");
    assert_eq!(map.rows, 0);
    assert_eq!(map.cols, 0);
    assert!(map.bricks.is_empty());
    assert!(map.is_brick(0, 0));
    assert!(try_parse_map("", "void").is_some());
}

#[test]
fn parse_map_keeps_inner_empty_lines_and_lone_carriage_returns() {
    let map = parse_map("1\n\n1\r1", "gaps");
    assert_eq!(map.rows, 3);
    assert_eq!(map.cols, 3);
    assert_eq!(map.bricks, vec![1, 0, 0, 0, 0, 0, 1, 0, 1]);
}

#[test]
fn everything_off_the_grid_is_solid() {
    let map = parse_map("  \n  ", "open");
    assert!(!map.is_brick(0, 0));
    assert!(!map.is_brick(1, 1));
    assert!(map.is_brick(-1, 0));
    assert!(map.is_brick(0, -1));
    assert!(map.is_brick(2, 0));
    assert!(map.is_brick(0, 2));
    assert!(map.is_solid(5, 5));
    assert!(!map.is_solid(1, 0));
}

#[test]
fn item_kinds_from_chars_and_respawn_times() {
    let cases = [
        ('H', ItemKind::Health100, 900),
        ('h', ItemKind::Health25, 300),
        ('5', ItemKind::Health5, 300),
        ('6', ItemKind::Health50, 600),
        ('A', ItemKind::Armor100, 900),
        ('a', ItemKind::Armor50, 600),
        ('Q', ItemKind::Quad, 1200),
        ('M', ItemKind::WeaponMachine, 600),
        ('T', ItemKind::WeaponShotgun, 600),
        ('3', ItemKind::WeaponGrenade, 600),
        ('4', ItemKind::WeaponRocket, 600),
    ];
    for (ch, kind, time) in cases {
        assert_eq!(ItemKind::from_char(ch), Some(kind));
        assert_eq!(kind.respawn_time(), time);
    }
    assert_eq!(ItemKind::from_char('R'), None);
    assert_eq!(ItemKind::from_char('0'), None);
}

#[test]
fn take_items_leaves_the_map_without_items() {
    let mut map = parse_map("Q", "q");
    let items = map.take_items();
    assert_eq!(items.len(), 1);
    assert_eq!(items[0].kind, ItemKind::Quad);
    assert!(map.items.is_empty());
    assert_eq!(map.rows, 1);
}

#[test]
fn respawn_at_follows_the_list() {
    let map = GameMap {
        rows: 1,
        cols: 2,
        bricks: vec![0, 0],
        respawns: vec![(0, 0), (0, 1)],
        items: Vec::new(),
        name: "two".to_string(),
    };
    assert_eq!(map.respawn_at(1), Some((0, 1)));
    assert_eq!(map.respawn_at(2), None);
}

#[test]
fn flat_tile_map_answers_like_its_cells() {
    let mut bricks = vec![0_u8; 64];
    bricks[2 * 8 + 3] = 1;
    let mut map = FlatTileMap::new(8, 8, bricks);
    assert!(map.is_well_formed());
    assert_eq!(map.rows(), 8);
    assert_eq!(map.cols(), 8);
    assert!(map.is_solid(3, 2));
    assert!(!map.is_solid(2, 3));
    assert!(map.is_solid(8, 0));
    assert!(map.is_brick_at(3, 2));
    map.bricks_mut()[0] = 7;
    assert!(map.is_solid(0, 0));
    assert_eq!(map.bricks()[0], 7);
    assert!(!FlatTileMap::new(2, 2, vec![0; 3]).is_well_formed());
    assert!(!FlatTileMap::new(-1, 2, vec![]).is_well_formed());
}

fn rows_by_the_standard_library(text: &str) -> Vec<Vec<u8>> {
    text.trim_end_matches(['\r', '\n']).lines().map(|line| line.as_bytes().to_vec()).collect()
}

#[test]
fn rows_are_the_lines_of_the_standard_library() {
    let texts = [
        "",
        "\n",
        "\r",
        "a",
        "a\n",
        "a\r\n",
        "a\n\nb",
        "a\r\n\r\nb\r\n",
        "a\rb\nc",
        "a\r\r\nb",
        "\n\na",
        "\r\na\n",
        "0R\r\n10\r\n\r\n",
        "x\n\r",
        "é0\n2",
        " \t \n0",
    ];
    for text in texts {
        let rows = rows_by_the_standard_library(text);
        let map = parse_map(text, "m");
        assert_eq!(map.rows as usize, rows.len(), "{:?}", text);
        let cols = rows.iter().map(|r| r.len()).max().unwrap_or(0);
        assert_eq!(map.cols as usize, cols, "{:?}", text);
        for (row, line) in rows.iter().enumerate() {
            for col in 0..cols {
                let brick = col < line.len() && matches!(line[col], b'0' | b'1' | b'2');
                assert_eq!(map.bricks[row * cols + col] != 0, brick, "{:?} at {},{}", text, row, col);
            }
        }
    }
}
