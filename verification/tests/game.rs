
use arena_core::game::{
    absorb_with_armor, apply_input_to_state, apply_item_effect, can_fire, fire_rate, give_weapon,
    pickup_item, process_item_pickups, projectile_kind_id, projectile_kind_id_str,
    reset_for_respawn, respawn_if_ready_with_rng, take_hit, takes_damage, try_fire, Explosion,
    FireOrder, IdGen, Projectile, ProjectileKind, Projectiles, RespawnOutcome, WeaponId,
};
use arena_core::map::{GameMap, ItemKind, MapItem};
use arena_core::player::{JumpImpulse, PlayerState};
use arena_core::room::PlayerInput;
use arena_core::trusted::EventVec;
use arena_core::types::EffectEvent;
use rand::SeedableRng;
use rand_chacha::ChaCha8Rng;

fn idle_input() -> PlayerInput {
    PlayerInput::default()
}

fn item(kind: ItemKind, active: bool, respawn_timer: i32) -> MapItem {
    MapItem { kind, row: 0, col: 0, active, respawn_timer }
}

#[test]
fn weapon_ids_run_from_0_to_8() {
    let all = [
        WeaponId::Gauntlet,
        WeaponId::Machine,
        WeaponId::Shotgun,
        WeaponId::Grenade,
        WeaponId::Rocket,
        WeaponId::Rail,
        WeaponId::Plasma,
        WeaponId::Shaft,
        WeaponId::Bfg,
    ];
    for (id, weapon) in all.iter().enumerate() {
        assert_eq!(WeaponId::from_i32(id as i32), Some(*weapon));
        assert_eq!(weapon.index(), id);
    }
    assert_eq!(WeaponId::from_i32(9), None);
    assert_eq!(WeaponId::from_i32(-1), None);
    let rates: Vec<i32> = all.iter().map(|w| fire_rate(*w)).collect();
    assert_eq!(rates, vec![20, 5, 50, 40, 40, 75, 5, 3, 10]);
}

#[test]
fn projectile_kinds_have_wire_ids() {
    assert_eq!(ProjectileKind::from_u8(0), Some(ProjectileKind::Rocket));
    assert_eq!(ProjectileKind::from_u8(1), Some(ProjectileKind::Grenade));
    assert_eq!(ProjectileKind::from_u8(2), Some(ProjectileKind::Plasma));
    assert_eq!(ProjectileKind::from_u8(3), Some(ProjectileKind::Bfg));
    assert_eq!(ProjectileKind::from_u8(4), None);
    assert_eq!(ProjectileKind::Bfg.as_u8(), 3);
    assert_eq!(projectile_kind_id(ProjectileKind::Plasma), 2);
    assert_eq!(projectile_kind_id_str("grenade"), 1);
    assert_eq!(projectile_kind_id_str("plasma"), 2);
    assert_eq!(projectile_kind_id_str("bfg"), 3);
    assert_eq!(projectile_kind_id_str("rocket"), 0);
    assert_eq!(projectile_kind_id_str("anything"), 0);
    assert_eq!(ProjectileKind::Plasma.direct_hit_weapon(), Some(WeaponId::Plasma));
    assert_eq!(ProjectileKind::Rocket.direct_hit_weapon(), None);
}

#[test]
fn a_new_player_has_the_default_loadout() {
    let p = PlayerState::new(9);
    assert_eq!(p.id, 9);
    assert_eq!(p.health, 100);
    assert_eq!(p.armor, 0);
    assert_eq!(p.current_weapon, 4);
    assert_eq!(p.weapons, [true; 9]);
    assert_eq!(p.ammo, [-1, 100, 10, 5, 20, 10, 30, 50, 10]);
    assert_eq!(p.last_cache_x, i32::MIN);
    assert_eq!(f32::from_bits(p.x), 0.0);
    assert!(!p.dead);
}

#[test]
fn update_runs_the_counters() {
    let mut p = PlayerState::new(1);
    p.fire_cooldown = 2;
    p.spawn_protection = 1;
    p.respawn_timer = 5;
    p.quad_damage = true;
    p.quad_timer = 2;
    p.update();
    assert_eq!(p.fire_cooldown, 1);
    assert_eq!(p.spawn_protection, 0);
    assert_eq!(p.respawn_timer, 5);
    assert!(p.quad_damage);
    assert_eq!(p.quad_timer, 1);
    p.dead = true;
    p.update();
    assert_eq!(p.fire_cooldown, 0);
    assert_eq!(p.spawn_protection, 0);
    assert_eq!(p.respawn_timer, 4);
    assert!(!p.quad_damage);
    assert_eq!(p.quad_timer, 0);
    p.update();
    assert_eq!(p.fire_cooldown, 0);
    assert_eq!(p.quad_timer, 0);
}

#[test]
fn crouch_follows_keys_ground_and_ceiling() {
    let mut p = PlayerState::new(1);
    p.key_down = true;
    p.cache_on_ground = true;
    p.handle_crouch();
    assert!(p.crouch);
    p.cache_on_ground = false;
    p.handle_crouch();
    assert!(!p.crouch);
    p.cache_brick_crouch_on_head = true;
    p.handle_crouch();
    assert!(p.crouch);
    p.key_up = true;
    p.handle_crouch();
    assert!(!p.crouch);
    p.cache_on_ground = true;
    p.handle_crouch();
    assert!(p.crouch);
    assert!(p.is_on_ground());
    assert!(!p.is_brick_on_head());
    assert!(p.is_brick_crouch_on_head());
}

#[test]
fn can_fire_needs_life_rest_and_ammo() {
    let mut p = PlayerState::new(1);
    assert!(can_fire(&p));
    p.fire_cooldown = 1;
    assert!(!can_fire(&p));
    p.fire_cooldown = 0;
    p.dead = true;
    assert!(!can_fire(&p));
    p.dead = false;
    p.ammo[4] = 0;
    assert!(!can_fire(&p));
    p.current_weapon = 0;
    assert!(can_fire(&p));
}

#[test]
fn try_fire_spends_a_round_and_orders_the_shot() {
    let mut events = EventVec::new();
    let mut p = PlayerState::new(3);
    let order = try_fire(&mut p, &mut events);
    assert_eq!(
        order,
        Some(FireOrder::Launch { weapon: WeaponId::Rocket, kind: ProjectileKind::Rocket })
    );
    assert_eq!(p.ammo[4], 19);
    assert_eq!(p.fire_cooldown, 40);
    assert_eq!(events.as_slice(), &[EffectEvent::WeaponFired { player_id: 3, weapon_id: 4 }]);
    assert_eq!(try_fire(&mut p, &mut events), None);
    assert_eq!(events.len(), 1);
    assert_eq!(p.ammo[4], 19);

    let orders: Vec<Option<FireOrder>> = (0..9)
        .map(|w| {
            let mut q = PlayerState::new(1);
            q.current_weapon = w;
            try_fire(&mut q, &mut events)
        })
        .collect();
    assert_eq!(orders[0], Some(FireOrder::Melee { weapon: WeaponId::Gauntlet }));
    assert_eq!(orders[1], Some(FireOrder::Trace { weapon: WeaponId::Machine }));
    assert_eq!(orders[2], Some(FireOrder::Pellets { weapon: WeaponId::Shotgun, count: 11 }));
    assert_eq!(
        orders[3],
        Some(FireOrder::Launch { weapon: WeaponId::Grenade, kind: ProjectileKind::Grenade })
    );
    assert_eq!(orders[5], Some(FireOrder::Trace { weapon: WeaponId::Rail }));
    assert_eq!(
        orders[6],
        Some(FireOrder::Launch { weapon: WeaponId::Plasma, kind: ProjectileKind::Plasma })
    );
    assert_eq!(orders[7], Some(FireOrder::Trace { weapon: WeaponId::Shaft }));
    assert_eq!(
        orders[8],
        Some(FireOrder::Launch { weapon: WeaponId::Bfg, kind: ProjectileKind::Bfg })
    );
    assert_eq!(events.len(), 10);

    let mut gauntlet = PlayerState::new(1);
    gauntlet.current_weapon = 0;
    try_fire(&mut gauntlet, &mut events);
    assert_eq!(gauntlet.ammo[0], -1);
    assert_eq!(gauntlet.fire_cooldown, 20);
}

#[test]
fn event_buffer_keeps_order() {
    let mut a = EventVec::new();
    let mut b = EventVec::new();
    a.push(EffectEvent::Gauntlet { x: 1, y: 1 });
    b.push(EffectEvent::Gauntlet { x: 2, y: 2 });
    b.push(EffectEvent::Gauntlet { x: 3, y: 3 });
    a.append(&mut b);
    assert_eq!(
        a.as_slice(),
        &[
            EffectEvent::Gauntlet { x: 1, y: 1 },
            EffectEvent::Gauntlet { x: 2, y: 2 },
            EffectEvent::Gauntlet { x: 3, y: 3 },
        ]
    );
    assert_eq!(b.len(), 0);
    a.clear();
    assert_eq!(a.len(), 0);
}

#[test]
fn projectile_ids_are_strictly_increasing() {
    let mut events = EventVec::new();
    let mut set = Projectiles::new();
    let mut ids = Vec::new();
    for owner in 0..5u64 {
        ids.push(set.spawn(&mut events, ProjectileKind::Rocket, 1, 2, 3, 4, 5, 6, owner).unwrap());
    }
    assert_eq!(ids, vec![1, 2, 3, 4, 5]);
    assert_eq!(set.len(), 5);
    assert_eq!(
        set.get(0),
        Projectile {
            id: 1,
            kind: ProjectileKind::Rocket,
            x: 1,
            y: 2,
            prev_x: 3,
            prev_y: 4,
            velocity_x: 5,
            velocity_y: 6,
            owner_id: 0,
            age: 0,
            active: true,
        }
    );
    assert_eq!(
        events.as_slice()[4],
        EffectEvent::ProjectileSpawn {
            id: 5,
            kind: 0,
            x: 1,
            y: 2,
            velocity_x: 5,
            velocity_y: 6,
            owner_id: 4,
        }
    );
    let mut second = set.get(1);
    second.active = false;
    second.id = 99;
    set.set(1, second);
    assert_eq!(set.get(1).id, 2);
    let mut fourth = set.get(3);
    let explosion = fourth.explode();
    set.set(3, fourth);
    assert_eq!(explosion, Explosion { x: 1, y: 2, kind: ProjectileKind::Rocket, owner_id: 3 });
    set.remove_inactive();
    let left: Vec<u64> = set.as_slice().iter().map(|p| p.id).collect();
    assert_eq!(left, vec![1, 3, 5]);
    assert_eq!(set.spawn(&mut events, ProjectileKind::Bfg, 0, 0, 0, 0, 0, 0, 1), Some(6));
    let ids: Vec<u64> = set.as_slice().iter().map(|p| p.id).collect();
    assert!(ids.windows(2).all(|w| w[0] < w[1]));
}

#[test]
fn id_source_stops_at_the_last_id() {
    let mut ids = IdGen::default();
    assert_eq!(ids.next_id(), Some(1));
    assert_eq!(ids.next_id(), Some(2));
    let mut last = IdGen { last: u64::MAX - 1 };
    assert_eq!(last.next_id(), Some(u64::MAX));
    assert_eq!(last.next_id(), None);
    assert_eq!(last.last, u64::MAX);
}

#[test]
fn projectile_grace_and_fuse() {
    let mut rocket = Projectile::new(1, ProjectileKind::Rocket, 0, 0, 0, 0, 7);
    assert!(!rocket.can_hit(7));
    assert!(rocket.can_hit(8));
    for _ in 0..8 {
        rocket.begin_step();
    }
    assert_eq!(rocket.age, 8);
    assert!(rocket.can_hit(7));
    assert!(!rocket.fuse_expired());
    let mut grenade = Projectile::new(2, ProjectileKind::Grenade, 0, 0, 0, 0, 7);
    grenade.age = 11;
    assert!(!grenade.can_hit(8));
    grenade.age = 12;
    assert!(grenade.can_hit(8));
    assert!(grenade.can_hit(7));
    grenade.age = 100;
    assert!(!grenade.fuse_expired());
    grenade.age = 101;
    assert!(grenade.fuse_expired());
    grenade.x = 5;
    grenade.begin_step();
    assert_eq!(grenade.prev_x, 5);
}

#[test]
fn armor_takes_its_share_and_no_more() {
    let mut p = PlayerState::new(1);
    assert_eq!(absorb_with_armor(&mut p, 30), 0);
    p.armor = 50;
    assert_eq!(absorb_with_armor(&mut p, 30), 30);
    assert_eq!(p.armor, 20);
    assert_eq!(absorb_with_armor(&mut p, 67), 20);
    assert_eq!(p.armor, 0);
}

#[test]
fn a_hit_takes_health_and_may_kill() {
    let mut events = EventVec::new();
    let mut p = PlayerState::new(2);
    assert!(takes_damage(&p));
    assert!(!take_hit(&mut p, 1, 33, &mut events));
    assert_eq!(p.health, 67);
    assert!(!p.dead);
    assert!(!take_hit(&mut p, 1, 0, &mut events));
    assert_eq!(events.len(), 1);
    assert!(take_hit(&mut p, 1, 67, &mut events));
    assert_eq!(p.health, 0);
    assert!(p.dead);
    assert_eq!(p.respawn_timer, 180);
    assert!(!takes_damage(&p));
    assert_eq!(
        events.as_slice(),
        &[
            EffectEvent::Damage { attacker_id: 1, target_id: 2, amount: 33, killed: false },
            EffectEvent::Damage { attacker_id: 1, target_id: 2, amount: 67, killed: true },
        ]
    );
    let mut shielded = PlayerState::new(3);
    shielded.spawn_protection = 5;
    assert!(!takes_damage(&shielded));
}

#[test]
fn items_give_what_they_hold() {
    let mut p = PlayerState::new(1);
    p.health = 60;
    apply_item_effect(&mut p, ItemKind::Health5);
    assert_eq!(p.health, 65);
    apply_item_effect(&mut p, ItemKind::Health25);
    assert_eq!(p.health, 90);
    apply_item_effect(&mut p, ItemKind::Health50);
    assert_eq!(p.health, 100);
    apply_item_effect(&mut p, ItemKind::Health100);
    assert_eq!(p.health, 200);
    apply_item_effect(&mut p, ItemKind::Health100);
    assert_eq!(p.health, 200);
    apply_item_effect(&mut p, ItemKind::Health5);
    assert_eq!(p.health, 100);
    apply_item_effect(&mut p, ItemKind::Armor50);
    assert_eq!(p.armor, 50);
    apply_item_effect(&mut p, ItemKind::Armor100);
    assert_eq!(p.armor, 150);
    apply_item_effect(&mut p, ItemKind::Armor100);
    assert_eq!(p.armor, 200);
    apply_item_effect(&mut p, ItemKind::Quad);
    assert!(p.quad_damage);
    assert_eq!(p.quad_timer, 900);
    p.weapons = [false; 9];
    apply_item_effect(&mut p, ItemKind::WeaponMachine);
    apply_item_effect(&mut p, ItemKind::WeaponShotgun);
    apply_item_effect(&mut p, ItemKind::WeaponGrenade);
    apply_item_effect(&mut p, ItemKind::WeaponRocket);
    assert_eq!(p.weapons, [false, true, true, true, true, false, false, false, false]);
    assert_eq!(p.ammo, [-1, 150, 20, 10, 25, 10, 30, 50, 10]);
    give_weapon(&mut p, WeaponId::Gauntlet, 5);
    assert_eq!(p.ammo[0], -1);
    assert!(p.weapons[0]);
    p.ammo[5] = i32::MAX - 1;
    give_weapon(&mut p, WeaponId::Rail, 5);
    assert_eq!(p.ammo[5], i32::MAX);
}

#[test]
fn the_first_living_player_at_an_item_takes_it() {
    let mut players = vec![PlayerState::new(1), PlayerState::new(2), PlayerState::new(3)];
    players[0].dead = true;
    players[1].health = 50;
    players[2].health = 50;
    let mut items = vec![
        item(ItemKind::Health25, true, 0),
        item(ItemKind::Armor50, true, 0),
        item(ItemKind::Quad, false, 2),
        item(ItemKind::Quad, false, 1),
        item(ItemKind::Health25, true, 0),
    ];
    let near = vec![
        vec![true, true, true],
        vec![false, false, false],
        vec![true, true, true],
        vec![true, true, true],
        vec![true, false, true],
    ];
    let takers = process_item_pickups(&mut players, &mut items, &near);
    assert_eq!(takers, vec![Some(1), None, None, None, Some(2)]);
    assert_eq!(players[1].health, 75);
    assert_eq!(players[2].health, 75);
    assert_eq!(players[0].health, 100);
    assert_eq!(items[0], item(ItemKind::Health25, false, 300));
    assert_eq!(items[1], item(ItemKind::Armor50, true, 0));
    assert_eq!(items[2], item(ItemKind::Quad, false, 1));
    assert_eq!(items[3], item(ItemKind::Quad, true, 0));
    assert_eq!(items[4], item(ItemKind::Health25, false, 300));

    let mut mega = item(ItemKind::Health100, true, 0);
    assert_eq!(pickup_item(&mut players, &mut mega, &[false, false, true]), Some(2));
    assert_eq!(players[2].health, 175);
    assert_eq!(mega, item(ItemKind::Health100, false, 900));
    assert_eq!(pickup_item(&mut players, &mut mega, &[true, true, true]), None);
    assert_eq!(mega.respawn_timer, 899);
}

#[test]
fn respawn_resets_a_dead_player_whose_wait_is_over() {
    let map = GameMap {
        rows: 2,
        cols: 2,
        bricks: vec![0; 4],
        respawns: vec![(0, 1), (1, 0)],
        items: Vec::new(),
        name: "m".to_string(),
    };
    let mut rng = ChaCha8Rng::seed_from_u64(7);
    let mut alive = PlayerState::new(1);
    assert_eq!(respawn_if_ready_with_rng(&mut alive, &map, &mut rng), RespawnOutcome::NotReady);
    let mut waiting = PlayerState::new(1);
    waiting.dead = true;
    waiting.respawn_timer = 3;
    assert_eq!(respawn_if_ready_with_rng(&mut waiting, &map, &mut rng), RespawnOutcome::NotReady);
    assert!(waiting.dead);
    let mut due = PlayerState::new(1);
    due.dead = true;
    due.health = -20;
    due.armor = 10;
    due.velocity_x = 3;
    due.weapons = [false; 9];
    due.ammo = [0; 9];
    due.current_weapon = 0;
    due.quad_damage = true;
    due.quad_timer = 5;
    for _ in 0..20 {
        let mut p = due;
        match respawn_if_ready_with_rng(&mut p, &map, &mut rng) {
            RespawnOutcome::Respawned { cell: Some(cell) } => assert!(map.respawns.contains(&cell)),
            other => panic!("expected a spawn cell, got {:?}", other),
        }
        assert!(!p.dead);
        assert_eq!(p.health, 100);
        assert_eq!(p.armor, 0);
        assert_eq!(p.velocity_x, 0);
        assert_eq!(p.weapons, [true; 9]);
        assert_eq!(p.ammo, [-1, 100, 10, 5, 20, 10, 30, 50, 10]);
        assert_eq!(p.current_weapon, 4);
        assert!(!p.quad_damage);
        assert_eq!(p.quad_timer, 0);
        assert_eq!(p.spawn_protection, 120);
    }
    let empty = GameMap { respawns: Vec::new(), ..map.clone() };
    let mut p = due;
    assert_eq!(
        respawn_if_ready_with_rng(&mut p, &empty, &mut rng),
        RespawnOutcome::Respawned { cell: None }
    );
    assert_eq!(empty.random_respawn_with_rng(&mut rng), None);
    let mut q = due;
    reset_for_respawn(&mut q);
    assert_eq!(q, p);
}

#[test]
fn random_respawn_draws_from_the_list() {
    let map = GameMap {
        rows: 1,
        cols: 3,
        bricks: vec![0; 3],
        respawns: vec![(0, 0), (0, 1), (0, 2)],
        items: Vec::new(),
        name: "m".to_string(),
    };
    let mut rng = ChaCha8Rng::seed_from_u64(1);
    let mut seen = [false; 3];
    for _ in 0..200 {
        let (row, col) = map.random_respawn_with_rng(&mut rng).unwrap();
        assert_eq!(row, 0);
        seen[col as usize] = true;
    }
    assert_eq!(seen, [true; 3]);
}

#[test]
fn input_switches_and_scrolls_weapons() {
    let mut p = PlayerState::new(1);
    let mut input = idle_input();
    input.key_up = true;
    input.key_left = true;
    input.aim_angle = 1.5f32.to_bits();
    input.facing_left = true;
    input.weapon_switch = Some(WeaponId::Rail);
    apply_input_to_state(&input, &mut p);
    assert!(p.key_up && p.key_left && !p.key_down && !p.key_right);
    assert_eq!(p.aim_angle, 1.5f32.to_bits());
    assert!(p.facing_left);
    assert_eq!(p.current_weapon, 5);

    p.weapons[2] = false;
    input.weapon_switch = Some(WeaponId::Shotgun);
    apply_input_to_state(&input, &mut p);
    assert_eq!(p.current_weapon, 5);

    input.weapon_switch = None;
    input.weapon_scroll = 1;
    apply_input_to_state(&input, &mut p);
    assert_eq!(p.current_weapon, 6);
    input.weapon_scroll = -3;
    apply_input_to_state(&input, &mut p);
    assert_eq!(p.current_weapon, 5);

    p.current_weapon = 8;
    input.weapon_scroll = 5;
    apply_input_to_state(&input, &mut p);
    assert_eq!(p.current_weapon, 0);
    input.weapon_scroll = -1;
    apply_input_to_state(&input, &mut p);
    assert_eq!(p.current_weapon, 8);

    p.current_weapon = 1;
    input.weapon_scroll = 1;
    apply_input_to_state(&input, &mut p);
    assert_eq!(p.current_weapon, 3);

    p.weapons = [false; 9];
    p.weapons[3] = true;
    apply_input_to_state(&input, &mut p);
    assert_eq!(p.current_weapon, 3);
    p.weapons = [false; 9];
    apply_input_to_state(&input, &mut p);
    assert_eq!(p.current_weapon, 3);
}

fn grounded() -> PlayerState {
    let mut p = PlayerState::new(1);
    p.cache_on_ground = true;
    p
}

#[test]
fn a_jump_from_the_ground_starts_the_countdown_and_a_speed_run() {
    let mut p = grounded();
    p.key_up = true;
    p.key_right = true;
    assert_eq!(p.handle_jump(), JumpImpulse::First { speed_jump: 0 });
    assert_eq!(p.doublejump_countdown, 14);
    assert_eq!(p.speed_jump, 1);
    assert_eq!(p.speed_jump_dir, 1);
    assert!(p.last_was_jump);
    assert!(p.last_key_up);
    p.key_down = true;
    assert_eq!(p.handle_jump(), JumpImpulse::NoJump);
    assert!(!p.last_was_jump);
    assert_eq!(p.speed_jump, 1);
    p.key_down = false;
    p.last_was_jump = true;
    assert_eq!(p.handle_jump(), JumpImpulse::NoJump);
    assert_eq!(p.speed_jump, 0);
}

#[test]
fn a_jump_in_the_window_is_a_double_jump() {
    for countdown in 0..16 {
        let mut p = grounded();
        p.key_up = true;
        p.crouch = true;
        p.doublejump_countdown = countdown;
        let impulse = p.handle_jump();
        if countdown > 4 && countdown < 11 {
            assert_eq!(impulse, JumpImpulse::Double { speed_jump: 0 });
            assert_eq!(p.doublejump_countdown, 14);
            assert!(!p.crouch);
        } else {
            assert_eq!(impulse, JumpImpulse::First { speed_jump: 0 });
            assert_eq!(p.doublejump_countdown, if countdown == 0 { 14 } else { countdown });
            assert!(p.crouch);
        }
    }
}

#[test]
fn speed_jumps_rise_to_six_and_end_with_a_change_of_keys() {
    let mut p = grounded();
    p.key_left = true;
    let mut levels = Vec::new();
    for _ in 0..8 {
        p.key_up = true;
        p.last_key_up = true;
        p.last_was_jump = false;
        levels.push(p.handle_jump());
    }
    assert_eq!(
        levels,
        (0..8).map(|k| JumpImpulse::First { speed_jump: k.min(6) }).collect::<Vec<_>>()
    );
    assert_eq!(p.speed_jump, 6);
    assert_eq!(p.speed_jump_dir, -1);
    p.key_left = false;
    p.key_right = true;
    p.last_was_jump = false;
    assert_eq!(p.handle_jump(), JumpImpulse::First { speed_jump: 0 });
    assert_eq!(p.speed_jump, 1);
    assert_eq!(p.speed_jump_dir, 1);
}

#[test]
fn no_jump_under_a_brick_or_in_the_air() {
    let mut p = grounded();
    p.key_up = true;
    p.cache_brick_on_head = true;
    assert_eq!(p.handle_jump(), JumpImpulse::NoJump);
    let mut q = PlayerState::new(1);
    q.key_up = true;
    assert_eq!(q.handle_jump(), JumpImpulse::NoJump);
    q.doublejump_countdown = 2;
    q.tick_doublejump();
    q.tick_doublejump();
    q.tick_doublejump();
    assert_eq!(q.doublejump_countdown, 0);
}
