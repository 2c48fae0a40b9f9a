//! One room as a state machine: what each command and each tick does to the
//! room, and which frames go out to whom. The caller owns the queues and the
//! clock; it hands in commands and the time and carries out what comes back.

use vstd::prelude::*;
use vstd::slice::slice_to_vec;
use vstd::utf8::encode_utf8;
use crate::constants::{SNAPSHOT_BUFFER_RING, SNAPSHOT_INTERVAL_TICKS, WEAPON_COUNT};
use crate::encode::{
    clamp_i16, encode_kicked, encode_player_joined, encode_player_left, encode_room_closed,
    encode_room_state,
};
use crate::frames::{
    sat_i16, snapshot_frame, player_joined_frame, player_left_frame, reason_frame, room_state_frame, roster_view,
};
use crate::game::{
    after_input, apply_input_to_state, fire_effect, fire_events, pickups_run, process_item_pickups,
    reset_for_respawn, respawn_due, respawned, try_fire, Explosion, FireOrder, Projectile,
    Projectiles, ProjectilesView,
};
use crate::map::{GameMap, MapItem, MapView};
use crate::player::PlayerState;
use crate::player_store::{same_player, swap_removed, PlayerStore, Table};
use crate::room::{
    JoinError, PlayerConn, PlayerConnView, PlayerId, PlayerInput, RoomConfig, RoomId, RoomInfo,
    RoomStatus, RoomSummary, Tick,
};
use crate::snapshot::{slot_after, SnapshotEncoder};
use crate::trusted::{
    event_vec_append, event_vec_as_slice, event_vec_clear, event_vec_items, event_vec_new,
    event_vec_push, gen_index, rng_from_seed, EventVec,
};
use crate::types::{
    EffectEvent, ItemSnapshot, PlayerSnapshot, PlayerSnapshotView, ProjectileSnapshot,
};

verus! {

/// Where a player stands right after it was placed on a spawn cell: the bits
/// of its position, and what the map says of that place.
#[derive(Clone, Copy, Debug, PartialEq, Eq, Structural)]
pub struct SpawnPoint {
    pub x: u32,
    pub y: u32,
    pub on_ground: bool,
    pub brick_on_head: bool,
    pub brick_crouch_on_head: bool,
    pub cache_x: i32,
    pub cache_y: i32,
}

/// `state` standing at `point`, with no way behind it.
pub open spec fn placed(state: PlayerState, point: SpawnPoint) -> PlayerState {
    PlayerState {
        x: point.x,
        y: point.y,
        prev_x: point.x,
        prev_y: point.y,
        cache_on_ground: point.on_ground,
        cache_brick_on_head: point.brick_on_head,
        cache_brick_crouch_on_head: point.brick_crouch_on_head,
        last_cache_x: point.cache_x,
        last_cache_y: point.cache_y,
        ..state
    }
}

/// Puts `state` at `point`.
pub fn place_at(state: &mut PlayerState, point: &SpawnPoint)
    ensures
        *final(state) == placed(*old(state), *point),
{
    *state = PlayerState {
        x: point.x,
        y: point.y,
        prev_x: point.x,
        prev_y: point.y,
        cache_on_ground: point.on_ground,
        cache_brick_on_head: point.brick_on_head,
        cache_brick_crouch_on_head: point.brick_crouch_on_head,
        last_cache_x: point.cache_x,
        last_cache_y: point.cache_y,
        ..*state
    };
}

/// What a room is asked to do.
#[derive(Clone, Debug, PartialEq)]
pub enum RoomCmd {
    Join { player_id: PlayerId, username: String },
    Leave { player_id: PlayerId },
    Kick { player_id: PlayerId, reason: String },
    Input { player_id: PlayerId, seq: u64, input: PlayerInput },
    Summary,
    Info,
    Rename { name: String },
    SetMaxPlayers { max_players: usize },
    BeginClose { reason: String },
    ContainsPlayer { player_id: PlayerId },
}

impl RoomCmd {
    /// Whether the command is a join.
    pub fn is_join(&self) -> (b: bool)
        ensures
            b == (self is Join),
    {
        match self {
            RoomCmd::Join { .. } => true,
            _ => false,
        }
    }
}

/// Who is to get a frame.
#[derive(Clone, Copy, Debug, PartialEq, Eq, Structural)]
pub enum Recipients {
    /// Every player of the room.
    All,
    /// Every player of the room but one.
    AllExcept(PlayerId),
    /// One player, who may have left the room by now.
    Only(PlayerId),
}

/// A frame on its way out.
#[derive(Clone, Debug, PartialEq)]
pub struct Outbound {
    pub to: Recipients,
    pub frame: Vec<u8>,
}

/// Why a room did not do what it was asked.
#[derive(Clone, Copy, Debug, PartialEq, Eq, Structural)]
pub enum RoomError {
    /// The new player limit is below the number of players in the room.
    MaxPlayersLowerThanCurrentPlayers,
}

impl RoomError {
    pub open spec fn spec_message(self) -> Seq<char> {
        match self {
            Self::MaxPlayersLowerThanCurrentPlayers => "maxPlayers_lower_than_current_players"@,
        }
    }

    /// The error as an administrator reads it.
    pub fn message(self) -> (s: &'static str)
        ensures
            s@ == self.spec_message(),
    {
        match self {
            Self::MaxPlayersLowerThanCurrentPlayers => "maxPlayers_lower_than_current_players",
        }
    }
}

/// What a room answers to a command.
#[derive(Debug, PartialEq)]
pub enum Reply {
    /// The command asks for no answer.
    Done,
    /// The room has closed; nothing was done. A join is never answered so.
    Refused,
    /// To a join: the room-state frame, or why the player was turned away.
    Join(Result<Vec<u8>, JoinError>),
    /// To a kick: whether the player was in the room.
    Kick(bool),
    Summary(RoomSummary),
    Info(RoomInfo),
    SetMaxPlayers(Result<(), RoomError>),
    Contains(bool),
}

/// What came of a command: the answer, the frames to send, and whether the
/// room's loop is to end.
#[derive(Debug, PartialEq)]
pub struct CmdOutcome {
    pub reply: Reply,
    pub outbound: Vec<Outbound>,
    pub stop: bool,
}

/// The seed that the first `n` bytes of a room id fold to: each byte is
/// added to 31 times what came before, in arithmetic modulo 2^64.
pub open spec fn seed_fold(bytes: Seq<u8>, n: nat) -> u64
    decreases n,
{
    if n == 0 {
        0
    } else {
        ((seed_fold(bytes, (n - 1) as nat) * 31 + bytes[n - 1]) % 0x1_0000_0000_0000_0000) as u64
    }
}

/// The seed of a room's random stream: a fold of the bytes of its id.
pub fn room_seed(room_id: &str) -> (seed: u64)
    ensures
        seed == seed_fold(encode_utf8(room_id@), encode_utf8(room_id@).len()),
{
    let bytes: &[u8] = room_id.as_bytes();
    let mut acc: u64 = 0;
    let mut i: usize = 0;
    while i < bytes.len()
        invariant
            i <= bytes.len(),
            acc == seed_fold(bytes@, i as nat),
        decreases bytes.len() - i,
    {
        let scaled: u64 = acc.wrapping_mul(31);
        let next: u64 = scaled.wrapping_add(bytes[i] as u64);
        proof {
            let m: int = 0x1_0000_0000_0000_0000;
            assert(scaled == (acc * 31) % m);
            assert(next == (scaled + bytes@[i as int]) % m);
            assert(((acc * 31) % m + bytes@[i as int]) % m == (acc * 31 + bytes@[i as int]) % m)
                by (nonlinear_arith)
                requires
                    m == 0x1_0000_0000_0000_0000,
            ;
        }
        acc = next;
        i = i + 1;
    }
    acc
}

/// What a snapshot says of a player, taken from its state and the sequence
/// number of its last input.
pub open spec fn snapshot_view_of(state: PlayerState, last_input_seq: u64) -> PlayerSnapshotView {
    PlayerSnapshotView {
        id: state.id,
        x: state.x,
        y: state.y,
        vx: state.velocity_x,
        vy: state.velocity_y,
        aim_angle: state.aim_angle,
        facing_left: state.facing_left,
        crouch: state.crouch,
        dead: state.dead,
        health: state.health,
        armor: state.armor,
        current_weapon: state.current_weapon,
        fire_cooldown: state.fire_cooldown,
        weapons: state.weapons@,
        ammo: state.ammo@,
        last_input_seq,
        key_left: state.key_left,
        key_right: state.key_right,
        key_up: state.key_up,
        key_down: state.key_down,
    }
}

/// What a snapshot says of a player.
pub fn player_snapshot_from_state(last_input_seq: u64, state: &PlayerState) -> (snap: PlayerSnapshot)
    ensures
        snap@ == snapshot_view_of(*state, last_input_seq),
{
    PlayerSnapshot {
        id: state.id,
        x: state.x,
        y: state.y,
        vx: state.velocity_x,
        vy: state.velocity_y,
        aim_angle: state.aim_angle,
        facing_left: state.facing_left,
        crouch: state.crouch,
        dead: state.dead,
        health: state.health,
        armor: state.armor,
        current_weapon: state.current_weapon,
        fire_cooldown: state.fire_cooldown,
        weapons: state.weapons,
        ammo: state.ammo,
        last_input_seq,
        key_left: state.key_left,
        key_right: state.key_right,
        key_up: state.key_up,
        key_down: state.key_down,
    }
}

/// The players of a room as a room-state frame lists them.
pub open spec fn roster_of(players: Seq<PlayerConnView>, states: Seq<PlayerState>) -> Seq<
    (Seq<char>, PlayerSnapshotView),
> {
    Seq::new(
        players.len(),
        |i: int| (players[i].username, snapshot_view_of(states[i], players[i].last_input_seq)),
    )
}

/// What a room holds, as its contracts speak of it.
pub ghost struct RoomView {
    pub room_id: Seq<char>,
    /// The map of the room. Nothing that a room does changes it.
    pub map: MapView,
    pub name: Seq<char>,
    pub max_players: usize,
    pub map_id: Seq<char>,
    pub mode: Seq<char>,
    pub tick_rate: u64,
    pub protocol_version: Seq<char>,
    pub region: Option<Seq<char>>,
    pub status: RoomStatus,
    pub created_at_ms: u64,
    pub last_activity_at_ms: u64,
    pub close_reason: Option<Seq<char>>,
    pub tick: u64,
    pub table: Table,
    pub spawn_points: Seq<SpawnPoint>,
    pub items: Seq<MapItem>,
    pub projectiles: Seq<Projectile>,
    /// The last id that a projectile of the room was given; 0 before the first.
    pub last_projectile_id: u64,
    pub events: Seq<EffectEvent>,
    pub pending_events: Seq<EffectEvent>,
    /// The slot of the snapshot ring that the next snapshot is written to.
    pub snapshot_slot: nat,
    /// The frames that the eight slots of the snapshot ring hold.
    pub snapshot_ring: Seq<Seq<u8>>,
}

impl RoomView {
    /// The player table is consistent, every state carries the id of its
    /// player, and the room holds no more players than its configuration
    /// allows.
    pub open spec fn wf(self) -> bool {
        &&& self.table.wf()
        &&& self.table.states_named()
        &&& self.table.players.len() <= self.max_players
    }

    /// The room-state frame that shows this room.
    pub open spec fn room_state(self) -> Seq<u8> {
        room_state_frame(
            encode_utf8(self.room_id),
            encode_utf8(self.map.name),
            roster_of(self.table.players, self.table.states),
        )
    }

    /// Why the room turns the player `id` away, if it does: it is closing
    /// or has closed, or it is full and the player is not in it.
    pub open spec fn join_rejection(self, id: u64) -> Option<JoinError> {
        if self.status.phase() >= 2 {
            Some(JoinError::RoomClosing)
        } else if self.table.players.len() >= self.max_players && !self.table.has(id) {
            Some(JoinError::RoomFull)
        } else {
            None
        }
    }

    /// The room once its last player has gone: closing, unless it has closed.
    pub open spec fn emptied(self) -> RoomView {
        if self.table.players.len() == 0 && self.status.phase() < 2 {
            RoomView { status: RoomStatus::Closing, ..self }
        } else {
            self
        }
    }
}

/// Whether `state` is the state of a player `id` who has just joined a room
/// with these spawn points: a fresh player, placed on one of them where
/// there is any.
pub open spec fn joined_state(state: PlayerState, id: u64, points: Seq<SpawnPoint>) -> bool {
    exists|fresh: PlayerState|
        #![trigger fresh.is_fresh(id)]
        fresh.is_fresh(id) && if points.len() == 0 {
            state == fresh
        } else {
            exists|k: int| 0 <= k < points.len() && state == placed(fresh, #[trigger] points[k])
        }
}

/// Whether `s` is what the room tells of itself in a listing.
pub open spec fn is_summary_of(room: RoomView, s: RoomSummary) -> bool {
    &&& s.room_id@ == room.room_id
    &&& s.name@ == room.name
    &&& s.current_players == room.table.players.len()
    &&& s.max_players == room.max_players
    &&& s.map_id@ == room.map_id
    &&& s.mode@ == room.mode
    &&& s.status == room.status
    &&& s.created_at_ms == room.created_at_ms
    &&& s.last_activity_at_ms == room.last_activity_at_ms
    &&& s.protocol_version@ == room.protocol_version
    &&& s.region.deep_view() == room.region
}

/// Whether `info` is what the room tells of itself when asked: its summary,
/// its players by id and name in table order, and its tick.
pub open spec fn is_info_of(room: RoomView, info: RoomInfo) -> bool {
    &&& is_summary_of(room, info.summary)
    &&& info.tick == room.tick
    &&& info.players@.len() == room.table.players.len()
    &&& forall|i: int|
        0 <= i < info.players@.len() ==> (#[trigger] info.players@[i]).0
            == room.table.players[i].id && info.players@[i].1@ == room.table.players[i].username
}

/// What a join does to a room that takes the player in: a player who is in
/// the room gets its new name and keeps everything else; a new player goes
/// to the end of the table, fresh, on a spawn point, with sequence number
/// 0. The room runs from then on.
pub open spec fn join_effect(
    before: RoomView,
    id: u64,
    username: Seq<char>,
    now_ms: u64,
    after: RoomView,
) -> bool {
    if before.table.has(id) {
        after == (RoomView {
            status: RoomStatus::Running,
            last_activity_at_ms: now_ms,
            table: Table {
                players: before.table.players.update(
                    before.table.position(id),
                    PlayerConnView { username, ..before.table.players[before.table.position(id)] },
                ),
                ..before.table
            },
            ..before
        })
    } else {
        &&& after.table.players == before.table.players.push(
            PlayerConnView { id, username, input: PlayerInput::idle(), last_input_seq: 0 },
        )
        &&& after.table.states.drop_last() == before.table.states
        &&& joined_state(after.table.states.last(), id, before.spawn_points)
        &&& after == (RoomView {
            status: RoomStatus::Running,
            last_activity_at_ms: now_ms,
            table: after.table,
            ..before
        })
    }
}

/// What the removal of a player does to a room: nothing where the player is
/// not in it; else the last player of the table takes its place, and the
/// room notes the time.
pub open spec fn removal_effect(before: RoomView, id: u64, now_ms: u64, after: RoomView) -> bool {
    if !before.table.has(id) {
        after == before
    } else {
        &&& !after.table.has(id)
        &&& after.table.players == swap_removed(before.table.players, before.table.position(id))
        &&& after.table.states == swap_removed(before.table.states, before.table.position(id))
        &&& after == (RoomView { last_activity_at_ms: now_ms, table: after.table, ..before })
    }
}

/// What an input does to a room: where the player is in it and the sequence
/// number is not below the player's last, the input and the number are
/// recorded; else nothing happens.
pub open spec fn input_effect(before: RoomView, id: u64, seq: u64, input: PlayerInput) -> RoomView {
    if before.table.has(id) && seq >= before.table.seq_of(id) {
        RoomView {
            table: Table {
                players: before.table.players.update(
                    before.table.position(id),
                    PlayerConnView {
                        input,
                        last_input_seq: seq,
                        ..before.table.players[before.table.position(id)]
                    },
                ),
                ..before.table
            },
            ..before
        }
    } else {
        before
    }
}

/// The frames of a list with their recipients.
pub open spec fn outbound_view(list: Seq<Outbound>) -> Seq<(Recipients, Seq<u8>)> {
    Seq::new(list.len(), |i: int| (list[i].to, list[i].frame@))
}

/// No player's sequence number went down between `before` and `after`.
pub open spec fn seqs_kept(before: Table, after: Table) -> bool {
    forall|id: u64| #[trigger]
        before.has(id) && after.has(id) ==> after.seq_of(id) >= before.seq_of(id)
}

/// One room: its players, its world and its place in its life.
pub struct RoomTask {
    room_id: RoomId,
    map: GameMap,
    spawn_points: Vec<SpawnPoint>,
    config: RoomConfig,
    status: RoomStatus,
    created_at_ms: u64,
    last_activity_at_ms: u64,
    close_reason: Option<String>,
    tick: Tick,
    items: Vec<MapItem>,
    projectiles: Projectiles,
    player_store: PlayerStore,
    snapshot_encoder: SnapshotEncoder,
    rng: rand_chacha::ChaCha8Rng,
    scratch_events: EventVec,
    pending_snapshot_events: EventVec,
}

impl View for RoomTask {
    type V = RoomView;

    closed spec fn view(&self) -> RoomView {
        RoomView {
            room_id: self.room_id@,
            map: self.map@,
            name: self.config.name@,
            max_players: self.config.max_players,
            map_id: self.config.map_id@,
            mode: self.config.mode@,
            tick_rate: self.config.tick_rate,
            protocol_version: self.config.protocol_version@,
            region: self.config.region.deep_view(),
            status: self.status,
            created_at_ms: self.created_at_ms,
            last_activity_at_ms: self.last_activity_at_ms,
            close_reason: self.close_reason.deep_view(),
            tick: self.tick.0,
            table: self.player_store@,
            spawn_points: self.spawn_points@,
            items: self.items@,
            projectiles: self.projectiles@.list,
            last_projectile_id: self.projectiles@.last_id,
            events: event_vec_items(self.scratch_events),
            pending_events: event_vec_items(self.pending_snapshot_events),
            snapshot_slot: self.snapshot_encoder.cursor(),
            snapshot_ring: self.snapshot_encoder.slots(),
        }
    }
}

impl RoomTask {
    /// What holds of a room between commands: its player table is
    /// consistent, every state carries its player's id, it holds no more
    /// players than its configuration allows, and its projectile ids grow.
    pub open spec fn wf(&self) -> bool {
        &&& self@.wf()
        &&& self.projectiles_wf()
    }

    /// The ids of the room's projectiles grow, and none exceeds the last id given.
    pub open spec fn projectiles_wf(&self) -> bool {
        (ProjectilesView { list: self@.projectiles, last_id: self@.last_projectile_id }).wf()
    }

    /// A room that was just created: without players, at tick 0, with the
    /// items of the map, and with a random stream that is seeded from the
    /// room id. The room takes the items over and keeps the map without
    /// them. `spawn_points` says for each spawn cell of the map, in order,
    /// where a player stands who is placed there.
    pub fn new(
        room_id: RoomId,
        map: GameMap,
        spawn_points: Vec<SpawnPoint>,
        config: RoomConfig,
        now_ms: u64,
    ) -> (room: Self)
        ensures
            room.wf(),
            room@.room_id == room_id@,
            room@.map == (MapView { items: Seq::empty(), ..map@ }),
            room@.name == config.name@,
            room@.max_players == config.max_players,
            room@.map_id == config.map_id@,
            room@.mode == config.mode@,
            room@.tick_rate == config.tick_rate,
            room@.protocol_version == config.protocol_version@,
            room@.region == config.region.deep_view(),
            room@.status == RoomStatus::Created,
            room@.created_at_ms == now_ms,
            room@.last_activity_at_ms == now_ms,
            room@.close_reason is None,
            room@.tick == 0,
            room@.table.players.len() == 0,
            room@.spawn_points == spawn_points@,
            room@.items == map.items@,
            room@.projectiles.len() == 0,
            room@.last_projectile_id == 0,
            room@.events.len() == 0,
            room@.pending_events.len() == 0,
            room@.snapshot_slot == 0,
            room@.snapshot_ring == Seq::new(SNAPSHOT_BUFFER_RING as nat, |i: int| Seq::<u8>::empty()),
    {
        let mut map = map;
        let seed: u64 = room_seed(room_id.as_str());
        let items: Vec<MapItem> = map.take_items();
        RoomTask {
            room_id,
            map,
            spawn_points,
            config,
            status: RoomStatus::Created,
            created_at_ms: now_ms,
            last_activity_at_ms: now_ms,
            close_reason: None,
            tick: Tick(0),
            items,
            projectiles: Projectiles::new(),
            player_store: PlayerStore::new(),
            snapshot_encoder: SnapshotEncoder::new(),
            rng: rng_from_seed(seed),
            scratch_events: event_vec_new(),
            pending_snapshot_events: event_vec_new(),
        }
    }

    /// Where the room stands in its life.
    pub fn status(&self) -> (status: RoomStatus)
        ensures
            status == self@.status,
    {
        self.status
    }

    /// The id of the room.
    pub fn id(&self) -> (id: &RoomId)
        ensures
            id@ == self@.room_id,
    {
        &self.room_id
    }

    /// The map of the room.
    pub fn map(&self) -> (map: &GameMap)
        ensures
            map@ == self@.map,
    {
        &self.map
    }

    /// How many players the room holds.
    pub fn player_count(&self) -> (n: usize)
        ensures
            n == self@.table.players.len(),
    {
        self.player_store.len()
    }

    /// Whether the player is in the room.
    pub fn contains_player(&self, player_id: PlayerId) -> (b: bool)
        ensures
            b == self@.table.has(player_id.0),
    {
        self.player_store.contains(player_id)
    }

    /// Ends the life of the room.
    pub fn close(&mut self)
        ensures
            final(self)@ == (RoomView { status: RoomStatus::Closed, ..old(self)@ }),
            final(self).projectiles_wf() == old(self).projectiles_wf(),
    {
        self.status = RoomStatus::Closed;
    }

    /// What the room tells of itself in a listing.
    pub fn summary(&self) -> (s: RoomSummary)
        ensures
            is_summary_of(self@, s),
    {
        RoomSummary {
            room_id: self.room_id.as_str().to_owned(),
            name: self.config.name.clone(),
            current_players: self.player_store.len(),
            max_players: self.config.max_players,
            map_id: self.config.map_id.clone(),
            mode: self.config.mode.clone(),
            status: self.status,
            created_at_ms: self.created_at_ms,
            last_activity_at_ms: self.last_activity_at_ms,
            protocol_version: self.config.protocol_version.clone(),
            region: match &self.config.region {
                Some(r) => Some(r.clone()),
                None => None,
            },
        }
    }

    /// What the room tells of itself when asked: its summary, its players
    /// by id and name in table order, and its tick.
    pub fn info(&self) -> (info: RoomInfo)
        ensures
            is_info_of(self@, info),
    {
        let conns: &[PlayerConn] = self.player_store.conns();
        let mut players: Vec<(u64, String)> = Vec::new();
        let mut i: usize = 0;
        while i < conns.len()
            invariant
                i <= conns@.len(),
                conns@.len() == self@.table.players.len(),
                forall|k: int|
                    0 <= k < conns@.len() ==> (#[trigger] conns@[k])@ == self@.table.players[k],
                players@.len() == i,
                forall|k: int|
                    0 <= k < i ==> (#[trigger] players@[k]).0 == self@.table.players[k].id
                        && players@[k].1@ == self@.table.players[k].username,
            decreases conns@.len() - i,
        {
            players.push((conns[i].id.0, conns[i].username.clone()));
            i = i + 1;
        }
        RoomInfo { summary: self.summary(), players, tick: self.tick.0 }
    }
}

/// What a join came to.
#[derive(Debug, PartialEq)]
pub struct JoinResult {
    pub player_id: PlayerId,
    pub joined_name: String,
    /// The room-state frame for the player who joined.
    pub room_state: Vec<u8>,
    /// Whether the player is new to the room, so that the others are told.
    pub broadcast_join: bool,
}

impl RoomTask {
    /// The players of the room as a room-state frame lists them.
    fn roster(&self) -> (list: Vec<(String, PlayerSnapshot)>)
        requires
            self@.table.wf(),
        ensures
            roster_view(list@) == roster_of(self@.table.players, self@.table.states),
    {
        let conns: &[PlayerConn] = self.player_store.conns();
        let states: &[PlayerState] = self.player_store.states();
        let mut list: Vec<(String, PlayerSnapshot)> = Vec::new();
        let mut i: usize = 0;
        while i < conns.len()
            invariant
                i <= conns@.len(),
                conns@.len() == self@.table.players.len(),
                states@ == self@.table.states,
                states@.len() == conns@.len(),
                forall|k: int|
                    0 <= k < conns@.len() ==> (#[trigger] conns@[k])@ == self@.table.players[k],
                list@.len() == i,
                forall|k: int|
                    0 <= k < i ==> (#[trigger] list@[k]).0@ == self@.table.players[k].username
                        && list@[k].1@ == snapshot_view_of(
                        self@.table.states[k],
                        self@.table.players[k].last_input_seq,
                    ),
            decreases conns@.len() - i,
        {
            let snap: PlayerSnapshot = player_snapshot_from_state(
                conns[i].last_input_seq,
                &states[i],
            );
            list.push((conns[i].username.clone(), snap));
            i = i + 1;
        }
        assert(roster_view(list@) =~= roster_of(self@.table.players, self@.table.states));
        list
    }

    /// Why the room turns the player away, if it does.
    pub fn join_rejection(&self, player_id: PlayerId) -> (why: Option<JoinError>)
        ensures
            why == self@.join_rejection(player_id.0),
    {
        if self.status.is_closing() {
            Some(JoinError::RoomClosing)
        } else if self.player_store.len() >= self.config.max_players
            && !self.player_store.contains(player_id) {
            Some(JoinError::RoomFull)
        } else {
            None
        }
    }

    /// Takes a player in whom the room does not turn away. A player who is
    /// in the room already gets its new name and keeps everything else. A
    /// new player starts fresh on a spawn cell drawn from the map, with
    /// sequence number 0. The room runs from now on.
    pub fn handle_join(&mut self, player_id: PlayerId, username: String, now_ms: u64) -> (result:
        JoinResult)
        requires
            old(self).wf(),
            old(self)@.join_rejection(player_id.0) is None,
        ensures
            final(self).wf(),
            result.player_id == player_id,
            result.joined_name@ == username@,
            result.broadcast_join == !old(self)@.table.has(player_id.0),
            result.room_state@ == final(self)@.room_state(),
            final(self)@.table.has(player_id.0),
            join_effect(old(self)@, player_id.0, username@, now_ms, final(self)@),
            seqs_kept(old(self)@.table, final(self)@.table),
    {
        let joined_name: String = username.clone();
        let broadcast_join: bool = match self.player_store.index_of(player_id) {
            Some(idx) => {
                self.player_store.set_username(idx, username);
                false
            },
            None => {
                let mut state: PlayerState = PlayerState::new(player_id.0);
                let ghost fresh = state;
                if self.spawn_points.len() > 0 {
                    let k: usize = gen_index(&mut self.rng, self.spawn_points.len());
                    place_at(&mut state, &self.spawn_points[k]);
                    assert(state == placed(fresh, self.spawn_points@[k as int]));
                }
                assert(joined_state(state, player_id.0, self.spawn_points@));
                self.player_store.insert(
                    PlayerConn {
                        id: player_id,
                        username,
                        input: PlayerInput::default(),
                        last_input_seq: 0,
                    },
                    state,
                );
                assert(self.player_store@.states.drop_last() =~= old(self).player_store@.states);
                true
            },
        };
        self.status = RoomStatus::Running;
        self.last_activity_at_ms = now_ms;
        let list: Vec<(String, PlayerSnapshot)> = self.roster();
        let room_state: Vec<u8> = encode_room_state(
            self.room_id.as_str(),
            self.map.name.as_str(),
            list.as_slice(),
        );
        JoinResult { player_id, joined_name, room_state, broadcast_join }
    }

    /// Takes the player out of the room, if it is there, and says whether it was.
    pub fn remove_player(&mut self, player_id: PlayerId, now_ms: u64) -> (removed: bool)
        requires
            old(self).wf(),
        ensures
            final(self).wf(),
            removed == old(self)@.table.has(player_id.0),
            removal_effect(old(self)@, player_id.0, now_ms, final(self)@),
            forall|id: u64|
                id != player_id.0 ==> final(self)@.table.has(id) == old(self)@.table.has(id),
            forall|id: u64|
                id != player_id.0 && #[trigger] old(self)@.table.has(id) ==> same_player(
                    old(self)@.table,
                    final(self)@.table,
                    id,
                ),
            seqs_kept(old(self)@.table, final(self)@.table),
    {
        let removed: bool = self.player_store.remove(player_id);
        if removed {
            self.last_activity_at_ms = now_ms;
        } else {
            assert(self@.table =~= old(self)@.table);
        }
        removed
    }

    /// Starts to close the room once its last player has gone.
    pub fn transition_empty_if_needed(&mut self)
        ensures
            final(self)@ == old(self)@.emptied(),
            final(self).projectiles_wf() == old(self).projectiles_wf(),
    {
        if self.player_store.is_empty() && !self.status.is_closing() {
            self.status = RoomStatus::Closing;
        }
    }
}

impl RoomTask {
    /// Records what a player asks for, unless the sequence number is below
    /// the one that was recorded last: a late or repeated input changes
    /// nothing.
    pub fn handle_input(&mut self, player_id: PlayerId, seq: u64, input: PlayerInput)
        requires
            old(self).wf(),
        ensures
            final(self).wf(),
            final(self)@ == input_effect(old(self)@, player_id.0, seq, input),
            seqs_kept(old(self)@.table, final(self)@.table),
    {
        match self.player_store.index_of(player_id) {
            Some(idx) => {
                if seq >= self.player_store.conns()[idx].last_input_seq {
                    self.player_store.set_input(idx, seq, input);
                }
            },
            None => {},
        }
    }

    /// Answers a join: the room-state frame, or why the player is turned
    /// away. The others are told of a new player.
    pub fn join(&mut self, player_id: PlayerId, username: String, now_ms: u64) -> (outcome:
        CmdOutcome)
        requires
            old(self).wf(),
        ensures
            final(self).wf(),
            join_done(old(self)@, player_id, username@, now_ms, final(self)@, outcome),
            seqs_kept(old(self)@.table, final(self)@.table),
            final(self)@.status.phase() >= old(self)@.status.phase(),
    {
        let mut outbound: Vec<Outbound> = Vec::new();
        match self.join_rejection(player_id) {
            Some(why) => CmdOutcome { reply: Reply::Join(Err(why)), outbound, stop: false },
            None => {
                let ghost name = username@;
                let result: JoinResult = self.handle_join(player_id, username, now_ms);
                if result.broadcast_join {
                    let frame: Vec<u8> = encode_player_joined(
                        result.player_id.0,
                        result.joined_name.as_str(),
                    );
                    outbound.push(Outbound { to: Recipients::AllExcept(result.player_id), frame });
                    assert(outbound_view(outbound@) =~= seq![
                        (
                            Recipients::AllExcept(player_id),
                            player_joined_frame(player_id.0, encode_utf8(name)),
                        ),
                    ]);
                } else {
                    assert(outbound_view(outbound@) =~= Seq::<(Recipients, Seq<u8>)>::empty());
                }
                CmdOutcome { reply: Reply::Join(Ok(result.room_state)), outbound, stop: false }
            },
        }
    }

    /// Takes a player out on its leave or on a kick, tells the room, and
    /// starts to close a room that is left empty. A kicked player is told why.
    pub fn leave(&mut self, player_id: PlayerId, kick_reason: Option<&str>, now_ms: u64) -> (outcome:
        CmdOutcome)
        requires
            old(self).wf(),
            old(self)@.status != RoomStatus::Closed,
        ensures
            final(self).wf(),
            leave_done(
                old(self)@,
                player_id,
                match kick_reason {
                    Some(r) => Some(r@),
                    None => None,
                },
                now_ms,
                final(self)@,
                outcome,
            ),
            seqs_kept(old(self)@.table, final(self)@.table),
            final(self)@.status.phase() >= old(self)@.status.phase(),
    {
        let mut outbound: Vec<Outbound> = Vec::new();
        let removed: bool = self.remove_player(player_id, now_ms);
        if removed {
            let ghost mid = self@;
            outbound.push(Outbound { to: Recipients::All, frame: encode_player_left(player_id.0) });
            match kick_reason {
                Some(reason) => {
                    outbound.push(
                        Outbound { to: Recipients::Only(player_id), frame: encode_kicked(reason) },
                    );
                    assert(outbound_view(outbound@) =~= seq![
                        (Recipients::All, player_left_frame(player_id.0)),
                        (
                            Recipients::Only(player_id),
                            reason_frame(crate::constants::MSG_KICKED, encode_utf8(reason@)),
                        ),
                    ]);
                },
                None => {
                    assert(outbound_view(outbound@) =~= seq![
                        (Recipients::All, player_left_frame(player_id.0)),
                    ]);
                },
            }
            self.transition_empty_if_needed();
            assert(removal_effect(old(self)@, player_id.0, now_ms, mid));
            assert(self@ == mid.emptied());
        } else {
            assert(outbound_view(outbound@) =~= Seq::<(Recipients, Seq<u8>)>::empty());
        }
        CmdOutcome {
            reply: match kick_reason {
                Some(_) => Reply::Kick(removed),
                None => Reply::Done,
            },
            outbound,
            stop: false,
        }
    }

    /// Gives the room a new name.
    pub fn rename(&mut self, name: String, now_ms: u64)
        ensures
            final(self)@ == (RoomView { name: name@, last_activity_at_ms: now_ms, ..old(self)@ }),
            final(self).projectiles_wf() == old(self).projectiles_wf(),
    {
        self.config.name = name;
        self.last_activity_at_ms = now_ms;
    }

    /// Sets the player limit, unless it is below the number of players in the room.
    pub fn set_max_players(&mut self, max_players: usize, now_ms: u64) -> (r: Result<(), RoomError>)
        ensures
            final(self).projectiles_wf() == old(self).projectiles_wf(),
            max_players < old(self)@.table.players.len() ==> {
                &&& r == Err::<(), RoomError>(RoomError::MaxPlayersLowerThanCurrentPlayers)
                &&& final(self)@ == old(self)@
            },
            max_players >= old(self)@.table.players.len() ==> {
                &&& r == Ok::<(), RoomError>(())
                &&& final(self)@ == (RoomView {
                    max_players,
                    last_activity_at_ms: now_ms,
                    ..old(self)@
                })
            },
    {
        if max_players < self.player_store.len() {
            Err(RoomError::MaxPlayersLowerThanCurrentPlayers)
        } else {
            self.config.max_players = max_players;
            self.last_activity_at_ms = now_ms;
            Ok(())
        }
    }

    /// Starts to close the room for `reason`, and hands back the frame that
    /// tells every player so.
    pub fn begin_close(&mut self, reason: String) -> (frame: Vec<u8>)
        requires
            old(self)@.status != RoomStatus::Closed,
        ensures
            final(self).projectiles_wf() == old(self).projectiles_wf(),
            frame@ == reason_frame(crate::constants::MSG_ROOM_CLOSED, encode_utf8(reason@)),
            final(self)@ == (RoomView {
                close_reason: Some(reason@),
                status: RoomStatus::Closing,
                ..old(self)@
            }),
    {
        let frame: Vec<u8> = encode_room_closed(reason.as_str());
        self.close_reason = Some(reason);
        self.status = RoomStatus::Closing;
        frame
    }

    /// Does what a command asks. A join is answered with the room-state
    /// frame or with the reason why the player is turned away, and tells
    /// the others of a new player; a room that is closing or has closed
    /// turns every player away. A room that has closed refuses every other
    /// command. A leave and a kick take the player out, tell the room, and
    /// start to close a room that is left empty; the kicked player is told
    /// why. A new player limit below the number of players is refused. The
    /// start of a close tells every player and ends the room's loop.
    pub fn handle_cmd(&mut self, cmd: RoomCmd, now_ms: u64) -> (outcome: CmdOutcome)
        requires
            old(self).wf(),
        ensures
            final(self).wf(),
            final(self)@.status.phase() >= old(self)@.status.phase(),
            seqs_kept(old(self)@.table, final(self)@.table),
            cmd_done(old(self)@, cmd, now_ms, final(self)@, outcome),
    {
        if self.status.rank() == 3 && !cmd.is_join() {
            return CmdOutcome { reply: Reply::Refused, outbound: Vec::new(), stop: false };
        }
        match cmd {
            RoomCmd::Join { player_id, username } => self.join(player_id, username, now_ms),
            RoomCmd::Leave { player_id } => self.leave(player_id, None, now_ms),
            RoomCmd::Kick { player_id, reason } => self.leave(
                player_id,
                Some(reason.as_str()),
                now_ms,
            ),
            RoomCmd::Input { player_id, seq, input } => {
                self.handle_input(player_id, seq, input);
                CmdOutcome { reply: Reply::Done, outbound: Vec::new(), stop: false }
            },
            RoomCmd::Summary => CmdOutcome {
                reply: Reply::Summary(self.summary()),
                outbound: Vec::new(),
                stop: false,
            },
            RoomCmd::Info => CmdOutcome {
                reply: Reply::Info(self.info()),
                outbound: Vec::new(),
                stop: false,
            },
            RoomCmd::Rename { name } => {
                self.rename(name, now_ms);
                CmdOutcome { reply: Reply::Done, outbound: Vec::new(), stop: false }
            },
            RoomCmd::SetMaxPlayers { max_players } => {
                let r: Result<(), RoomError> = self.set_max_players(max_players, now_ms);
                CmdOutcome { reply: Reply::SetMaxPlayers(r), outbound: Vec::new(), stop: false }
            },
            RoomCmd::BeginClose { reason } => {
                let frame: Vec<u8> = self.begin_close(reason);
                let mut outbound: Vec<Outbound> = Vec::new();
                outbound.push(Outbound { to: Recipients::All, frame });
                assert(outbound_view(outbound@) =~= seq![(Recipients::All, frame@)]);
                CmdOutcome { reply: Reply::Done, outbound, stop: true }
            },
            RoomCmd::ContainsPlayer { player_id } => CmdOutcome {
                reply: Reply::Contains(self.player_store.contains(player_id)),
                outbound: Vec::new(),
                stop: false,
            },
        }
    }
}

/// What a join comes to: the reason where the room turns the player away;
/// else the room-state frame of the room with the player in it, and word of
/// a new player to the others.
pub open spec fn join_done(
    before: RoomView,
    player_id: PlayerId,
    username: Seq<char>,
    now_ms: u64,
    after: RoomView,
    outcome: CmdOutcome,
) -> bool {
    &&& !outcome.stop
    &&& match before.join_rejection(player_id.0) {
        Some(why) => {
            &&& outcome.reply == Reply::Join(Err(why))
            &&& outcome.outbound@.len() == 0
            &&& after == before
        },
        None => {
            &&& outcome.reply matches Reply::Join(Ok(frame)) && frame@ == after.room_state()
            &&& join_effect(before, player_id.0, username, now_ms, after)
            &&& outbound_view(outcome.outbound@) == if before.table.has(player_id.0) {
                Seq::<(Recipients, Seq<u8>)>::empty()
            } else {
                seq![
                    (
                        Recipients::AllExcept(player_id),
                        player_joined_frame(player_id.0, encode_utf8(username)),
                    ),
                ]
            }
        },
    }
}

/// What a leave (`kick_reason` is none) or a kick comes to: where the
/// player is in the room it is taken out, every player is sent the
/// player-left frame, a kicked player is sent the reason, and a room that
/// is left empty starts to close. Where the player is not in the room
/// nothing happens.
pub open spec fn leave_done(
    before: RoomView,
    player_id: PlayerId,
    kick_reason: Option<Seq<char>>,
    now_ms: u64,
    after: RoomView,
    outcome: CmdOutcome,
) -> bool {
    &&& !outcome.stop
    &&& outcome.reply == match kick_reason {
        Some(_) => Reply::Kick(before.table.has(player_id.0)),
        None => Reply::Done,
    }
    &&& if before.table.has(player_id.0) {
        &&& exists|mid: RoomView|
            #![trigger mid.emptied()]
            removal_effect(before, player_id.0, now_ms, mid) && after == mid.emptied()
        &&& outbound_view(outcome.outbound@) == match kick_reason {
            Some(reason) => seq![
                (Recipients::All, player_left_frame(player_id.0)),
                (
                    Recipients::Only(player_id),
                    reason_frame(crate::constants::MSG_KICKED, encode_utf8(reason)),
                ),
            ],
            None => seq![(Recipients::All, player_left_frame(player_id.0))],
        }
    } else {
        &&& after == before
        &&& outcome.outbound@.len() == 0
    }
}

/// What a command comes to. A join is answered in every room; a room that
/// has closed refuses every other command and stays as it is.
pub open spec fn cmd_done(
    before: RoomView,
    cmd: RoomCmd,
    now_ms: u64,
    after: RoomView,
    outcome: CmdOutcome,
) -> bool {
    if before.status == RoomStatus::Closed && !(cmd is Join) {
        &&& outcome.reply is Refused
        &&& outcome.outbound@.len() == 0
        &&& !outcome.stop
        &&& after == before
    } else {
        match cmd {
            RoomCmd::Join { player_id, username } => join_done(
                before,
                player_id,
                username@,
                now_ms,
                after,
                outcome,
            ),
            RoomCmd::Leave { player_id } => leave_done(
                before,
                player_id,
                None,
                now_ms,
                after,
                outcome,
            ),
            RoomCmd::Kick { player_id, reason } => leave_done(
                before,
                player_id,
                Some(reason@),
                now_ms,
                after,
                outcome,
            ),
            RoomCmd::Input { player_id, seq, input } => {
                &&& outcome.reply is Done
                &&& !outcome.stop
                &&& outcome.outbound@.len() == 0
                &&& after == input_effect(before, player_id.0, seq, input)
            },
            RoomCmd::Summary => {
                &&& outcome.reply matches Reply::Summary(s) && is_summary_of(before, s)
                &&& !outcome.stop
                &&& outcome.outbound@.len() == 0
                &&& after == before
            },
            RoomCmd::Info => {
                &&& outcome.reply matches Reply::Info(info) && is_info_of(before, info)
                &&& !outcome.stop
                &&& outcome.outbound@.len() == 0
                &&& after == before
            },
            RoomCmd::Rename { name } => {
                &&& outcome.reply is Done
                &&& !outcome.stop
                &&& outcome.outbound@.len() == 0
                &&& after == (RoomView { name: name@, last_activity_at_ms: now_ms, ..before })
            },
            RoomCmd::SetMaxPlayers { max_players } => {
                &&& !outcome.stop
                &&& outcome.outbound@.len() == 0
                &&& if max_players < before.table.players.len() {
                    &&& outcome.reply == Reply::SetMaxPlayers(
                        Err(RoomError::MaxPlayersLowerThanCurrentPlayers),
                    )
                    &&& after == before
                } else {
                    &&& outcome.reply == Reply::SetMaxPlayers(Ok(()))
                    &&& after == (RoomView { max_players, last_activity_at_ms: now_ms, ..before })
                }
            },
            RoomCmd::BeginClose { reason } => {
                &&& outcome.reply is Done
                &&& outcome.stop
                &&& outbound_view(outcome.outbound@) == seq![
                    (
                        Recipients::All,
                        reason_frame(crate::constants::MSG_ROOM_CLOSED, encode_utf8(reason@)),
                    ),
                ]
                &&& after == (RoomView {
                    close_reason: Some(reason@),
                    status: RoomStatus::Closing,
                    ..before
                })
            },
            RoomCmd::ContainsPlayer { player_id } => {
                &&& outcome.reply == Reply::Contains(before.table.has(player_id.0))
                &&& !outcome.stop
                &&& outcome.outbound@.len() == 0
                &&& after == before
            },
        }
    }
}

/// The ids of the players that an eviction takes out, in the order in which
/// it does: the failed players from the last to the first, each once and
/// only where it is in the room.
pub open spec fn evicted(present: Set<u64>, failed: Seq<PlayerId>) -> Seq<u64>
    decreases failed.len(),
{
    if failed.len() == 0 {
        Seq::empty()
    } else if present.contains(failed.last().0) {
        seq![failed.last().0] + evicted(present.remove(failed.last().0), failed.drop_last())
    } else {
        evicted(present, failed.drop_last())
    }
}

/// Whether `id` is among the ids of `failed` from position `from` on.
pub open spec fn named_from(failed: Seq<PlayerId>, from: int, id: u64) -> bool {
    exists|k: int| from <= k < failed.len() && (#[trigger] failed[k]).0 == id
}

/// The player-left frames for `ids`, each for every player of the room.
pub open spec fn left_frames(ids: Seq<u64>) -> Seq<(Recipients, Seq<u8>)> {
    Seq::new(ids.len(), |i: int| (Recipients::All, player_left_frame(ids[i])))
}

/// The tick count after one more tick; the count starts over after the largest.
pub open spec fn next_tick(tick: u64) -> u64 {
    if tick == u64::MAX {
        0
    } else {
        (tick + 1) as u64
    }
}

/// The explosion events of a tick, one for each explosion in order.
pub open spec fn explosion_events(explosions: Seq<Explosion>) -> Seq<EffectEvent> {
    Seq::new(
        explosions.len(),
        |i: int|
            EffectEvent::Explosion {
                x: explosions[i].x,
                y: explosions[i].y,
                kind: explosions[i].kind.spec_as_u8(),
            },
    )
}

/// What a snapshot says of an item.
pub open spec fn item_snapshot_of(item: MapItem) -> ItemSnapshot {
    ItemSnapshot { active: item.active, respawn_timer: sat_i16(item.respawn_timer) }
}

/// Whether `snaps` are the snapshots of the players of `table`, in table order.
pub open spec fn snapshots_of(table: Table, snaps: Seq<PlayerSnapshot>) -> bool {
    &&& snaps.len() == table.players.len()
    &&& forall|i: int|
        0 <= i < snaps.len() ==> (#[trigger] snaps[i])@ == snapshot_view_of(
            table.states[i],
            table.players[i].last_input_seq,
        )
}

/// What opening a player's tick does: the input is taken over; a living
/// player who holds the trigger down pulls it, and the events show the shot.
pub open spec fn tick_opened(
    input: PlayerInput,
    before: PlayerState,
    events_before: Seq<EffectEvent>,
    after: PlayerState,
    events_after: Seq<EffectEvent>,
    order: Option<FireOrder>,
) -> bool {
    let ready = after_input(before, input);
    if !ready.dead && input.mouse_down && 0 <= ready.current_weapon < WEAPON_COUNT {
        fire_effect(ready, after, order) && events_after == fire_events(ready, events_before)
    } else {
        after == ready && order is None && events_after == events_before
    }
}

/// Opens a player's tick: takes its input over and pulls the trigger where
/// a living player holds it down.
pub fn open_tick(input: &PlayerInput, state: &mut PlayerState, events: &mut EventVec) -> (order:
    Option<FireOrder>)
    ensures
        tick_opened(
            *input,
            *old(state),
            event_vec_items(*old(events)),
            *final(state),
            event_vec_items(*final(events)),
            order,
        ),
        final(state).id == old(state).id,
{
    apply_input_to_state(input, state);
    if !state.dead && input.mouse_down && 0 <= state.current_weapon && state.current_weapon < 9 {
        try_fire(state, events)
    } else {
        None
    }
}

/// Whether `after` is the player `before` come back at `point`: reset, and
/// placed there.
pub open spec fn came_back_at(before: PlayerState, point: SpawnPoint, after: PlayerState) -> bool {
    exists|reset: PlayerState|
        #![trigger respawned(before, reset)]
        respawned(before, reset) && after == placed(reset, point)
}

/// Whether `after` is the player `before` come back on the draw `drawn`:
/// reset, and placed on the point that was drawn where the draw names one
/// of the points.
pub open spec fn came_back_on(
    before: PlayerState,
    points: Seq<SpawnPoint>,
    drawn: Option<usize>,
    after: PlayerState,
) -> bool {
    if drawn is Some && drawn->0 < points.len() {
        came_back_at(before, points[drawn->0 as int], after)
    } else {
        respawned(before, after)
    }
}

/// Whether `after` is the player `before` come back in a room with these
/// spawn points: reset, and placed on one of the points where there is any.
pub open spec fn came_back(before: PlayerState, points: Seq<SpawnPoint>, after: PlayerState) -> bool {
    if points.len() == 0 {
        respawned(before, after)
    } else {
        exists|k: int| 0 <= k < points.len() && came_back_at(before, #[trigger] points[k], after)
    }
}

/// Brings a player back: it is reset, and placed on the point drawn for it.
/// A draw that names none of the points leaves the player where it was.
pub fn come_back(state: &mut PlayerState, points: &[SpawnPoint], drawn: Option<usize>)
    ensures
        came_back_on(*old(state), points@, drawn, *final(state)),
        final(state).id == old(state).id,
{
    reset_for_respawn(state);
    let ghost reset = *state;
    match drawn {
        Some(k) => {
            if k < points.len() {
                place_at(state, &points[k]);
                assert(respawned(*old(state), reset));
            }
        },
        None => {},
    }
}

impl RoomTask {
    /// Takes out the players to whom a frame could not be delivered, from
    /// the last to the first, and hands back a player-left frame for each
    /// one that was in the room. Every other player stays, with its
    /// connection and its state. A room that is left empty starts to close.
    pub fn evict(&mut self, failed: &[PlayerId], now_ms: u64) -> (outbound: Vec<Outbound>)
        requires
            old(self).wf(),
        ensures
            final(self).wf(),
            final(self)@.status.phase() >= old(self)@.status.phase(),
            seqs_kept(old(self)@.table, final(self)@.table),
            outbound_view(outbound@) == left_frames(
                evicted(old(self)@.table.index.dom(), failed@),
            ),
            forall|id: u64| final(self)@.table.has(id) ==> old(self)@.table.has(id),
            forall|k: int| 0 <= k < failed@.len() ==> !final(self)@.table.has(#[trigger] failed@[k].0),
            forall|id: u64| #[trigger]
                old(self)@.table.has(id) && !named_from(failed@, 0, id) ==> same_player(
                    old(self)@.table,
                    final(self)@.table,
                    id,
                ),
            final(self)@.status == if final(self)@.table.players.len() == 0 && old(
                self,
            )@.status.phase() < 2 {
                RoomStatus::Closing
            } else {
                old(self)@.status
            },
            final(self)@ == (RoomView {
                status: final(self)@.status,
                last_activity_at_ms: final(self)@.last_activity_at_ms,
                table: final(self)@.table,
                ..old(self)@
            }),
    {
        let mut outbound: Vec<Outbound> = Vec::new();
        let ghost mut done: Seq<u64> = Seq::empty();
        let mut i: usize = failed.len();
        proof {
            assert(failed@.take(i as int) =~= failed@);
            assert(outbound_view(outbound@) =~= left_frames(done));
        }
        while i > 0
            invariant
                i <= failed@.len(),
                self.wf(),
                self@.table.index.dom().finite(),
                self@.status == old(self)@.status,
                seqs_kept(old(self)@.table, self@.table),
                forall|id: u64| self@.table.has(id) ==> old(self)@.table.has(id),
                forall|k: int| i <= k < failed@.len() ==> !self@.table.has(#[trigger] failed@[k].0),
                forall|id: u64| #[trigger]
                    old(self)@.table.has(id) && !named_from(failed@, i as int, id) ==> same_player(
                        old(self)@.table,
                        self@.table,
                        id,
                    ),
                outbound_view(outbound@) == left_frames(done),
                evicted(old(self)@.table.index.dom(), failed@) == done + evicted(
                    self@.table.index.dom(),
                    failed@.take(i as int),
                ),
                self@ == (RoomView {
                    last_activity_at_ms: self@.last_activity_at_ms,
                    table: self@.table,
                    ..old(self)@
                }),
            decreases i,
        {
            i = i - 1;
            let id: PlayerId = failed[i];
            let ghost before = self@.table;
            let ghost rest = failed@.take(i as int);
            proof {
                assert(failed@.take(i + 1).drop_last() =~= rest);
                assert(failed@.take(i + 1).last() == id);
            }
            let removed: bool = self.remove_player(id, now_ms);
            proof {
                assert forall|x: u64| #[trigger]
                    old(self)@.table.has(x) && !named_from(failed@, i as int, x) implies same_player(
                    old(self)@.table,
                    self@.table,
                    x,
                ) by {
                    assert(failed@[i as int].0 != x);
                    assert(!named_from(failed@, i + 1, x));
                    assert(same_player(old(self)@.table, before, x));
                    assert(same_player(before, self@.table, x));
                }
            }
            if removed {
                let ghost shown = outbound_view(outbound@);
                outbound.push(Outbound { to: Recipients::All, frame: encode_player_left(id.0) });
                proof {
                    assert forall|x: u64|
                        self@.table.index.dom().contains(x) == before.index.dom().remove(
                            id.0,
                        ).contains(x) by {
                        assert(self@.table.has(x) == self@.table.index.dom().contains(x));
                        assert(before.has(x) == before.index.dom().contains(x));
                    }
                    assert(self@.table.index.dom() =~= before.index.dom().remove(id.0));
                    assert(outbound_view(outbound@) =~= shown.push(
                        (Recipients::All, player_left_frame(id.0)),
                    ));
                    assert(left_frames(done.push(id.0)) =~= left_frames(done).push(
                        (Recipients::All, player_left_frame(id.0)),
                    ));
                    assert(done + (seq![id.0] + evicted(self@.table.index.dom(), rest))
                        =~= done.push(id.0) + evicted(self@.table.index.dom(), rest));
                    done = done.push(id.0);
                }
            } else {
                proof {
                    assert(self@.table == before);
                }
            }
        }
        proof {
            assert(failed@.take(0) =~= Seq::<PlayerId>::empty());
            assert(done + Seq::<u64>::empty() =~= done);
        }
        self.transition_empty_if_needed();
        outbound
    }

    /// Starts a tick. A room that does not run, or that has no players,
    /// does not tick. In a room that ticks the tick count goes up by one
    /// and the tick's events start empty.
    pub fn begin_tick(&mut self) -> (ticking: bool)
        ensures
            final(self).projectiles_wf() == old(self).projectiles_wf(),
            ticking == (old(self)@.table.players.len() > 0 && old(self)@.status
                == RoomStatus::Running),
            !ticking ==> final(self)@ == old(self)@,
            ticking ==> final(self)@ == (RoomView {
                tick: next_tick(old(self)@.tick),
                events: Seq::empty(),
                ..old(self)@
            }),
    {
        if self.player_store.is_empty() || self.status.rank() != 0 {
            return false;
        }
        self.tick = Tick(self.tick.0.wrapping_add(1));
        event_vec_clear(&mut self.scratch_events);
        true
    }

    /// What the player at table position `idx` last asked for.
    pub fn player_input(&self, idx: usize) -> (input: PlayerInput)
        requires
            idx < self@.table.players.len(),
        ensures
            input == self@.table.players[idx as int].input,
    {
        self.player_store.conns()[idx].input
    }

    /// The simulation state of the player at table position `idx`.
    pub fn player_state(&self, idx: usize) -> (state: PlayerState)
        requires
            idx < self@.table.states.len(),
        ensures
            state == self@.table.states[idx as int],
    {
        self.player_store.state(idx)
    }

    /// Puts `state` at table position `idx`, under the id of the player there.
    pub fn set_player_state(&mut self, idx: usize, state: PlayerState)
        requires
            old(self).wf(),
            idx < old(self)@.table.states.len(),
        ensures
            final(self).wf(),
            final(self)@ == (RoomView {
                table: Table {
                    states: old(self)@.table.states.update(
                        idx as int,
                        PlayerState { id: old(self)@.table.states[idx as int].id, ..state },
                    ),
                    ..old(self)@.table
                },
                ..old(self)@
            }),
    {
        self.player_store.set_state(idx, state);
    }

    /// Opens the tick of the player at table position `idx`: its last input
    /// is taken over into its state, and where it lives and holds the
    /// trigger down, its weapon is fired. The order for the shot, if there
    /// is one, is handed back.
    pub fn prepare_player(&mut self, idx: usize) -> (order: Option<FireOrder>)
        requires
            old(self).wf(),
            idx < old(self)@.table.players.len(),
        ensures
            final(self).wf(),
            tick_opened(
                old(self)@.table.players[idx as int].input,
                old(self)@.table.states[idx as int],
                old(self)@.events,
                final(self)@.table.states[idx as int],
                final(self)@.events,
                order,
            ),
            final(self)@ == (RoomView {
                table: Table {
                    states: old(self)@.table.states.update(
                        idx as int,
                        final(self)@.table.states[idx as int],
                    ),
                    ..old(self)@.table
                },
                events: final(self)@.events,
                ..old(self)@
            }),
    {
        let input: PlayerInput = self.player_store.conns()[idx].input;
        let mut state: PlayerState = self.player_store.state(idx);
        let order: Option<FireOrder> = open_tick(&input, &mut state, &mut self.scratch_events);
        proof {
            assert(PlayerState { id: old(self)@.table.states[idx as int].id, ..state } == state);
        }
        self.player_store.set_state(idx, state);
        order
    }

    /// Brings the player at table position `idx` back where it is due: it
    /// is reset and placed on a spawn point drawn from the room's points,
    /// where there is any. Says whether the player came back.
    pub fn respawn_player(&mut self, idx: usize) -> (back: bool)
        requires
            old(self).wf(),
            idx < old(self)@.table.states.len(),
        ensures
            final(self).wf(),
            back == respawn_due(old(self)@.table.states[idx as int]),
            !back ==> final(self)@ == old(self)@,
            back ==> came_back(
                old(self)@.table.states[idx as int],
                old(self)@.spawn_points,
                final(self)@.table.states[idx as int],
            ),
            final(self)@ == (RoomView {
                table: Table {
                    states: old(self)@.table.states.update(
                        idx as int,
                        final(self)@.table.states[idx as int],
                    ),
                    ..old(self)@.table
                },
                ..old(self)@
            }),
    {
        let mut state: PlayerState = self.player_store.state(idx);
        if !state.dead || state.respawn_timer > 0 {
            assert(old(self)@.table.states.update(idx as int, state) =~= old(self)@.table.states);
            assert(self@.table == old(self)@.table);
            return false;
        }
        let k: Option<usize> = self.draw_spawn_point();
        let ghost drawn = self@;
        come_back(&mut state, self.spawn_points.as_slice(), k);
        proof {
            assert(PlayerState { id: drawn.table.states[idx as int].id, ..state } == state);
        }
        self.player_store.set_state(idx, state);
        proof {
            assert(self@.table.states[idx as int] == state);
            if let Some(at) = k {
                assert(came_back_at(
                    old(self)@.table.states[idx as int],
                    self@.spawn_points[at as int],
                    state,
                ));
            }
        }
        true
    }

    /// The items of the room, in the order of the map.
    pub fn items(&self) -> (items: &[MapItem])
        ensures
            items@ == self@.items,
    {
        self.items.as_slice()
    }

    /// The projectiles of the room.
    pub fn projectiles(&self) -> (projectiles: &Projectiles)
        ensures
            projectiles@.list == self@.projectiles,
            projectiles@.last_id == self@.last_projectile_id,
            projectiles.wf() == self.projectiles_wf(),
    {
        &self.projectiles
    }

    /// The events of the tick so far, in order.
    pub fn events(&self) -> (events: &[EffectEvent])
        ensures
            events@ == self@.events,
    {
        event_vec_as_slice(&self.scratch_events)
    }

    /// The projectiles, the events of the tick and the random stream of
    /// the room, open for the part of a tick that is worked out elsewhere:
    /// the shots, and the flight and the hits of the projectiles. The room
    /// is what it was but for its projectiles and the events of the tick,
    /// which are what the caller leaves in them.
    pub fn parts_mut(&mut self) -> (parts: (
        &mut Projectiles,
        &mut EventVec,
        &mut rand_chacha::ChaCha8Rng,
    ))
        ensures
            parts.0@.list == old(self)@.projectiles,
            parts.0@.last_id == old(self)@.last_projectile_id,
            parts.0.wf() == old(self).projectiles_wf(),
            event_vec_items(*parts.1) == old(self)@.events,
            final(self).projectiles_wf() == final(parts.0).wf(),
            final(self)@ == (RoomView {
                projectiles: final(parts.0)@.list,
                last_projectile_id: final(parts.0)@.last_id,
                events: event_vec_items(*final(parts.1)),
                ..old(self)@
            }),
    {
        (&mut self.projectiles, &mut self.scratch_events, &mut self.rng)
    }

    /// Draws one of the room's spawn points, where it has any.
    fn draw_spawn_point(&mut self) -> (drawn: Option<usize>)
        ensures
            final(self)@ == old(self)@,
            final(self).projectiles_wf() == old(self).projectiles_wf(),
            old(self)@.spawn_points.len() == 0 ==> drawn is None,
            old(self)@.spawn_points.len() > 0 ==> drawn is Some,
            drawn matches Some(k) ==> k < old(self)@.spawn_points.len(),
    {
        if self.spawn_points.len() > 0 {
            Some(gen_index(&mut self.rng, self.spawn_points.len()))
        } else {
            None
        }
    }

    /// The snapshots of the players and of the items, as the next snapshot
    /// frame will carry them.
    pub fn build_snapshot_buffers(&self) -> (buffers: (Vec<PlayerSnapshot>, Vec<ItemSnapshot>))
        requires
            self@.table.wf(),
        ensures
            snapshots_of(self@.table, buffers.0@),
            buffers.1@ == self@.items.map_values(|item: MapItem| item_snapshot_of(item)),
    {
        let conns: &[PlayerConn] = self.player_store.conns();
        let states: &[PlayerState] = self.player_store.states();
        let mut players: Vec<PlayerSnapshot> = Vec::new();
        let mut i: usize = 0;
        while i < conns.len()
            invariant
                i <= conns@.len(),
                conns@.len() == self@.table.players.len(),
                states@ == self@.table.states,
                states@.len() == conns@.len(),
                forall|k: int|
                    0 <= k < conns@.len() ==> (#[trigger] conns@[k])@ == self@.table.players[k],
                players@.len() == i,
                forall|k: int|
                    0 <= k < i ==> (#[trigger] players@[k])@ == snapshot_view_of(
                        self@.table.states[k],
                        self@.table.players[k].last_input_seq,
                    ),
            decreases conns@.len() - i,
        {
            players.push(player_snapshot_from_state(conns[i].last_input_seq, &states[i]));
            i = i + 1;
        }
        let mut items: Vec<ItemSnapshot> = Vec::new();
        let mut j: usize = 0;
        while j < self.items.len()
            invariant
                j <= self.items@.len(),
                items@.len() == j,
                forall|k: int| 0 <= k < j ==> (#[trigger] items@[k]) == item_snapshot_of(
                    self.items@[k],
                ),
            decreases self.items@.len() - j,
        {
            let item: MapItem = self.items[j];
            items.push(
                ItemSnapshot {
                    active: item.active,
                    respawn_timer: clamp_i16(item.respawn_timer),
                },
            );
            j = j + 1;
        }
        assert(items@ =~= self@.items.map_values(|item: MapItem| item_snapshot_of(item)));
        (players, items)
    }
}

/// The snapshots of the players of `table`, in table order.
pub open spec fn snapshot_views(table: Table) -> Seq<PlayerSnapshotView> {
    Seq::new(
        table.players.len(),
        |i: int| snapshot_view_of(table.states[i], table.players[i].last_input_seq),
    )
}

/// The snapshots of `items`, in order.
pub open spec fn item_snapshots(items: Seq<MapItem>) -> Seq<ItemSnapshot> {
    items.map_values(|item: MapItem| item_snapshot_of(item))
}

/// Whether this tick sends a snapshot: every second tick does.
pub open spec fn snapshot_due(tick: u64) -> bool {
    tick % SNAPSHOT_INTERVAL_TICKS == 0
}

/// Records one explosion event for each explosion, in order.
fn push_explosion_events(events: &mut EventVec, explosions: &[Explosion])
    ensures
        event_vec_items(*final(events)) == event_vec_items(*old(events)) + explosion_events(
            explosions@,
        ),
{
    let mut i: usize = 0;
    assert(event_vec_items(*events) =~= event_vec_items(*old(events)) + explosion_events(
        explosions@,
    ).take(0));
    while i < explosions.len()
        invariant
            i <= explosions@.len(),
            event_vec_items(*events) == event_vec_items(*old(events)) + explosion_events(
                explosions@,
            ).take(i as int),
        decreases explosions@.len() - i,
    {
        let e: Explosion = explosions[i];
        event_vec_push(events, EffectEvent::Explosion { x: e.x, y: e.y, kind: e.kind.as_u8() });
        assert(event_vec_items(*events) =~= event_vec_items(*old(events)) + explosion_events(
            explosions@,
        ).take(i + 1));
        i = i + 1;
    }
    assert(explosion_events(explosions@).take(explosions@.len() as int) =~= explosion_events(
        explosions@,
    ));
}

impl RoomTask {
    /// Runs the items of the room for one tick: see [`pickups_run`].
    fn run_pickups(&mut self, near: &Vec<Vec<bool>>)
        requires
            old(self).wf(),
            near@.len() == old(self)@.items.len(),
            forall|i: int|
                0 <= i < near@.len() ==> (#[trigger] near@[i])@.len() == old(
                    self,
                )@.table.states.len(),
        ensures
            final(self).wf(),
            pickups_run(
                old(self)@.table.states,
                old(self)@.items,
                near.deep_view(),
                old(self)@.items.len(),
                final(self)@.table.states,
                final(self)@.items,
            ),
            final(self)@ == (RoomView {
                table: Table { states: final(self)@.table.states, ..old(self)@.table },
                items: final(self)@.items,
                ..old(self)@
            }),
    {
        let mut states: Vec<PlayerState> = slice_to_vec(self.player_store.states());
        process_item_pickups(&mut states, &mut self.items, near);
        self.player_store.replace_states(states);
    }

    /// Ends a tick. The explosions of the tick are recorded as events, the
    /// items run their tick, and the events of the tick join those that
    /// wait for the next snapshot. On every second tick a snapshot frame
    /// with every player, every item and the waiting events is encoded and
    /// handed back for every player, no event waits any longer, and the
    /// snapshot ring moves on by one slot.
    /// `near[i][p]` says whether player `p` stands at item `i`.
    pub fn finish_tick(
        &mut self,
        explosions: &[Explosion],
        near: &Vec<Vec<bool>>,
        server_time_ms: u64,
    ) -> (frame: Option<Vec<u8>>)
        requires
            old(self).wf(),
            near@.len() == old(self)@.items.len(),
            forall|i: int|
                0 <= i < near@.len() ==> (#[trigger] near@[i])@.len() == old(
                    self,
                )@.table.states.len(),
        ensures
            final(self).wf(),
            pickups_run(
                old(self)@.table.states,
                old(self)@.items,
                near.deep_view(),
                old(self)@.items.len(),
                final(self)@.table.states,
                final(self)@.items,
            ),
            ({
                let before = old(self)@;
                let after = final(self)@;
                let waiting = before.pending_events + (before.events + explosion_events(
                    explosions@,
                ));
                &&& after == (RoomView {
                    table: Table { states: after.table.states, ..before.table },
                    items: after.items,
                    events: Seq::empty(),
                    pending_events: after.pending_events,
                    snapshot_slot: after.snapshot_slot,
                    snapshot_ring: after.snapshot_ring,
                    ..before
                })
                &&& !snapshot_due(before.tick) ==> {
                    &&& frame is None
                    &&& after.pending_events == waiting
                    &&& after.snapshot_slot == before.snapshot_slot
                    &&& after.snapshot_ring == before.snapshot_ring
                }
                &&& snapshot_due(before.tick) ==> {
                    &&& after.pending_events == Seq::<EffectEvent>::empty()
                    &&& after.snapshot_slot == slot_after(before.snapshot_slot, 1)
                    &&& frame matches Some(bytes) && after.snapshot_ring
                        == before.snapshot_ring.update(before.snapshot_slot as int, bytes@)
                    &&& frame matches Some(bytes) && bytes@ == snapshot_frame(
                        before.tick,
                        server_time_ms,
                        snapshot_views(after.table),
                        item_snapshots(after.items),
                        Seq::empty(),
                        waiting,
                    )
                }
            }),
    {
        push_explosion_events(&mut self.scratch_events, explosions);
        self.run_pickups(near);
        event_vec_append(&mut self.pending_snapshot_events, &mut self.scratch_events);
        if self.tick.0 % SNAPSHOT_INTERVAL_TICKS != 0 {
            return None;
        }
        let buffers: (Vec<PlayerSnapshot>, Vec<ItemSnapshot>) = self.build_snapshot_buffers();
        let projectiles: Vec<ProjectileSnapshot> = Vec::new();
        let players: &[PlayerSnapshot] = buffers.0.as_slice();
        proof {
            assert(players.deep_view() =~= snapshot_views(self@.table));
        }
        let frame: Vec<u8> = slice_to_vec(
            self.snapshot_encoder.encode_snapshot(
                self.tick.0,
                server_time_ms,
                players,
                buffers.1.as_slice(),
                projectiles.as_slice(),
                event_vec_as_slice(&self.pending_snapshot_events),
            ),
        );
        event_vec_clear(&mut self.pending_snapshot_events);
        Some(frame)
    }
}

/// Whether a frame for `to` goes to the player `id` of the room.
pub open spec fn receives(to: Recipients, id: u64) -> bool {
    match to {
        Recipients::All => true,
        Recipients::AllExcept(skip) => id != skip.0,
        Recipients::Only(only) => id == only.0,
    }
}

/// The ids of the players among `players` who are to get a frame for `to`,
/// in table order.
pub open spec fn recipients_among(players: Seq<PlayerConnView>, to: Recipients) -> Seq<u64> {
    players.filter(|p: PlayerConnView| receives(to, p.id)).map_values(|p: PlayerConnView| p.id)
}

impl RoomTask {
    /// The players of the room who are to get a frame for `to`, in table order.
    pub fn recipients(&self, to: Recipients) -> (ids: Vec<u64>)
        ensures
            ids@ == recipients_among(self@.table.players, to),
    {
        let conns: &[PlayerConn] = self.player_store.conns();
        let ghost players = self@.table.players;
        let mut ids: Vec<u64> = Vec::new();
        let mut i: usize = 0;
        proof {
            assert(players.take(0) =~= Seq::<PlayerConnView>::empty());
            lemma_recipients_empty(to);
        }
        while i < conns.len()
            invariant
                i <= conns@.len(),
                conns@.len() == players.len(),
                forall|k: int| 0 <= k < conns@.len() ==> (#[trigger] conns@[k])@ == players[k],
                ids@ == recipients_among(players.take(i as int), to),
            decreases conns@.len() - i,
        {
            let id: u64 = conns[i].id.0;
            let wanted: bool = match to {
                Recipients::All => true,
                Recipients::AllExcept(skip) => id != skip.0,
                Recipients::Only(only) => id == only.0,
            };
            proof {
                lemma_recipients_push(players.take(i as int), players[i as int], to);
                assert(players.take(i as int).push(players[i as int]) =~= players.take(i + 1));
            }
            if wanted {
                ids.push(id);
            }
            i = i + 1;
        }
        assert(players.take(players.len() as int) =~= players);
        ids
    }
}

/// Nobody is to get a frame in a room without players.
pub proof fn lemma_recipients_empty(to: Recipients)
    ensures
        recipients_among(Seq::<PlayerConnView>::empty(), to) == Seq::<u64>::empty(),
{
    reveal(Seq::filter);
    assert(recipients_among(Seq::<PlayerConnView>::empty(), to) =~= Seq::<u64>::empty());
}

/// One more player in the room is one more recipient where the frame is for it.
pub proof fn lemma_recipients_push(players: Seq<PlayerConnView>, last: PlayerConnView, to: Recipients)
    ensures
        recipients_among(players.push(last), to) == if receives(to, last.id) {
            recipients_among(players, to).push(last.id)
        } else {
            recipients_among(players, to)
        },
{
    reveal(Seq::filter);
    assert(players.push(last).drop_last() =~= players);
    let kept = players.filter(|p: PlayerConnView| receives(to, p.id));
    if receives(to, last.id) {
        assert(kept.push(last).map_values(|p: PlayerConnView| p.id) =~= kept.map_values(
            |p: PlayerConnView| p.id,
        ).push(last.id));
    }
}

/// A move leaves no ghost: once the room that a player was in has handled
/// its leave and another room has taken it in, the first room no longer
/// holds the player and the second does.
pub proof fn lemma_move_leaves_no_ghost(
    source: RoomView,
    source_after: RoomView,
    left: CmdOutcome,
    target: RoomView,
    target_after: RoomView,
    joined: CmdOutcome,
    player_id: PlayerId,
    username: Seq<char>,
    left_at_ms: u64,
    joined_at_ms: u64,
)
    requires
        leave_done(source, player_id, None, left_at_ms, source_after, left),
        join_done(target, player_id, username, joined_at_ms, target_after, joined),
        joined.reply matches Reply::Join(Ok(_)),
        target_after.wf(),
    ensures
        !source_after.table.has(player_id.0),
        target_after.table.has(player_id.0),
{
    if source.table.has(player_id.0) {
        let mid = choose|mid: RoomView|
            #![trigger mid.emptied()]
            removal_effect(source, player_id.0, left_at_ms, mid) && source_after == mid.emptied();
        assert(source_after.table == mid.table);
    }
    if !target.table.has(player_id.0) {
        let last = target_after.table.players.len() - 1;
        assert(target_after.table.players[last].id == player_id.0);
    }
}

} // verus!
