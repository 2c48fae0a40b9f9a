//! The registry of rooms: which rooms live, under which names, and which
//! room each player is in. The registry decides; the caller creates, asks
//! and closes the rooms themselves.

use std::collections::HashMap;
use vstd::prelude::*;
use vstd::utf8::encode_utf8;
use crate::constants::ROOM_MAX_PLAYERS_HARD_CAP;
use crate::encode::encode_join_rejected;
use crate::frames::reason_frame;
use crate::room::{JoinError, PlayerId, RoomConfig, RoomId};
use crate::text::str_eq;
use crate::trusted::new_room_id;

verus! {

broadcast use vstd::std_specs::hash::group_hash_axioms;

/// Why the registry did not do what it was asked.
#[derive(Clone, Copy, Debug, PartialEq, Eq, Structural)]
pub enum ManagerError {
    /// No room has this id or name.
    RoomNotFound,
    /// A room of this name lives already.
    RoomNameAlreadyExists,
    /// A room may hold 1 to 8 players.
    InvalidMaxPlayers,
    /// The id drawn for a new room is the id of a living room.
    RoomIdTaken,
}

impl ManagerError {
    pub open spec fn spec_message(self) -> Seq<char> {
        match self {
            Self::RoomNotFound => "room_not_found"@,
            Self::RoomNameAlreadyExists => "room_name_already_exists"@,
            Self::InvalidMaxPlayers => "maxPlayers must be 1..=8"@,
            Self::RoomIdTaken => "room_id_taken"@,
        }
    }

    /// The error as an administrator reads it.
    pub fn message(self) -> (s: &'static str)
        ensures
            s@ == self.spec_message(),
    {
        match self {
            Self::RoomNotFound => "room_not_found",
            Self::RoomNameAlreadyExists => "room_name_already_exists",
            Self::InvalidMaxPlayers => "maxPlayers must be 1..=8",
            Self::RoomIdTaken => "room_id_taken",
        }
    }
}

/// Counters over the life of a server. Each starts over after the largest `u64`.
#[derive(Clone, Copy, Debug, Default, PartialEq, Eq, Structural)]
pub struct RoomMetrics {
    pub rooms_created_total: u64,
    pub rooms_closed_total: u64,
    pub players_joined_total: u64,
    pub players_left_total: u64,
}

/// A counter after one more event.
pub open spec fn bumped(n: u64) -> u64 {
    if n == u64::MAX {
        0
    } else {
        (n + 1) as u64
    }
}

/// A living room as the registry knows it.
#[derive(Clone, Debug, PartialEq)]
pub struct RoomEntry {
    pub id: RoomId,
    pub name: String,
}

/// The model of a [`RoomEntry`].
pub ghost struct RoomEntryView {
    pub id: Seq<char>,
    pub name: Seq<char>,
}

impl View for RoomEntry {
    type V = RoomEntryView;

    open spec fn view(&self) -> RoomEntryView {
        RoomEntryView { id: self.id@, name: self.name@ }
    }
}

impl DeepView for RoomEntry {
    type V = RoomEntryView;

    open spec fn deep_view(&self) -> RoomEntryView {
        self@
    }
}

/// What the registry holds: the living rooms, the id of the room of each
/// player whom it has in a room, and its counts.
pub ghost struct ManagerView {
    pub rooms: Seq<RoomEntryView>,
    pub members: Map<u64, Seq<char>>,
    pub metrics: RoomMetrics,
}

impl ManagerView {
    /// No two rooms share an id or a name, and the players in rooms can be
    /// counted.
    pub open spec fn wf(self) -> bool {
        &&& forall|i: int, j: int|
            0 <= i < j < self.rooms.len() ==> self.rooms[i].id != self.rooms[j].id
                && self.rooms[i].name != self.rooms[j].name
        &&& self.members.dom().finite()
    }

    /// Whether a room with this id lives.
    pub open spec fn has_id(self, id: Seq<char>) -> bool {
        exists|i: int| 0 <= i < self.rooms.len() && #[trigger] self.rooms[i].id == id
    }

    /// Whether a room with this name lives.
    pub open spec fn has_name(self, name: Seq<char>) -> bool {
        exists|i: int| 0 <= i < self.rooms.len() && #[trigger] self.rooms[i].name == name
    }

    /// Whether `room_ref` stands for the room at position `i` where ids go
    /// before names: the room has that id, or no room has and the room has
    /// that name.
    pub open spec fn resolves_id_first(self, room_ref: Seq<char>, i: int) -> bool {
        &&& 0 <= i < self.rooms.len()
        &&& self.rooms[i].id == room_ref || (!self.has_id(room_ref) && self.rooms[i].name
            == room_ref)
    }

    /// Whether `room_ref` stands for the room at position `i` where names go
    /// before ids: the room has that name, or no room has and the room has
    /// that id.
    pub open spec fn resolves_name_first(self, room_ref: Seq<char>, i: int) -> bool {
        &&& 0 <= i < self.rooms.len()
        &&& self.rooms[i].name == room_ref || (!self.has_name(room_ref) && self.rooms[i].id
            == room_ref)
    }

    /// Whether `room_ref` stands for a room at all.
    pub open spec fn knows(self, room_ref: Seq<char>) -> bool {
        self.has_id(room_ref) || self.has_name(room_ref)
    }

    /// Whether a living room has an id of the length of the ids that are
    /// drawn for new rooms, 32 characters. Where none has, no id that is
    /// drawn can be the id of a living room.
    pub open spec fn has_drawn_id(self) -> bool {
        exists|i: int| 0 <= i < self.rooms.len() && (#[trigger] self.rooms[i]).id.len() == 32
    }

    /// Whether the registry has the player in a room.
    pub open spec fn is_member(self, player_id: u64) -> bool {
        self.members.contains_key(player_id)
    }

    /// Whether the registry has the player in the room `room_id`.
    pub open spec fn member_of(self, player_id: u64, room_id: Seq<char>) -> bool {
        self.members.contains_key(player_id) && self.members[player_id] == room_id
    }
}

/// The memberships in rooms other than `room_id`.
pub open spec fn in_other_rooms(members: Map<u64, Seq<char>>, room_id: Seq<char>) -> Map<
    u64,
    Seq<char>,
> {
    Map::new(
        |p: u64| members.contains_key(p) && members[p] != room_id,
        |p: u64| members[p],
    )
}

/// Whether a room may hold `n` players: 1 to 8.
pub open spec fn valid_max_players(n: usize) -> bool {
    1 <= n <= ROOM_MAX_PLAYERS_HARD_CAP
}

/// The registry of rooms. The living rooms stand in one list, each with
/// its id and its name, and are found by a search of it. Ids and names are
/// strings, and vstd specifies a hash map only for keys whose hashing it
/// models, which are integers: of a map keyed by strings nothing could be
/// proved. That no two rooms share an id or a name is the registry's
/// invariant instead. The players are keyed by their number.
pub struct RoomManager {
    rooms: Vec<RoomEntry>,
    player_rooms: HashMap<u64, RoomId>,
    metrics: RoomMetrics,
}

impl View for RoomManager {
    type V = ManagerView;

    closed spec fn view(&self) -> ManagerView {
        ManagerView {
            rooms: self.rooms.deep_view(),
            members: self.player_rooms@.map_values(|room: RoomId| room@),
            metrics: self.metrics,
        }
    }
}

impl RoomManager {
    /// What holds of a registry: no two rooms share an id or a name.
    pub open spec fn wf(&self) -> bool {
        self@.wf()
    }

    /// A registry without rooms, players or counts.
    pub fn new() -> (manager: Self)
        ensures
            manager.wf(),
            manager@.rooms.len() == 0,
            manager@.members == Map::<u64, Seq<char>>::empty(),
            manager@.metrics == (RoomMetrics {
                rooms_created_total: 0,
                rooms_closed_total: 0,
                players_joined_total: 0,
                players_left_total: 0,
            }),
    {
        let manager = RoomManager {
            rooms: Vec::new(),
            player_rooms: HashMap::new(),
            metrics: RoomMetrics {
                rooms_created_total: 0,
                rooms_closed_total: 0,
                players_joined_total: 0,
                players_left_total: 0,
            },
        };
        assert(manager@.members =~= Map::<u64, Seq<char>>::empty());
        manager
    }

    /// The counts of the registry.
    pub fn metrics(&self) -> (metrics: RoomMetrics)
        ensures
            metrics == self@.metrics,
    {
        self.metrics
    }

    /// How many rooms live.
    pub fn current_rooms(&self) -> (n: usize)
        ensures
            n == self@.rooms.len(),
    {
        self.rooms.len()
    }

    /// How many players the registry has in a room.
    pub fn current_players(&self) -> (n: usize)
        ensures
            n == self@.members.len(),
    {
        assert(self@.members.dom() =~= self.player_rooms@.dom());
        self.player_rooms.len()
    }

    /// The view of the room at position `i` is the view of the entry there.
    proof fn lemma_room_view(&self, i: int)
        requires
            0 <= i < self.rooms@.len(),
        ensures
            self@.rooms.len() == self.rooms@.len(),
            self@.rooms[i] == self.rooms@[i]@,
    {
    }

    /// The position of the first room with this id.
    fn find_by_id(&self, id: &str) -> (found: Option<usize>)
        ensures
            found is Some <==> self@.has_id(id@),
            found matches Some(i) ==> i < self@.rooms.len() && self@.rooms[i as int].id == id@,
    {
        let mut i: usize = 0;
        while i < self.rooms.len()
            invariant
                i <= self@.rooms.len(),
                forall|k: int| 0 <= k < i ==> self@.rooms[k].id != id@,
            decreases self@.rooms.len() - i,
        {
            proof {
                self.lemma_room_view(i as int);
            }
            if str_eq(self.rooms[i].id.as_str(), id) {
                assert(self@.rooms[i as int].id == id@);
                return Some(i);
            }
            i = i + 1;
        }
        None
    }

    /// The position of the first room with this name.
    fn find_by_name(&self, name: &str) -> (found: Option<usize>)
        ensures
            found is Some <==> self@.has_name(name@),
            found matches Some(i) ==> i < self@.rooms.len() && self@.rooms[i as int].name
                == name@,
    {
        let mut i: usize = 0;
        while i < self.rooms.len()
            invariant
                i <= self@.rooms.len(),
                forall|k: int| 0 <= k < i ==> self@.rooms[k].name != name@,
            decreases self@.rooms.len() - i,
        {
            proof {
                self.lemma_room_view(i as int);
            }
            if str_eq(self.rooms[i].name.as_str(), name) {
                assert(self@.rooms[i as int].name == name@);
                return Some(i);
            }
            i = i + 1;
        }
        None
    }

    /// The position of the room that `room_ref` stands for, ids before names.
    fn position_id_first(&self, room_ref: &str) -> (found: Option<usize>)
        ensures
            found is Some <==> self@.knows(room_ref@),
            found matches Some(i) ==> self@.resolves_id_first(room_ref@, i as int),
    {
        match self.find_by_id(room_ref) {
            Some(i) => Some(i),
            None => self.find_by_name(room_ref),
        }
    }

    /// The position of the room that `room_ref` stands for, names before ids.
    fn position_name_first(&self, room_ref: &str) -> (found: Option<usize>)
        ensures
            found is Some <==> self@.knows(room_ref@),
            found matches Some(i) ==> self@.resolves_name_first(room_ref@, i as int),
    {
        match self.find_by_name(room_ref) {
            Some(i) => Some(i),
            None => self.find_by_id(room_ref),
        }
    }

    /// The id of the room that `room_ref` stands for: the room of that id,
    /// or else the room of that name.
    pub fn get_room_by_ref(&self, room_ref: &str) -> (room: Option<RoomId>)
        ensures
            room is Some <==> self@.knows(room_ref@),
            room matches Some(id) ==> exists|i: int|
                #![trigger self@.rooms[i]]
                self@.resolves_id_first(room_ref@, i) && self@.rooms[i].id == id@,
    {
        match self.position_id_first(room_ref) {
            Some(i) => {
                proof {
                    self.lemma_room_view(i as int);
                }
                Some(self.rooms[i].id.duplicate())
            },
            None => None,
        }
    }

    /// Takes a new room into the registry under the id `id`. Refused are, in
    /// this order, a player limit that is not 1 to 8, a name that a living
    /// room has, and an id that a living room has.
    pub fn create_room_with_id(&mut self, config: &RoomConfig, id: String) -> (created: Result<
        RoomId,
        ManagerError,
    >)
        requires
            old(self).wf(),
        ensures
            final(self).wf(),
            !valid_max_players(config.max_players) ==> created == Err::<RoomId, ManagerError>(
                ManagerError::InvalidMaxPlayers,
            ),
            valid_max_players(config.max_players) && old(self)@.has_name(config.name@) ==> created
                == Err::<RoomId, ManagerError>(ManagerError::RoomNameAlreadyExists),
            valid_max_players(config.max_players) && !old(self)@.has_name(config.name@) && old(self)@.has_id(id@) ==> created == Err::<RoomId, ManagerError>(ManagerError::RoomIdTaken),
            valid_max_players(config.max_players) && !old(self)@.has_name(config.name@) && !old(self)@.has_id(id@) ==> created is Ok,
            created is Err ==> final(self)@ == old(self)@,
            created matches Ok(room_id) ==> room_id@ == id@ && final(self)@ == (ManagerView {
                rooms: old(self)@.rooms.push(RoomEntryView { id: id@, name: config.name@ }),
                metrics: RoomMetrics {
                    rooms_created_total: bumped(old(self)@.metrics.rooms_created_total),
                    ..old(self)@.metrics
                },
                ..old(self)@
            }),
    {
        if config.max_players == 0 || config.max_players > ROOM_MAX_PLAYERS_HARD_CAP {
            return Err(ManagerError::InvalidMaxPlayers);
        }
        if self.find_by_name(config.name.as_str()).is_some() {
            return Err(ManagerError::RoomNameAlreadyExists);
        }
        if self.find_by_id(id.as_str()).is_some() {
            return Err(ManagerError::RoomIdTaken);
        }
        let ghost before = self.rooms.deep_view();
        let room_id: RoomId = RoomId(id);
        self.rooms.push(RoomEntry { id: room_id.duplicate(), name: config.name.clone() });
        self.metrics.rooms_created_total = self.metrics.rooms_created_total.wrapping_add(1);
        proof {
            assert(self.rooms.deep_view() =~= before.push(
                RoomEntryView { id: room_id@, name: config.name@ },
            ));
        }
        Ok(room_id)
    }

    /// Takes a new room into the registry under an id that is drawn for it.
    /// A player limit that is not 1 to 8 is refused, and then a name that a
    /// living room has; of a room that passes both, only the id that was
    /// drawn can stand in the way, where a living room has it. The id has
    /// 32 characters, so the room is taken in wherever no living room has
    /// an id of that length.
    pub fn create_room(&mut self, config: &RoomConfig) -> (created: Result<RoomId, ManagerError>)
        requires
            old(self).wf(),
        ensures
            final(self).wf(),
            !valid_max_players(config.max_players) ==> created == Err::<RoomId, ManagerError>(
                ManagerError::InvalidMaxPlayers,
            ) && final(self)@ == old(self)@,
            valid_max_players(config.max_players) && old(self)@.has_name(config.name@) ==> created
                == Err::<RoomId, ManagerError>(ManagerError::RoomNameAlreadyExists) && final(self)@
                == old(self)@,
            valid_max_players(config.max_players) && !old(self)@.has_name(config.name@)
                && !old(self)@.has_drawn_id() ==> created is Ok,
            created == Err::<RoomId, ManagerError>(ManagerError::RoomIdTaken)
                ==> old(self)@.has_drawn_id(),
            valid_max_players(config.max_players) && !old(self)@.has_name(config.name@) ==> {
                match created {
                    Ok(room_id) => {
                        &&& room_id@.len() == 32
                        &&& !old(self)@.has_id(room_id@)
                        &&& final(self)@ == (ManagerView {
                            rooms: old(self)@.rooms.push(
                                RoomEntryView { id: room_id@, name: config.name@ },
                            ),
                            metrics: RoomMetrics {
                                rooms_created_total: bumped(
                                    old(self)@.metrics.rooms_created_total,
                                ),
                                ..old(self)@.metrics
                            },
                            ..old(self)@
                        })
                    },
                    Err(e) => e == ManagerError::RoomIdTaken && final(self)@ == old(self)@,
                }
            },
    {
        let id: String = new_room_id();
        proof {
            if old(self)@.has_id(id@) {
                let i = choose|i: int|
                    0 <= i < old(self)@.rooms.len() && #[trigger] old(self)@.rooms[i].id == id@;
                assert(old(self)@.rooms[i].id.len() == 32);
            }
        }
        self.create_room_with_id(config, id)
    }

    /// The room of the name that `config` gives, where one lives; else a
    /// new room under the id `id`. Says whether the room is new.
    pub fn get_or_create_room_with_id(&mut self, config: &RoomConfig, id: String) -> (room: Result<
        (RoomId, bool),
        ManagerError,
    >)
        requires
            old(self).wf(),
        ensures
            final(self).wf(),
            !valid_max_players(config.max_players) ==> room == Err::<(RoomId, bool), ManagerError>(
                ManagerError::InvalidMaxPlayers,
            ) && final(self)@ == old(self)@,
            valid_max_players(config.max_players) && old(self)@.has_name(config.name@) ==> {
                &&& final(self)@ == old(self)@
                &&& room matches Ok((room_id, is_new)) && !is_new && exists|i: int|
                    #![trigger old(self)@.rooms[i]]
                    0 <= i < old(self)@.rooms.len() && old(self)@.rooms[i].name == config.name@
                        && old(self)@.rooms[i].id == room_id@
            },
            valid_max_players(config.max_players) && !old(self)@.has_name(config.name@) ==> {
                if old(self)@.has_id(id@) {
                    room == Err::<(RoomId, bool), ManagerError>(ManagerError::RoomIdTaken) && final(self)@ == old(self)@
                } else {
                    &&& room matches Ok((room_id, is_new)) && is_new && room_id@ == id@
                    &&& final(self)@ == (ManagerView {
                        rooms: old(self)@.rooms.push(
                            RoomEntryView { id: id@, name: config.name@ },
                        ),
                        metrics: RoomMetrics {
                            rooms_created_total: bumped(old(self)@.metrics.rooms_created_total),
                            ..old(self)@.metrics
                        },
                        ..old(self)@
                    })
                }
            },
    {
        if config.max_players == 0 || config.max_players > ROOM_MAX_PLAYERS_HARD_CAP {
            return Err(ManagerError::InvalidMaxPlayers);
        }
        match self.find_by_name(config.name.as_str()) {
            Some(i) => {
                proof {
                    self.lemma_room_view(i as int);
                }
                Ok((self.rooms[i].id.duplicate(), false))
            },
            None => match self.create_room_with_id(config, id) {
                Ok(room_id) => Ok((room_id, true)),
                Err(e) => Err(e),
            },
        }
    }

    /// The room of the name that `config` gives, where one lives; else a
    /// new room under an id that is drawn for it. The id has 32 characters,
    /// so the new room is taken in wherever no living room has an id of
    /// that length.
    pub fn get_or_create_room(&mut self, config: &RoomConfig) -> (room: Result<
        (RoomId, bool),
        ManagerError,
    >)
        requires
            old(self).wf(),
        ensures
            final(self).wf(),
            !valid_max_players(config.max_players) ==> room == Err::<(RoomId, bool), ManagerError>(
                ManagerError::InvalidMaxPlayers,
            ) && final(self)@ == old(self)@,
            valid_max_players(config.max_players) && old(self)@.has_name(config.name@) ==> {
                &&& final(self)@ == old(self)@
                &&& room matches Ok((room_id, is_new)) && !is_new && exists|i: int|
                    #![trigger old(self)@.rooms[i]]
                    0 <= i < old(self)@.rooms.len() && old(self)@.rooms[i].name == config.name@
                        && old(self)@.rooms[i].id == room_id@
            },
            valid_max_players(config.max_players) && !old(self)@.has_drawn_id() ==> room is Ok,
            room == Err::<(RoomId, bool), ManagerError>(ManagerError::RoomIdTaken)
                ==> old(self)@.has_drawn_id(),
            valid_max_players(config.max_players) && !old(self)@.has_name(config.name@) ==> {
                match room {
                    Ok((room_id, is_new)) => {
                        &&& is_new
                        &&& room_id@.len() == 32
                        &&& !old(self)@.has_id(room_id@)
                        &&& final(self)@ == (ManagerView {
                            rooms: old(self)@.rooms.push(
                                RoomEntryView { id: room_id@, name: config.name@ },
                            ),
                            metrics: RoomMetrics {
                                rooms_created_total: bumped(
                                    old(self)@.metrics.rooms_created_total,
                                ),
                                ..old(self)@.metrics
                            },
                            ..old(self)@
                        })
                    },
                    Err(e) => e == ManagerError::RoomIdTaken && final(self)@ == old(self)@,
                }
            },
    {
        let id: String = new_room_id();
        proof {
            if old(self)@.has_id(id@) {
                let i = choose|i: int|
                    0 <= i < old(self)@.rooms.len() && #[trigger] old(self)@.rooms[i].id == id@;
                assert(old(self)@.rooms[i].id.len() == 32);
            }
        }
        self.get_or_create_room_with_id(config, id)
    }
}

impl RoomManager {
    /// The room that the registry has the player in.
    pub fn room_of(&self, player_id: PlayerId) -> (room: Option<RoomId>)
        ensures
            room is Some <==> self@.is_member(player_id.0),
            room matches Some(id) ==> self@.member_of(player_id.0, id@),
    {
        match self.player_rooms.get(&player_id.0) {
            Some(id) => Some(id.duplicate()),
            None => None,
        }
    }

    /// Clears the membership of the player. Where the player was in a
    /// living room, that room is handed back, to be told that the player
    /// leaves, and the leave is counted.
    pub fn leave_player(&mut self, player_id: PlayerId) -> (left: Option<RoomId>)
        requires
            old(self).wf(),
        ensures
            final(self).wf(),
            !final(self)@.is_member(player_id.0),
            final(self)@.members == old(self)@.members.remove(player_id.0),
            final(self)@.rooms == old(self)@.rooms,
            left is Some <==> old(self)@.is_member(player_id.0) && old(self)@.has_id(
                old(self)@.members[player_id.0],
            ),
            left matches Some(id) ==> old(self)@.member_of(player_id.0, id@),
            final(self)@.metrics == if left is Some {
                RoomMetrics {
                    players_left_total: bumped(old(self)@.metrics.players_left_total),
                    ..old(self)@.metrics
                }
            } else {
                old(self)@.metrics
            },
    {
        let gone: Option<RoomId> = self.player_rooms.remove(&player_id.0);
        proof {
            assert(self@.members =~= old(self)@.members.remove(player_id.0));
            assert(self@.rooms == old(self)@.rooms);
        }
        match gone {
            None => None,
            Some(room_id) => {
                if self.find_by_id(room_id.as_str()).is_some() {
                    self.metrics.players_left_total = self.metrics.players_left_total.wrapping_add(
                        1,
                    );
                    proof {
                        assert(self@.members =~= old(self)@.members.remove(player_id.0));
                        assert(self@.rooms == old(self)@.rooms);
                    }
                    Some(room_id)
                } else {
                    None
                }
            },
        }
    }
}

impl RoomManager {
    /// Takes note of what a room answered to a join. Where the room took
    /// the player in, the registry has the player in that room from now on,
    /// the join is counted, and the room-state frame is handed on. Where
    /// the room turned the player away, the frame that tells the player why
    /// is handed back.
    pub fn complete_join(
        &mut self,
        player_id: PlayerId,
        target: &RoomId,
        answer: Result<Vec<u8>, JoinError>,
    ) -> (result: Result<Vec<u8>, Vec<u8>>)
        requires
            old(self).wf(),
        ensures
            final(self).wf(),
            final(self)@.rooms == old(self)@.rooms,
            match answer {
                Ok(room_state) => {
                    &&& result == Ok::<Vec<u8>, Vec<u8>>(room_state)
                    &&& final(self)@.members == old(self)@.members.insert(player_id.0, target@)
                    &&& final(self)@.member_of(player_id.0, target@)
                    &&& final(self)@.metrics == (RoomMetrics {
                        players_joined_total: bumped(old(self)@.metrics.players_joined_total),
                        ..old(self)@.metrics
                    })
                },
                Err(why) => {
                    &&& result matches Err(frame) && frame@ == reason_frame(
                        crate::constants::MSG_JOIN_REJECTED,
                        encode_utf8(why.spec_reason()),
                    )
                    &&& final(self)@ == old(self)@
                },
            },
    {
        match answer {
            Ok(room_state) => {
                self.player_rooms.insert(player_id.0, target.duplicate());
                self.metrics.players_joined_total = self.metrics.players_joined_total.wrapping_add(
                    1,
                );
                proof {
                    assert(self@.members =~= old(self)@.members.insert(player_id.0, target@));
                    assert(self@.rooms == old(self)@.rooms);
                }
                Ok(room_state)
            },
            Err(why) => Err(encode_join_rejected(why.reason())),
        }
    }

    /// The room that a move of a player aims at, or the frame that tells
    /// the player that there is no such room.
    pub fn move_target(&self, target_room_ref: &str) -> (target: Result<RoomId, Vec<u8>>)
        ensures
            target is Ok <==> self@.knows(target_room_ref@),
            target matches Ok(id) ==> exists|i: int|
                #![trigger self@.rooms[i]]
                self@.resolves_id_first(target_room_ref@, i) && self@.rooms[i].id == id@,
            target matches Err(frame) ==> frame@ == reason_frame(
                crate::constants::MSG_JOIN_REJECTED,
                encode_utf8("room_not_found"@),
            ),
    {
        match self.get_room_by_ref(target_room_ref) {
            Some(id) => Ok(id),
            None => Err(encode_join_rejected("room_not_found")),
        }
    }

    /// The players whom the registry has in a room, each once.
    fn players_in_rooms(&self) -> (players: Vec<u64>)
        ensures
            players@.to_set() == self.player_rooms@.dom(),
            players@.no_duplicates(),
    {
        let mut players: Vec<u64> = Vec::new();
        for p in it: self.player_rooms.keys()
            invariant
                players@.len() == it.index(),
                forall|i: int| 0 <= i < players@.len() ==> players@[i] == *it.seq()[i],
                it.seq().unref().to_set() == self.player_rooms@.dom(),
                it.seq().unref().no_duplicates(),
                it.index() == it.seq().len() ==> players@ =~= it.seq().unref(),
        {
            players.push(*p);
        }
        players
    }

    /// Takes the room that `room_ref` stands for out of the registry, names
    /// before ids, together with the memberships of its players, and hands
    /// back its id so that the room can be told to close.
    pub fn close_room(&mut self, room_ref: &str) -> (closed: Result<RoomId, ManagerError>)
        requires
            old(self).wf(),
        ensures
            final(self).wf(),
            !old(self)@.knows(room_ref@) ==> closed == Err::<RoomId, ManagerError>(
                ManagerError::RoomNotFound,
            ) && final(self)@ == old(self)@,
            old(self)@.knows(room_ref@) ==> (closed matches Ok(id) && exists|i: int|
                #![trigger old(self)@.rooms[i]]
                {
                    &&& old(self)@.resolves_name_first(room_ref@, i)
                    &&& old(self)@.rooms[i].id == id@
                    &&& final(self)@ == (ManagerView {
                        rooms: old(self)@.rooms.remove(i),
                        members: in_other_rooms(old(self)@.members, id@),
                        ..old(self)@
                    })
                }),
    {
        let i: usize = match self.position_name_first(room_ref) {
            Some(i) => i,
            None => {
                return Err(ManagerError::RoomNotFound);
            },
        };
        let ghost rooms_before = self@.rooms;
        let ghost members_before = self@.members;
        let entry: RoomEntry = self.rooms.remove(i);
        let ghost rooms_kept = self.rooms;
        proof {
            assert(self.rooms.deep_view() =~= rooms_before.remove(i as int));
            assert(entry@ == rooms_before[i as int]);
            assert forall|a: int, b: int| 0 <= a < b < self@.rooms.len() implies self@.rooms[a].id
                != self@.rooms[b].id && self@.rooms[a].name != self@.rooms[b].name by {
                let a0 = if a < i { a } else { a + 1 };
                let b0 = if b < i { b } else { b + 1 };
                assert(self@.rooms[a] == rooms_before[a0]);
                assert(self@.rooms[b] == rooms_before[b0]);
            }
        }
        let players: Vec<u64> = self.players_in_rooms();
        let ghost held = self.player_rooms@;
        let mut k: usize = 0;
        while k < players.len()
            invariant
                k <= players@.len(),
                players@.to_set() == held.dom(),
                self.rooms == rooms_kept,
                self.metrics == old(self).metrics,
                forall|p: u64|
                    self.player_rooms@.contains_key(p) <==> held.contains_key(p) && (held[p]@
                        != entry@.id || !players@.take(k as int).contains(p)),
                forall|p: u64| self.player_rooms@.contains_key(p) ==> self.player_rooms@[p] == held[p],
            decreases players@.len() - k,
        {
            let p: u64 = players[k];
            let ghost seen = players@.take(k as int);
            proof {
                assert(players@.take(k + 1) =~= seen.push(p));
                assert(players@.to_set().contains(p));
            }
            let there: bool = match self.player_rooms.get(&p) {
                Some(room_id) => str_eq(room_id.as_str(), entry.id.as_str()),
                None => false,
            };
            if there {
                self.player_rooms.remove(&p);
            }
            proof {
                let next = players@.take(k + 1);
                assert(next[k as int] == p);
                assert forall|q: u64|
                    self.player_rooms@.contains_key(q) <==> held.contains_key(q) && (held[q]@
                        != entry@.id || !next.contains(q)) by {
                    if seen.contains(q) {
                        let j = choose|j: int| 0 <= j < seen.len() && seen[j] == q;
                        assert(next[j] == q);
                    }
                    if next.contains(q) && q != p {
                        let j = choose|j: int| 0 <= j < next.len() && next[j] == q;
                        assert(seen[j] == q);
                    }
                }
            }
            k = k + 1;
        }
        proof {
            assert(players@.take(players@.len() as int) =~= players@);
            assert forall|p: u64| held.contains_key(p) implies players@.contains(p) by {
                assert(players@.to_set().contains(p));
            }
            assert(self@.members.dom() =~= in_other_rooms(members_before, entry@.id).dom());
            assert(self@.members =~= in_other_rooms(members_before, entry@.id));
            assert(self@.members.dom() =~= self.player_rooms@.dom());
        }
        Ok(entry.id)
    }

    /// Counts a room that has been told to close.
    pub fn note_room_closed(&mut self)
        ensures
            final(self)@ == (ManagerView {
                metrics: RoomMetrics {
                    rooms_closed_total: bumped(old(self)@.metrics.rooms_closed_total),
                    ..old(self)@.metrics
                },
                ..old(self)@
            }),
    {
        self.metrics.rooms_closed_total = self.metrics.rooms_closed_total.wrapping_add(1);
    }

    /// Gives the room that `room_ref` stands for, names before ids, a new
    /// name, and hands back its id so that the room can be told. A name
    /// that a living room has is refused, also where it is the room's own.
    pub fn rename_room(&mut self, room_ref: &str, new_name: String) -> (renamed: Result<
        RoomId,
        ManagerError,
    >)
        requires
            old(self).wf(),
        ensures
            final(self).wf(),
            old(self)@.has_name(new_name@) ==> renamed == Err::<RoomId, ManagerError>(
                ManagerError::RoomNameAlreadyExists,
            ) && final(self)@ == old(self)@,
            !old(self)@.has_name(new_name@) && !old(self)@.knows(room_ref@) ==> renamed == Err::<
                RoomId,
                ManagerError,
            >(ManagerError::RoomNotFound) && final(self)@ == old(self)@,
            !old(self)@.has_name(new_name@) && old(self)@.knows(room_ref@) ==> (renamed matches Ok(
                id,
            ) && exists|i: int|
                #![trigger old(self)@.rooms[i]]
                {
                    &&& old(self)@.resolves_name_first(room_ref@, i)
                    &&& old(self)@.rooms[i].id == id@
                    &&& final(self)@ == (ManagerView {
                        rooms: old(self)@.rooms.update(
                            i,
                            RoomEntryView { id: id@, name: new_name@ },
                        ),
                        ..old(self)@
                    })
                }),
    {
        if self.find_by_name(new_name.as_str()).is_some() {
            return Err(ManagerError::RoomNameAlreadyExists);
        }
        let i: usize = match self.position_name_first(room_ref) {
            Some(i) => i,
            None => {
                return Err(ManagerError::RoomNotFound);
            },
        };
        let ghost rooms_before = self@.rooms;
        proof {
            self.lemma_room_view(i as int);
        }
        let id: RoomId = self.rooms[i].id.duplicate();
        let entry: RoomEntry = RoomEntry { id: self.rooms[i].id.duplicate(), name: new_name };
        self.rooms[i] = entry;
        proof {
            assert(self.rooms.deep_view() =~= rooms_before.update(
                i as int,
                RoomEntryView { id: id@, name: new_name@ },
            ));
            assert forall|a: int, b: int| 0 <= a < b < self@.rooms.len() implies self@.rooms[a].id
                != self@.rooms[b].id && self@.rooms[a].name != self@.rooms[b].name by {
                assert(rooms_before[a].name != new_name@);
                assert(rooms_before[b].name != new_name@);
            }
            assert(self@.members == old(self)@.members);
        }
        Ok(id)
    }

    /// The room whose player limit is to be set: a limit that is not 1 to 8
    /// is refused, then a reference that stands for no room.
    pub fn set_room_max_players(&self, room_ref: &str, n: usize) -> (room: Result<
        RoomId,
        ManagerError,
    >)
        ensures
            !valid_max_players(n) ==> room == Err::<RoomId, ManagerError>(
                ManagerError::InvalidMaxPlayers,
            ),
            valid_max_players(n) && !self@.knows(room_ref@) ==> room == Err::<RoomId, ManagerError>(
                ManagerError::RoomNotFound,
            ),
            valid_max_players(n) && self@.knows(room_ref@) ==> (room matches Ok(id) && exists|i: int|
                #![trigger self@.rooms[i]]
                self@.resolves_id_first(room_ref@, i) && self@.rooms[i].id == id@),
    {
        if n == 0 || n > ROOM_MAX_PLAYERS_HARD_CAP {
            return Err(ManagerError::InvalidMaxPlayers);
        }
        match self.get_room_by_ref(room_ref) {
            Some(id) => Ok(id),
            None => Err(ManagerError::RoomNotFound),
        }
    }

    /// The room from which a player is to be kicked.
    pub fn kick(&self, room_ref: &str) -> (room: Result<RoomId, ManagerError>)
        ensures
            !self@.knows(room_ref@) ==> room == Err::<RoomId, ManagerError>(
                ManagerError::RoomNotFound,
            ),
            self@.knows(room_ref@) ==> (room matches Ok(id) && exists|i: int|
                #![trigger self@.rooms[i]]
                self@.resolves_id_first(room_ref@, i) && self@.rooms[i].id == id@),
    {
        match self.get_room_by_ref(room_ref) {
            Some(id) => Ok(id),
            None => Err(ManagerError::RoomNotFound),
        }
    }
}

} // verus!
