//! The player table of a room: a dense list of players with an index from
//! player id to position, kept consistent through joins and swap-removes.

use std::collections::HashMap;
use vstd::prelude::*;
use crate::player::PlayerState;
use crate::room::{PlayerConn, PlayerConnView, PlayerId, PlayerInput};

verus! {

broadcast use vstd::std_specs::hash::group_hash_axioms;

/// The players of a room, each with its simulation state, in the order of
/// their joining as far as removals have left it.
pub struct PlayerStore {
    conns: Vec<PlayerConn>,
    states: Vec<PlayerState>,
    player_index: HashMap<u64, usize>,
}

/// `s` with position `idx` taken out and the last item put in its place.
pub open spec fn swap_removed<T>(s: Seq<T>, idx: int) -> Seq<T> {
    s.update(idx, s.last()).drop_last()
}

/// What a player table holds: the players and their states in table order,
/// and the index from player id to table position.
pub ghost struct Table {
    pub players: Seq<PlayerConnView>,
    pub states: Seq<PlayerState>,
    pub index: Map<u64, usize>,
}

impl Table {
    /// The table and its index agree: there is one state for each player,
    /// the index has as many entries as the table has players, every player
    /// is found under its id at its position, and every entry of the index
    /// points to the player of that id.
    pub open spec fn wf(self) -> bool {
        &&& self.states.len() == self.players.len()
        &&& self.index.dom().finite()
        &&& self.index.dom().len() == self.players.len()
        &&& forall|i: int|
            0 <= i < self.players.len() ==> {
                &&& self.index.contains_key(#[trigger] self.players[i].id)
                &&& self.index[self.players[i].id] == i
            }
        &&& forall|id: u64| #[trigger]
            self.index.contains_key(id) ==> {
                &&& self.index[id] < self.players.len()
                &&& self.players[self.index[id] as int].id == id
            }
    }

    /// Whether every state carries the id of its player.
    pub open spec fn states_named(self) -> bool {
        forall|i: int|
            0 <= i < self.states.len() ==> (#[trigger] self.states[i]).id == self.players[i].id
    }

    /// Whether the player `id` is in the table.
    pub open spec fn has(self, id: u64) -> bool {
        self.index.contains_key(id)
    }

    /// The table position of the player `id`.
    pub open spec fn position(self, id: u64) -> int {
        self.index[id] as int
    }

    /// The sequence number of the last input that was taken from the player `id`.
    pub open spec fn seq_of(self, id: u64) -> u64 {
        self.players[self.position(id)].last_input_seq
    }

    /// The table with one more player at its end, found under its id.
    pub open spec fn inserted(self, player: PlayerConnView, state: PlayerState) -> Table {
        Table {
            players: self.players.push(player),
            states: self.states.push(state),
            index: self.index.insert(player.id, self.players.len() as usize),
        }
    }
}

/// An insertion keeps the table and its index in step. A consistent table
/// that takes in a player who was not in it is consistent again: it is one
/// player longer, its index has as many entries as it has players, the new
/// player stands at the end with its state and is found there under its
/// id, and every other player is found where it was, with the connection
/// and the state that it had. Where every state carried its player's id
/// and the new one does, every state does so afterwards.
pub proof fn lemma_insert_keeps_index(table: Table, player: PlayerConnView, state: PlayerState)
    requires
        table.wf(),
        table.players.len() < usize::MAX,
        !table.has(player.id),
    ensures
        table.inserted(player, state).wf(),
        table.states_named() && state.id == player.id ==> table.inserted(
            player,
            state,
        ).states_named(),
        table.inserted(player, state).players.len() == table.players.len() + 1,
        table.inserted(player, state).index.dom().len() == table.players.len() + 1,
        table.inserted(player, state).has(player.id),
        table.inserted(player, state).position(player.id) == table.players.len(),
        table.inserted(player, state).players[table.players.len() as int] == player,
        table.inserted(player, state).states[table.players.len() as int] == state,
        forall|id: u64| #[trigger]
            table.has(id) ==> {
                &&& table.inserted(player, state).position(id) == table.position(id)
                &&& same_player(table, table.inserted(player, state), id)
            },
{
    let after = table.inserted(player, state);
    assert(after.index.dom() =~= table.index.dom().insert(player.id));
    assert forall|i: int| 0 <= i < after.players.len() implies {
        &&& after.index.contains_key(#[trigger] after.players[i].id)
        &&& after.index[after.players[i].id] == i
    } by {
        if i < table.players.len() {
            assert(table.index.contains_key(table.players[i].id));
        }
    }
    assert forall|id: u64| #[trigger] after.index.contains_key(id) implies {
        &&& after.index[id] < after.players.len()
        &&& after.players[after.index[id] as int].id == id
    } by {
        if id != player.id {
            assert(table.index.contains_key(id));
        }
    }
    if table.states_named() && state.id == player.id {
        assert forall|i: int| 0 <= i < after.states.len() implies (#[trigger] after.states[i]).id
            == after.players[i].id by {
            if i < table.states.len() {
                assert(table.states[i].id == table.players[i].id);
            }
        }
    }
}

/// Whether the player `id` is in `after` as it was in `before`: with the
/// connection and the state that it had there.
pub open spec fn same_player(before: Table, after: Table, id: u64) -> bool {
    &&& after.has(id)
    &&& after.players[after.position(id)] == before.players[before.position(id)]
    &&& after.states[after.position(id)] == before.states[before.position(id)]
}

impl View for PlayerStore {
    type V = Table;

    closed spec fn view(&self) -> Table {
        Table {
            players: self.conns.deep_view(),
            states: self.states@,
            index: self.player_index@,
        }
    }
}

impl PlayerStore {
    /// An empty table.
    pub fn new() -> (store: Self)
        ensures
            store@.wf(),
            store@.states_named(),
            store@.players == Seq::<PlayerConnView>::empty(),
            store@.states == Seq::<PlayerState>::empty(),
    {
        let store = Self { conns: Vec::new(), states: Vec::new(), player_index: HashMap::new() };
        assert(store.conns.deep_view() =~= Seq::<PlayerConnView>::empty());
        assert(store.player_index@.dom() =~= Set::<u64>::empty());
        store
    }

    pub fn len(&self) -> (n: usize)
        ensures
            n == self@.players.len(),
    {
        self.conns.len()
    }

    pub fn is_empty(&self) -> (b: bool)
        ensures
            b == (self@.players.len() == 0),
    {
        self.conns.len() == 0
    }

    /// Whether the player is in the table.
    pub fn contains(&self, player_id: PlayerId) -> (b: bool)
        ensures
            b == self@.has(player_id.0),
    {
        self.player_index.contains_key(&player_id.0)
    }

    /// The table position of the player, if it is in the table.
    pub fn index_of(&self, player_id: PlayerId) -> (idx: Option<usize>)
        requires
            self@.wf(),
        ensures
            idx is Some <==> self@.has(player_id.0),
            idx matches Some(i) ==> i == self@.position(player_id.0) && i < self@.players.len()
                && self@.players[i as int].id == player_id.0,
    {
        match self.player_index.get(&player_id.0) {
            Some(i) => Some(*i),
            None => None,
        }
    }

    /// The players in table order.
    pub fn conns(&self) -> (conns: &[PlayerConn])
        ensures
            conns@.len() == self@.players.len(),
            forall|i: int| 0 <= i < conns@.len() ==> (#[trigger] conns@[i])@ == self@.players[i],
    {
        self.conns.as_slice()
    }

    /// The simulation states in table order.
    pub fn states(&self) -> (states: &[PlayerState])
        ensures
            states@ == self@.states,
    {
        self.states.as_slice()
    }

    /// The simulation state at table position `idx`.
    pub fn state(&self, idx: usize) -> (state: PlayerState)
        requires
            idx < self@.states.len(),
        ensures
            state == self@.states[idx as int],
    {
        self.states[idx]
    }

    /// Puts `state` at table position `idx`, under the id of the player
    /// there: a state stays with its player.
    pub fn set_state(&mut self, idx: usize, state: PlayerState)
        requires
            old(self)@.wf(),
            idx < old(self)@.states.len(),
        ensures
            final(self)@.wf(),
            old(self)@.states_named() ==> final(self)@.states_named(),
            final(self)@.players == old(self)@.players,
            final(self)@.index == old(self)@.index,
            final(self)@.states == old(self)@.states.update(
                idx as int,
                PlayerState { id: old(self)@.states[idx as int].id, ..state },
            ),
    {
        let kept: PlayerState = PlayerState { id: self.states[idx].id, ..state };
        self.states[idx] = kept;
    }

    /// Puts `states` in the place of the states of the table: one for each
    /// player, in table order. Where each new state carries the id of the
    /// state that it replaces, the states carry their players' ids as before.
    pub fn replace_states(&mut self, states: Vec<PlayerState>)
        requires
            old(self)@.wf(),
            states@.len() == old(self)@.states.len(),
        ensures
            final(self)@.wf(),
            final(self)@ == (Table { states: states@, ..old(self)@ }),
            old(self)@.states_named() && (forall|i: int|
                0 <= i < states@.len() ==> (#[trigger] states@[i]).id == old(self)@.states[i].id)
                ==> final(self)@.states_named(),
    {
        self.states = states;
    }

    /// Records what the player at `idx` asks for, under sequence number `seq`.
    pub fn set_input(&mut self, idx: usize, seq: u64, input: PlayerInput)
        requires
            old(self)@.wf(),
            idx < old(self)@.players.len(),
        ensures
            final(self)@.wf(),
            old(self)@.states_named() ==> final(self)@.states_named(),
            final(self)@.states == old(self)@.states,
            final(self)@.index == old(self)@.index,
            final(self)@.players == old(self)@.players.update(
                idx as int,
                PlayerConnView { input, last_input_seq: seq, ..old(self)@.players[idx as int] },
            ),
    {
        let ghost before = self.conns.deep_view();
        let mut conn: PlayerConn = PlayerConn {
            id: self.conns[idx].id,
            username: self.conns[idx].username.clone(),
            input,
            last_input_seq: seq,
        };
        self.conns[idx] = conn;
        assert(self.conns.deep_view() =~= before.update(
            idx as int,
            PlayerConnView { input, last_input_seq: seq, ..before[idx as int] },
        ));
    }

    /// Gives the player at `idx` a new name.
    pub fn set_username(&mut self, idx: usize, username: String)
        requires
            old(self)@.wf(),
            idx < old(self)@.players.len(),
        ensures
            final(self)@.wf(),
            old(self)@.states_named() ==> final(self)@.states_named(),
            final(self)@.states == old(self)@.states,
            final(self)@.index == old(self)@.index,
            final(self)@.players == old(self)@.players.update(
                idx as int,
                PlayerConnView { username: username@, ..old(self)@.players[idx as int] },
            ),
    {
        let ghost before = self.conns.deep_view();
        let conn: PlayerConn = PlayerConn {
            id: self.conns[idx].id,
            username,
            input: self.conns[idx].input,
            last_input_seq: self.conns[idx].last_input_seq,
        };
        self.conns[idx] = conn;
        assert(self.conns.deep_view() =~= before.update(
            idx as int,
            PlayerConnView { username: username@, ..before[idx as int] },
        ));
    }

    /// Adds a player who is not in the table yet, at the end, with its
    /// state. The table is one player longer, the new player is found at
    /// the end under its id, and every other player is found where it was,
    /// with the connection and the state that it had.
    pub fn insert(&mut self, player: PlayerConn, state: PlayerState)
        requires
            old(self)@.wf(),
            !old(self)@.has(player.id.0),
        ensures
            final(self)@.wf(),
            old(self)@.states_named() && state.id == player.id.0 ==> final(self)@.states_named(),
            final(self)@ == old(self)@.inserted(player@, state),
            final(self)@.players == old(self)@.players.push(player@),
            final(self)@.states == old(self)@.states.push(state),
            final(self)@.index == old(self)@.index.insert(
                player.id.0,
                old(self)@.players.len() as usize,
            ),
            final(self)@.players.len() == old(self)@.players.len() + 1,
            final(self)@.index.dom().len() == final(self)@.players.len(),
            final(self)@.has(player.id.0),
            final(self)@.position(player.id.0) == old(self)@.players.len(),
            forall|id: u64| #[trigger]
                old(self)@.has(id) ==> {
                    &&& final(self)@.position(id) == old(self)@.position(id)
                    &&& same_player(old(self)@, final(self)@, id)
                },
    {
        let ghost before = self.conns.deep_view();
        let idx: usize = self.conns.len();
        self.player_index.insert(player.id.0, idx);
        self.conns.push(player);
        self.states.push(state);
        proof {
            assert(self.conns.deep_view() =~= before.push(player@));
            assert(self.conns@.len() == idx + 1 && self.conns@.len() == self.conns.len());
            lemma_insert_keeps_index(old(self)@, player@, state);
        }
    }

    /// Takes the player out of the table, if it is there: the last player
    /// of the table moves into its place. Says whether the player was there.
    pub fn remove(&mut self, player_id: PlayerId) -> (removed: bool)
        requires
            old(self)@.wf(),
        ensures
            final(self)@.wf(),
            old(self)@.states_named() ==> final(self)@.states_named(),
            removed == old(self)@.has(player_id.0),
            !final(self)@.has(player_id.0),
            forall|id: u64| id != player_id.0 ==> final(self)@.has(id) == old(self)@.has(id),
            ({
                let before = old(self)@;
                let after = final(self)@;
                forall|id: u64|
                    id != player_id.0 && #[trigger] before.has(id) ==> {
                        &&& after.players[after.position(id)] == before.players[before.position(id)]
                        &&& after.states[after.position(id)] == before.states[before.position(id)]
                    }
            }),
            !removed ==> {
                &&& final(self)@.players == old(self)@.players
                &&& final(self)@.states == old(self)@.states
                &&& final(self)@.index == old(self)@.index
            },
            removed ==> {
                &&& final(self)@.players == swap_removed(
                    old(self)@.players,
                    old(self)@.position(player_id.0),
                )
                &&& final(self)@.states == swap_removed(
                    old(self)@.states,
                    old(self)@.position(player_id.0),
                )
            },
    {
        let ghost before = self.conns.deep_view();
        let idx: usize = match self.player_index.remove(&player_id.0) {
            Some(idx) => idx,
            None => {
                return false;
            },
        };
        let last_idx: usize = self.conns.len() - 1;
        self.conns.swap_remove(idx);
        self.states.swap_remove(idx);
        proof {
            assert(self.conns.deep_view() =~= swap_removed(before, idx as int));
            assert(self.player_index@.dom() =~= old(self).player_index@.dom().remove(player_id.0));
        }
        if idx != last_idx {
            let moved_id: u64 = self.conns[idx].id.0;
            self.player_index.insert(moved_id, idx);
            proof {
                assert(moved_id == before[last_idx as int].id);
                assert(old(self).player_index@.contains_key(moved_id));
                assert(self.player_index@.dom() =~= old(self).player_index@.dom().remove(
                    player_id.0,
                ));
            }
        }
        true
    }
}

} // verus!
