//! The order in which rooms are listed: running rooms first, then created
//! and closing ones; among rooms of one status the fuller first; among
//! equally full ones the one that was active last first. Closed rooms are
//! not listed. Rooms that tie keep the order in which they came.

use vstd::prelude::*;
use crate::room::{RoomStatus, RoomSummary};

verus! {

/// What the place of a room in a listing depends on.
#[derive(Clone, Copy, Debug, PartialEq, Eq, Structural)]
pub struct ListKey {
    pub status: RoomStatus,
    pub current_players: usize,
    pub last_activity_at_ms: u64,
}

/// Whether a room with key `a` is listed before every room with key `b`.
pub open spec fn lists_before(a: ListKey, b: ListKey) -> bool {
    if a.status.spec_rank() != b.status.spec_rank() {
        a.status.spec_rank() < b.status.spec_rank()
    } else if a.current_players != b.current_players {
        a.current_players > b.current_players
    } else {
        a.last_activity_at_ms > b.last_activity_at_ms
    }
}

/// Whether the room at position `i` of `keys` comes before the room at
/// position `j` in the listing: by its key, or where the keys tie, by its
/// position.
pub open spec fn precedes(keys: Seq<ListKey>, i: int, j: int) -> bool {
    lists_before(keys[i], keys[j]) || (!lists_before(keys[j], keys[i]) && i < j)
}

/// Whether `order` lists the rooms of `keys`: it names each room that is
/// not closed exactly once and no other, and each room it names comes
/// before the rooms named after it.
pub open spec fn is_listing(keys: Seq<ListKey>, order: Seq<usize>) -> bool {
    &&& forall|k: int|
        0 <= k < order.len() ==> (#[trigger] order[k]) < keys.len()
            && keys[order[k] as int].status != RoomStatus::Closed
    &&& forall|i: int|
        0 <= i < keys.len() && (#[trigger] keys[i]).status != RoomStatus::Closed ==> exists|
            k: int,
        | 0 <= k < order.len() && order[k] == i
    &&& forall|k: int, l: int|
        0 <= k < l < order.len() ==> precedes(keys, #[trigger] order[k] as int, #[trigger] order[l] as int)
}

/// Whether a room with key `a` is listed before every room with key `b`.
pub fn key_before(a: &ListKey, b: &ListKey) -> (before: bool)
    ensures
        before == lists_before(*a, *b),
{
    let ra: u8 = a.status.rank();
    let rb: u8 = b.status.rank();
    if ra != rb {
        ra < rb
    } else if a.current_players != b.current_players {
        a.current_players > b.current_players
    } else {
        a.last_activity_at_ms > b.last_activity_at_ms
    }
}

/// The order in which the rooms of `keys` are listed, as positions in `keys`.
pub fn list_order(keys: &[ListKey]) -> (order: Vec<usize>)
    ensures
        is_listing(keys@, order@),
{
    let mut order: Vec<usize> = Vec::new();
    let mut i: usize = 0;
    while i < keys.len()
        invariant
            i <= keys@.len(),
            forall|k: int|
                0 <= k < order@.len() ==> (#[trigger] order@[k]) < i
                    && keys@[order@[k] as int].status != RoomStatus::Closed,
            forall|j: int|
                0 <= j < i && (#[trigger] keys@[j]).status != RoomStatus::Closed ==> exists|k: int|
                    0 <= k < order@.len() && order@[k] == j,
            forall|k: int, l: int|
                0 <= k < l < order@.len() ==> precedes(
                    keys@,
                    #[trigger] order@[k] as int,
                    #[trigger] order@[l] as int,
                ),
        decreases keys@.len() - i,
    {
        if keys[i].status.rank() != 3 {
            let mut pos: usize = 0;
            while pos < order.len() && !key_before(&keys[i], &keys[order[pos]])
                invariant
                    pos <= order@.len(),
                    i < keys@.len(),
                    forall|k: int| 0 <= k < order@.len() ==> (#[trigger] order@[k]) < i,
                    forall|k: int|
                        0 <= k < pos ==> !lists_before(keys@[i as int], keys@[order@[k] as int]),
                decreases order@.len() - pos,
            {
                pos = pos + 1;
            }
            let ghost before = order@;
            order.insert(pos, i);
            proof {
                assert forall|j: int|
                    0 <= j < i + 1 && (#[trigger] keys@[j]).status
                        != RoomStatus::Closed implies exists|k: int|
                    0 <= k < order@.len() && order@[k] == j by {
                    if j == i {
                        assert(order@[pos as int] == j);
                    } else {
                        let k0 = choose|k: int| 0 <= k < before.len() && before[k] == j;
                        if k0 < pos {
                            assert(order@[k0] == j);
                        } else {
                            assert(order@[k0 + 1] == j);
                        }
                    }
                }
                assert forall|k: int, l: int| 0 <= k < l < order@.len() implies precedes(
                    keys@,
                    #[trigger] order@[k] as int,
                    #[trigger] order@[l] as int,
                ) by {
                    let k0 = if k < pos { k } else { k - 1 };
                    let l0 = if l < pos { l } else { l - 1 };
                    if k == pos {
                        assert(order@[l] == before[l0]);
                        assert(precedes(keys@, before[pos as int] as int, before[l0] as int) || l0
                            == pos);
                        lemma_lists_before_order(
                            keys@[i as int],
                            keys@[before[pos as int] as int],
                            keys@[before[l0] as int],
                        );
                    } else if l == pos {
                        assert(order@[k] == before[k0]);
                    } else {
                        assert(order@[k] == before[k0] && order@[l] == before[l0]);
                    }
                }
            }
        } else {
            proof {
                assert forall|j: int|
                    0 <= j < i + 1 && (#[trigger] keys@[j]).status
                        != RoomStatus::Closed implies exists|k: int|
                    0 <= k < order@.len() && order@[k] == j by {
                    assert(j != i);
                }
            }
        }
        i = i + 1;
    }
    order
}

/// The listing order of keys is a strict weak order: what comes before a
/// key comes before everything that the key does not come after.
pub proof fn lemma_lists_before_order(a: ListKey, b: ListKey, c: ListKey)
    ensures
        !(lists_before(a, b) && lists_before(b, a)),
        lists_before(a, b) && !lists_before(c, b) ==> lists_before(a, c),
        lists_before(a, b) && lists_before(b, c) ==> lists_before(a, c),
{
}

/// The key of a summary.
pub fn key_of(summary: &RoomSummary) -> (key: ListKey)
    ensures
        key == (ListKey {
            status: summary.status,
            current_players: summary.current_players,
            last_activity_at_ms: summary.last_activity_at_ms,
        }),
{
    ListKey {
        status: summary.status,
        current_players: summary.current_players,
        last_activity_at_ms: summary.last_activity_at_ms,
    }
}

/// The keys of `rooms`, in order.
pub open spec fn keys_of(rooms: Seq<RoomSummary>) -> Seq<ListKey> {
    Seq::new(
        rooms.len(),
        |i: int|
            ListKey {
                status: rooms[i].status,
                current_players: rooms[i].current_players,
                last_activity_at_ms: rooms[i].last_activity_at_ms,
            },
    )
}

/// Whether `copy` says what `room` says.
pub open spec fn same_summary(room: RoomSummary, copy: RoomSummary) -> bool {
    &&& copy.room_id@ == room.room_id@
    &&& copy.name@ == room.name@
    &&& copy.current_players == room.current_players
    &&& copy.max_players == room.max_players
    &&& copy.map_id@ == room.map_id@
    &&& copy.mode@ == room.mode@
    &&& copy.status == room.status
    &&& copy.created_at_ms == room.created_at_ms
    &&& copy.last_activity_at_ms == room.last_activity_at_ms
    &&& copy.protocol_version@ == room.protocol_version@
    &&& copy.region.deep_view() == room.region.deep_view()
}

/// A second copy of a summary.
pub fn copy_summary(room: &RoomSummary) -> (copy: RoomSummary)
    ensures
        same_summary(*room, copy),
{
    RoomSummary {
        room_id: room.room_id.clone(),
        name: room.name.clone(),
        current_players: room.current_players,
        max_players: room.max_players,
        map_id: room.map_id.clone(),
        mode: room.mode.clone(),
        status: room.status,
        created_at_ms: room.created_at_ms,
        last_activity_at_ms: room.last_activity_at_ms,
        protocol_version: room.protocol_version.clone(),
        region: match &room.region {
            Some(r) => Some(r.clone()),
            None => None,
        },
    }
}

/// The summaries of the rooms that are not closed, in the order of the
/// listing. `order` says for each place of the listing which of `rooms`
/// stands there.
pub fn list_rooms(rooms: &[RoomSummary]) -> (listed: (Vec<RoomSummary>, Vec<usize>))
    ensures
        is_listing(keys_of(rooms@), listed.1@),
        listed.0@.len() == listed.1@.len(),
        forall|k: int|
            0 <= k < listed.0@.len() ==> same_summary(
                rooms@[listed.1@[k] as int],
                #[trigger] listed.0@[k],
            ),
{
    let mut keys: Vec<ListKey> = Vec::new();
    let mut i: usize = 0;
    while i < rooms.len()
        invariant
            i <= rooms@.len(),
            keys@ == keys_of(rooms@).take(i as int),
        decreases rooms@.len() - i,
    {
        keys.push(key_of(&rooms[i]));
        assert(keys@ =~= keys_of(rooms@).take(i + 1));
        i = i + 1;
    }
    assert(keys_of(rooms@).take(rooms@.len() as int) =~= keys_of(rooms@));
    let order: Vec<usize> = list_order(keys.as_slice());
    let mut listed: Vec<RoomSummary> = Vec::new();
    let mut k: usize = 0;
    while k < order.len()
        invariant
            k <= order@.len(),
            listed@.len() == k,
            forall|j: int| 0 <= j < order@.len() ==> (#[trigger] order@[j]) < rooms@.len(),
            forall|j: int|
                0 <= j < k ==> same_summary(rooms@[order@[j] as int], #[trigger] listed@[j]),
        decreases order@.len() - k,
    {
        listed.push(copy_summary(&rooms[order[k]]));
        k = k + 1;
    }
    (listed, order)
}

} // verus!
