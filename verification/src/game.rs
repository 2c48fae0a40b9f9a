//! Weapons, projectiles and items: everything about them that is counted in
//! whole numbers. Where a shot flies and whom it hits is computed elsewhere,
//! in floating point, and comes in here as plain values.

use vstd::prelude::*;
use crate::constants::{
    GRENADE_FUSE, GRENADE_HIT_GRACE, MAX_ARMOR, MAX_HEALTH, MEGA_HEALTH, QUAD_DURATION,
    RESPAWN_TIME, SELF_HIT_GRACE, SHOTGUN_PELLETS, SPAWN_PROTECTION, WEAPON_COUNT,
};
use crate::map::{GameMap, ItemKind, MapItem};
use crate::player::{all_weapons, all_weapons_table, default_ammo, default_ammo_table, PlayerState};
use crate::trusted::{event_vec_items, event_vec_push, EventVec};
use crate::types::EffectEvent;

verus! {

/// The nine weapons, in the order of their ids 0 to 8.
#[derive(Clone, Copy, Debug, PartialEq, Eq, Structural)]
pub enum WeaponId {
    Gauntlet,
    Machine,
    Shotgun,
    Grenade,
    Rocket,
    Rail,
    Plasma,
    Shaft,
    Bfg,
}

impl WeaponId {
    /// The id of the weapon, 0 to 8.
    pub open spec fn spec_index(self) -> int {
        match self {
            Self::Gauntlet => 0,
            Self::Machine => 1,
            Self::Shotgun => 2,
            Self::Grenade => 3,
            Self::Rocket => 4,
            Self::Rail => 5,
            Self::Plasma => 6,
            Self::Shaft => 7,
            Self::Bfg => 8,
        }
    }

    /// The weapon with id `value`, if there is one.
    pub open spec fn spec_from_i32(value: i32) -> Option<Self> {
        if value == 0 {
            Some(Self::Gauntlet)
        } else if value == 1 {
            Some(Self::Machine)
        } else if value == 2 {
            Some(Self::Shotgun)
        } else if value == 3 {
            Some(Self::Grenade)
        } else if value == 4 {
            Some(Self::Rocket)
        } else if value == 5 {
            Some(Self::Rail)
        } else if value == 6 {
            Some(Self::Plasma)
        } else if value == 7 {
            Some(Self::Shaft)
        } else if value == 8 {
            Some(Self::Bfg)
        } else {
            None
        }
    }

    /// The weapon with id `value`, if there is one.
    pub fn from_i32(value: i32) -> (weapon: Option<Self>)
        ensures
            weapon == Self::spec_from_i32(value),
            weapon is Some <==> 0 <= value < WEAPON_COUNT,
            weapon matches Some(w) ==> w.spec_index() == value,
    {
        match value {
            0 => Some(Self::Gauntlet),
            1 => Some(Self::Machine),
            2 => Some(Self::Shotgun),
            3 => Some(Self::Grenade),
            4 => Some(Self::Rocket),
            5 => Some(Self::Rail),
            6 => Some(Self::Plasma),
            7 => Some(Self::Shaft),
            8 => Some(Self::Bfg),
            _ => None,
        }
    }

    /// The id of the weapon, 0 to 8.
    pub fn index(self) -> (i: usize)
        ensures
            i == self.spec_index(),
            i < WEAPON_COUNT,
    {
        match self {
            Self::Gauntlet => 0,
            Self::Machine => 1,
            Self::Shotgun => 2,
            Self::Grenade => 3,
            Self::Rocket => 4,
            Self::Rail => 5,
            Self::Plasma => 6,
            Self::Shaft => 7,
            Self::Bfg => 8,
        }
    }

    /// The ticks that a weapon rests after a shot.
    pub open spec fn spec_fire_rate(self) -> i32 {
        match self {
            Self::Gauntlet => 20,
            Self::Machine => 5,
            Self::Shotgun => 50,
            Self::Grenade => 40,
            Self::Rocket => 40,
            Self::Rail => 75,
            Self::Plasma => 5,
            Self::Shaft => 3,
            Self::Bfg => 10,
        }
    }

    /// What a shot of this weapon asks for.
    pub open spec fn order(self) -> FireOrder {
        match self {
            Self::Gauntlet => FireOrder::Melee { weapon: self },
            Self::Shotgun => FireOrder::Pellets { weapon: self, count: SHOTGUN_PELLETS },
            Self::Machine | Self::Rail | Self::Shaft => FireOrder::Trace { weapon: self },
            Self::Grenade => FireOrder::Launch { weapon: self, kind: ProjectileKind::Grenade },
            Self::Rocket => FireOrder::Launch { weapon: self, kind: ProjectileKind::Rocket },
            Self::Plasma => FireOrder::Launch { weapon: self, kind: ProjectileKind::Plasma },
            Self::Bfg => FireOrder::Launch { weapon: self, kind: ProjectileKind::Bfg },
        }
    }
}

/// The ticks that `weapon` rests after a shot.
pub fn fire_rate(weapon: WeaponId) -> (ticks: i32)
    ensures
        ticks == weapon.spec_fire_rate(),
        ticks > 0,
{
    match weapon {
        WeaponId::Gauntlet => 20,
        WeaponId::Machine => 5,
        WeaponId::Shotgun => 50,
        WeaponId::Grenade => 40,
        WeaponId::Rocket => 40,
        WeaponId::Rail => 75,
        WeaponId::Plasma => 5,
        WeaponId::Shaft => 3,
        WeaponId::Bfg => 10,
    }
}

/// The four kinds of projectile, in the order of their wire ids 0 to 3.
#[derive(Clone, Copy, Debug, PartialEq, Eq, Structural)]
pub enum ProjectileKind {
    Rocket,
    Grenade,
    Plasma,
    Bfg,
}

impl ProjectileKind {
    /// The wire id of the kind.
    pub open spec fn spec_as_u8(self) -> u8 {
        match self {
            Self::Rocket => 0,
            Self::Grenade => 1,
            Self::Plasma => 2,
            Self::Bfg => 3,
        }
    }

    /// The kind with wire id `value`, if there is one.
    pub fn from_u8(value: u8) -> (kind: Option<Self>)
        ensures
            kind is Some <==> value <= 3,
            kind matches Some(k) ==> k.spec_as_u8() == value,
    {
        match value {
            0 => Some(Self::Rocket),
            1 => Some(Self::Grenade),
            2 => Some(Self::Plasma),
            3 => Some(Self::Bfg),
            _ => None,
        }
    }

    /// The wire id of the kind.
    pub fn as_u8(self) -> (id: u8)
        ensures
            id == self.spec_as_u8(),
    {
        match self {
            Self::Rocket => 0,
            Self::Grenade => 1,
            Self::Plasma => 2,
            Self::Bfg => 3,
        }
    }

    /// The weapon whose damage a direct hit of this kind deals: plasma alone
    /// hurts on contact, the others by their explosion only.
    pub fn direct_hit_weapon(self) -> (weapon: Option<WeaponId>)
        ensures
            weapon == (if self == Self::Plasma {
                Some(WeaponId::Plasma)
            } else {
                None
            }),
    {
        match self {
            Self::Plasma => Some(WeaponId::Plasma),
            _ => None,
        }
    }
}

/// The wire id of a projectile kind.
pub fn projectile_kind_id(kind: ProjectileKind) -> (id: u8)
    ensures
        id == kind.spec_as_u8(),
{
    kind.as_u8()
}

/// The wire id of the projectile kind of this name. An unknown name reads
/// as a rocket.
pub fn projectile_kind_id_str(kind: &str) -> (id: u8)
    ensures
        id == if kind@ == "grenade"@ {
            1u8
        } else if kind@ == "plasma"@ {
            2u8
        } else if kind@ == "bfg"@ {
            3u8
        } else {
            0u8
        },
{
    if crate::text::str_eq(kind, "grenade") {
        1
    } else if crate::text::str_eq(kind, "plasma") {
        2
    } else if crate::text::str_eq(kind, "bfg") {
        3
    } else {
        0
    }
}

/// A projectile in flight.
#[derive(Clone, Copy, Debug, PartialEq, Eq, Structural)]
pub struct Projectile {
    pub id: u64,
    pub kind: ProjectileKind,
    pub x: u32,
    pub y: u32,
    pub prev_x: u32,
    pub prev_y: u32,
    pub velocity_x: u32,
    pub velocity_y: u32,
    pub owner_id: u64,
    pub age: i32,
    pub active: bool,
}

impl Projectile {
    /// A projectile that was just fired: at rest in time, and live.
    pub fn new(
        id: u64,
        kind: ProjectileKind,
        x: u32,
        y: u32,
        velocity_x: u32,
        velocity_y: u32,
        owner_id: u64,
    ) -> (p: Self)
        ensures
            p == (Projectile {
                id,
                kind,
                x,
                y,
                prev_x: x,
                prev_y: y,
                velocity_x,
                velocity_y,
                owner_id,
                age: 0,
                active: true,
            }),
    {
        Self {
            id,
            kind,
            x,
            y,
            prev_x: x,
            prev_y: y,
            velocity_x,
            velocity_y,
            owner_id,
            age: 0,
            active: true,
        }
    }

    /// Whether the projectile may hit the player `player_id` at its age: not
    /// its owner during the first ticks, and a grenade nobody during its own.
    pub open spec fn spec_can_hit(self, player_id: u64) -> bool {
        &&& !(self.owner_id == player_id && self.age < SELF_HIT_GRACE)
        &&& !(self.kind == ProjectileKind::Grenade && self.age < GRENADE_HIT_GRACE)
    }

    /// Whether the projectile may hit the player `player_id` at its age.
    pub fn can_hit(&self, player_id: u64) -> (b: bool)
        ensures
            b == self.spec_can_hit(player_id),
    {
        if self.owner_id == player_id && self.age < SELF_HIT_GRACE {
            return false;
        }
        match self.kind {
            ProjectileKind::Grenade => self.age >= GRENADE_HIT_GRACE,
            _ => true,
        }
    }

    /// Whether a grenade's fuse has run out.
    pub fn fuse_expired(&self) -> (b: bool)
        ensures
            b == (self.kind == ProjectileKind::Grenade && self.age > GRENADE_FUSE),
    {
        match self.kind {
            ProjectileKind::Grenade => self.age > GRENADE_FUSE,
            _ => false,
        }
    }

    /// Starts a tick of flight: the position becomes the previous one and the
    /// age grows by one.
    pub fn begin_step(&mut self)
        requires
            old(self).age < i32::MAX,
        ensures
            *final(self) == (Projectile {
                prev_x: old(self).x,
                prev_y: old(self).y,
                age: (old(self).age + 1) as i32,
                ..*old(self)
            }),
    {
        self.prev_x = self.x;
        self.prev_y = self.y;
        self.age = self.age + 1;
    }

    /// Takes the projectile out of play and says where and what explodes.
    pub fn explode(&mut self) -> (e: Explosion)
        ensures
            *final(self) == (Projectile { active: false, ..*old(self) }),
            e == (Explosion {
                x: old(self).x,
                y: old(self).y,
                kind: old(self).kind,
                owner_id: old(self).owner_id,
            }),
    {
        self.active = false;
        Explosion { x: self.x, y: self.y, kind: self.kind, owner_id: self.owner_id }
    }
}

/// An explosion of one tick: where, of what kind, and whose.
#[derive(Clone, Copy, Debug, PartialEq, Eq, Structural)]
pub struct Explosion {
    pub x: u32,
    pub y: u32,
    pub kind: ProjectileKind,
    pub owner_id: u64,
}

/// A shot whose victim is found once every player has moved.
#[derive(Clone, Copy, Debug, PartialEq, Eq, Structural)]
pub enum HitAction {
    Hitscan {
        attacker_id: u64,
        weapon_id: WeaponId,
        start_x: u32,
        start_y: u32,
        trace_x: u32,
        trace_y: u32,
        damage: u32,
    },
    Melee { attacker_id: u64, weapon_id: WeaponId, hit_x: u32, hit_y: u32, damage: u32 },
}

/// What a shot asks of the code that traces rays and places projectiles.
#[derive(Clone, Copy, Debug, PartialEq, Eq, Structural)]
pub enum FireOrder {
    /// A blow at close range.
    Melee { weapon: WeaponId },
    /// `count` rays, each with its own jitter.
    Pellets { weapon: WeaponId, count: usize },
    /// One ray.
    Trace { weapon: WeaponId },
    /// One projectile of `kind`.
    Launch { weapon: WeaponId, kind: ProjectileKind },
}

/// The source of projectile ids of one room. Ids start at 1 and only grow.
#[derive(Clone, Copy, Debug, Default, PartialEq, Eq, Structural)]
pub struct IdGen {
    pub last: u64,
}

impl IdGen {
    /// The next id: one more than the last. None where every id was given.
    pub fn next_id(&mut self) -> (id: Option<u64>)
        ensures
            old(self).last < u64::MAX ==> id == Some((old(self).last + 1) as u64),
            old(self).last < u64::MAX ==> final(self).last == old(self).last + 1,
            old(self).last == u64::MAX ==> id is None && final(self).last == old(self).last,
    {
        if self.last == u64::MAX {
            return None;
        }
        self.last = self.last + 1;
        Some(self.last)
    }
}

/// Whether a player can fire: it lives, its weapon has rested, and the
/// weapon in hand has ammunition left or never runs out.
pub open spec fn spec_can_fire(p: PlayerState) -> bool {
    &&& !p.dead
    &&& p.fire_cooldown <= 0
    &&& (p.ammo@[p.current_weapon as int] == -1 || p.ammo@[p.current_weapon as int] > 0)
}

/// Whether `player` can fire now.
pub fn can_fire(player: &PlayerState) -> (b: bool)
    requires
        0 <= player.current_weapon < WEAPON_COUNT,
    ensures
        b == spec_can_fire(*player),
{
    if player.dead || player.fire_cooldown > 0 {
        return false;
    }
    let ammo: i32 = player.ammo[player.current_weapon as usize];
    ammo == -1 || ammo > 0
}

/// What a pull of the trigger does to a player, and the order it gives:
/// nothing where the player cannot fire; else one round is spent unless the
/// weapon never runs out, the weapon starts to rest, and the shot is ordered.
pub open spec fn fire_effect(before: PlayerState, after: PlayerState, order: Option<FireOrder>) -> bool {
    if !spec_can_fire(before) {
        order is None && after == before
    } else {
        let weapon = WeaponId::spec_from_i32(before.current_weapon)->0;
        let slot = before.current_weapon as int;
        let ammo = before.ammo@[slot];
        &&& order == Some(weapon.order())
        &&& after.ammo@ == before.ammo@.update(
            slot,
            if ammo == -1 {
                ammo
            } else {
                (ammo - 1) as i32
            },
        )
        &&& after == (PlayerState {
            ammo: after.ammo,
            fire_cooldown: weapon.spec_fire_rate(),
            ..before
        })
    }
}

/// The events after a pull of the trigger: a weapon-fired event more where
/// the player could fire.
pub open spec fn fire_events(before: PlayerState, events: Seq<EffectEvent>) -> Seq<EffectEvent> {
    if spec_can_fire(before) {
        events.push(
            EffectEvent::WeaponFired { player_id: before.id, weapon_id: before.current_weapon },
        )
    } else {
        events
    }
}

/// Fires the weapon in hand if the player can fire: one round is spent
/// unless the weapon never runs out, the weapon starts to rest, a
/// weapon-fired event is recorded, and the order for the shot is handed
/// back. A player who cannot fire is left as it is.
pub fn try_fire(player: &mut PlayerState, events: &mut EventVec) -> (order: Option<FireOrder>)
    requires
        0 <= old(player).current_weapon < WEAPON_COUNT,
    ensures
        fire_effect(*old(player), *final(player), order),
        event_vec_items(*final(events)) == fire_events(
            *old(player),
            event_vec_items(*old(events)),
        ),
{
    if !can_fire(player) {
        return None;
    }
    let weapon: WeaponId = match WeaponId::from_i32(player.current_weapon) {
        Some(w) => w,
        None => {
            return None;
        },
    };
    let slot: usize = player.current_weapon as usize;
    let held: i32 = player.ammo[slot];
    let left: i32 = if held == -1 {
        held
    } else {
        held - 1
    };
    let ammo: [i32; WEAPON_COUNT] = with_rounds(player.ammo, slot, left);
    *player = PlayerState { ammo, fire_cooldown: fire_rate(weapon), ..*player };
    event_vec_push(
        events,
        EffectEvent::WeaponFired { player_id: player.id, weapon_id: player.current_weapon },
    );
    Some(
        match weapon {
            WeaponId::Gauntlet => FireOrder::Melee { weapon },
            WeaponId::Shotgun => FireOrder::Pellets { weapon, count: SHOTGUN_PELLETS },
            WeaponId::Machine | WeaponId::Rail | WeaponId::Shaft => FireOrder::Trace { weapon },
            WeaponId::Grenade => FireOrder::Launch { weapon, kind: ProjectileKind::Grenade },
            WeaponId::Rocket => FireOrder::Launch { weapon, kind: ProjectileKind::Rocket },
            WeaponId::Plasma => FireOrder::Launch { weapon, kind: ProjectileKind::Plasma },
            WeaponId::Bfg => FireOrder::Launch { weapon, kind: ProjectileKind::Bfg },
        },
    )
}

/// The live projectiles of one room with the source of their ids. Every id
/// in the list is greater than the ids before it, and none is greater than
/// the last id given.
pub struct Projectiles {
    list: Vec<Projectile>,
    ids: IdGen,
}

/// Whether each id in `list` is greater than every id before it.
pub open spec fn ids_increasing(list: Seq<Projectile>) -> bool {
    forall|i: int, j: int| 0 <= i < j < list.len() ==> list[i].id < list[j].id
}

/// The projectiles of `list` that are still in play, in their order.
pub open spec fn live(list: Seq<Projectile>) -> Seq<Projectile> {
    list.filter(|p: Projectile| p.active)
}

impl View for Projectiles {
    type V = ProjectilesView;

    closed spec fn view(&self) -> ProjectilesView {
        ProjectilesView { list: self.list@, last_id: self.ids.last }
    }
}

impl Projectiles {
    /// Every id in the list is greater than the ids before it, and none is
    /// greater than the last id given: the ids of a room's projectiles
    /// grow strictly.
    pub open spec fn wf(&self) -> bool {
        self@.wf()
    }

    /// The last id that was given; 0 before the first.
    pub open spec fn last_id(&self) -> u64 {
        self@.last_id
    }

    /// No projectiles, and no id given yet.
    pub fn new() -> (set: Self)
        ensures
            set.wf(),
            set@.list == Seq::<Projectile>::empty(),
            set.last_id() == 0,
    {
        Projectiles { list: Vec::new(), ids: IdGen { last: 0 } }
    }

    pub fn len(&self) -> (n: usize)
        ensures
            n == self@.list.len(),
    {
        self.list.len()
    }

    /// The projectiles in the order in which they were fired: each id is
    /// greater than every id before it, and none exceeds the last id given.
    pub fn as_slice(&self) -> (list: &[Projectile])
        requires
            self.wf(),
        ensures
            list@ == self@.list,
            ids_increasing(list@),
            forall|i: int| 0 <= i < list@.len() ==> (#[trigger] list@[i]).id <= self.last_id(),
    {
        self.list.as_slice()
    }

    /// The projectile at position `i`.
    pub fn get(&self, i: usize) -> (p: Projectile)
        requires
            i < self@.list.len(),
        ensures
            p == self@.list[i as int],
    {
        self.list[i]
    }

    /// Puts `p` at position `i`, under the id that stands there: a
    /// projectile keeps its id for life.
    pub fn set(&mut self, i: usize, p: Projectile)
        requires
            old(self).wf(),
            i < old(self)@.list.len(),
        ensures
            final(self).wf(),
            final(self)@.list == old(self)@.list.update(
                i as int,
                Projectile { id: old(self)@.list[i as int].id, ..p },
            ),
            final(self).last_id() == old(self).last_id(),
    {
        let kept: Projectile = Projectile { id: self.list[i].id, ..p };
        self.list[i] = kept;
    }

    /// Fires a projectile: it gets the next id, joins the end of the list,
    /// and a projectile-spawn event is recorded. Its previous position is
    /// the muzzle it left. Nothing happens where every id was given.
    pub fn spawn(
        &mut self,
        events: &mut EventVec,
        kind: ProjectileKind,
        x: u32,
        y: u32,
        prev_x: u32,
        prev_y: u32,
        velocity_x: u32,
        velocity_y: u32,
        owner_id: u64,
    ) -> (id: Option<u64>)
        requires
            old(self).wf(),
        ensures
            final(self).wf(),
            old(self).last_id() == u64::MAX ==> {
                &&& id is None
                &&& final(self)@.list == old(self)@.list
                &&& final(self).last_id() == old(self).last_id()
                &&& event_vec_items(*final(events)) == event_vec_items(*old(events))
            },
            old(self).last_id() < u64::MAX ==> {
                let next = (old(self).last_id() + 1) as u64;
                &&& id == Some(next)
                &&& final(self).last_id() == next
                &&& final(self)@.list == old(self)@.list.push(
                    Projectile {
                        id: next,
                        kind,
                        x,
                        y,
                        prev_x,
                        prev_y,
                        velocity_x,
                        velocity_y,
                        owner_id,
                        age: 0,
                        active: true,
                    },
                )
                &&& event_vec_items(*final(events)) == event_vec_items(*old(events)).push(
                    EffectEvent::ProjectileSpawn {
                        id: next,
                        kind: kind.spec_as_u8(),
                        x,
                        y,
                        velocity_x,
                        velocity_y,
                        owner_id,
                    },
                )
                &&& forall|i: int| 0 <= i < old(self)@.list.len() ==> (#[trigger] old(self)@.list[i]).id < next
            },
    {
        let id: u64 = match self.ids.next_id() {
            Some(id) => id,
            None => {
                return None;
            },
        };
        event_vec_push(
            events,
            EffectEvent::ProjectileSpawn {
                id,
                kind: kind.as_u8(),
                x,
                y,
                velocity_x,
                velocity_y,
                owner_id,
            },
        );
        self.list.push(
            Projectile {
                id,
                kind,
                x,
                y,
                prev_x,
                prev_y,
                velocity_x,
                velocity_y,
                owner_id,
                age: 0,
                active: true,
            },
        );
        Some(id)
    }

    /// Drops the projectiles that are out of play. The others keep their order.
    pub fn remove_inactive(&mut self)
        requires
            old(self).wf(),
        ensures
            final(self).wf(),
            final(self)@.list == live(old(self)@.list),
            final(self).last_id() == old(self).last_id(),
    {
        let mut kept: Vec<Projectile> = Vec::new();
        let mut i: usize = 0;
        assert(self.list@.take(0) =~= Seq::<Projectile>::empty());
        while i < self.list.len()
            invariant
                i <= self.list@.len(),
                self.list@ == old(self).list@,
                self.ids == old(self).ids,
                kept@ == live(self.list@.take(i as int)),
                ids_increasing(self.list@),
                forall|k: int|
                    0 <= k < self.list@.len() ==> (#[trigger] self.list@[k]).id <= self.ids.last,
            decreases self.list@.len() - i,
        {
            let p: Projectile = self.list[i];
            proof {
                lemma_live_push(self.list@.take(i as int), p);
                assert(self.list@.take(i as int).push(p) =~= self.list@.take(i + 1));
            }
            if p.active {
                kept.push(p);
            }
            i = i + 1;
        }
        proof {
            assert(self.list@.take(self.list@.len() as int) =~= self.list@);
            lemma_live_keeps_order(self.list@);
            lemma_live_within(self.list@);
        }
        self.list = kept;
    }
}

/// What a projectile table holds: the projectiles in the order in which
/// they were fired, and the last id that was given.
pub ghost struct ProjectilesView {
    pub list: Seq<Projectile>,
    pub last_id: u64,
}

impl ProjectilesView {
    /// Every id in the list is greater than the ids before it, and none is
    /// greater than the last id given.
    pub open spec fn wf(self) -> bool {
        &&& ids_increasing(self.list)
        &&& forall|i: int| 0 <= i < self.list.len() ==> (#[trigger] self.list[i]).id <= self.last_id
    }
}

/// Filtering a list with one more projectile keeps it where it is live.
pub proof fn lemma_live_push(list: Seq<Projectile>, p: Projectile)
    ensures
        live(list.push(p)) == if p.active {
            live(list).push(p)
        } else {
            live(list)
        },
{
    reveal(Seq::filter);
    assert(list.push(p).drop_last() =~= list);
}

/// Every live projectile of a list is a projectile of the list.
pub proof fn lemma_live_within(list: Seq<Projectile>)
    ensures
        forall|i: int| 0 <= i < live(list).len() ==> list.contains(#[trigger] live(list)[i]),
    decreases list.len(),
{
    reveal(Seq::filter);
    if list.len() > 0 {
        let front = list.drop_last();
        lemma_live_within(front);
        lemma_live_push(front, list.last());
        assert(front.push(list.last()) =~= list);
        assert forall|i: int| 0 <= i < live(list).len() implies list.contains(
            #[trigger] live(list)[i],
        ) by {
            if i < live(front).len() {
                let k = choose|k: int| 0 <= k < front.len() && front[k] == live(front)[i];
                assert(list[k] == live(list)[i]);
            } else {
                assert(list[list.len() - 1] == live(list)[i]);
            }
        }
    }
}

/// Dropping projectiles keeps the ids of the others in growing order.
pub proof fn lemma_live_keeps_order(list: Seq<Projectile>)
    requires
        ids_increasing(list),
    ensures
        ids_increasing(live(list)),
        forall|i: int|
            0 <= i < live(list).len() ==> exists|k: int|
                0 <= k < list.len() && list[k] == #[trigger] live(list)[i],
    decreases list.len(),
{
    reveal(Seq::filter);
    if list.len() > 0 {
        let front = list.drop_last();
        lemma_live_keeps_order(front);
        lemma_live_push(front, list.last());
        assert(front.push(list.last()) =~= list);
        assert forall|i: int| 0 <= i < live(list).len() implies exists|k: int|
            0 <= k < list.len() && list[k] == #[trigger] live(list)[i] by {
            if i < live(front).len() {
                let k = choose|k: int| 0 <= k < front.len() && front[k] == live(front)[i];
                assert(list[k] == live(list)[i]);
            } else {
                assert(list[list.len() - 1] == live(list)[i]);
            }
        }
        assert forall|i: int, j: int| 0 <= i < j < live(list).len() implies live(list)[i].id
            < live(list)[j].id by {
            if j < live(front).len() {
            } else {
                let k = choose|k: int| 0 <= k < front.len() && front[k] == live(front)[i];
                assert(list[k].id < list[list.len() - 1].id);
            }
        }
    }
}

/// Whether a hit can hurt the player: the dead and the spawn-protected take none.
pub open spec fn spec_takes_damage(p: PlayerState) -> bool {
    !p.dead && p.spawn_protection <= 0
}

/// Whether a hit can hurt `player` now.
pub fn takes_damage(player: &PlayerState) -> (b: bool)
    ensures
        b == spec_takes_damage(*player),
{
    !player.dead && player.spawn_protection <= 0
}

/// What the armor takes of a hit whose share for the armor is `armor_damage`:
/// that share, but no more than there is armor.
pub open spec fn spec_absorbed(armor: i32, armor_damage: i32) -> i32 {
    if armor <= 0 {
        0
    } else if armor_damage < armor {
        armor_damage
    } else {
        armor
    }
}

/// Lets the armor take its share of a hit, and says how much it took.
pub fn absorb_with_armor(player: &mut PlayerState, armor_damage: i32) -> (absorbed: i32)
    requires
        0 <= armor_damage,
    ensures
        absorbed == spec_absorbed(old(player).armor, armor_damage),
        *final(player) == (PlayerState {
            armor: (old(player).armor - absorbed) as i32,
            ..*old(player)
        }),
{
    if player.armor <= 0 {
        return 0;
    }
    let absorbed: i32 = if armor_damage < player.armor {
        armor_damage
    } else {
        player.armor
    };
    *player = PlayerState { armor: player.armor - absorbed, ..*player };
    absorbed
}

/// The player after `amount` points of damage went to its health: at zero
/// or below it is dead and waits out the respawn time.
pub open spec fn after_hit(p: PlayerState, amount: i32) -> PlayerState {
    let health = (p.health - amount) as i32;
    if health <= 0 {
        PlayerState { health, dead: true, respawn_timer: RESPAWN_TIME, ..p }
    } else {
        PlayerState { health, ..p }
    }
}

/// Takes `amount` points from the health of `player` and says whether that
/// killed it. A damage event is recorded where the amount is above zero.
pub fn take_hit(player: &mut PlayerState, attacker_id: u64, amount: i32, events: &mut EventVec) -> (killed:
    bool)
    requires
        0 <= amount,
        0 < old(player).health <= MEGA_HEALTH,
    ensures
        killed == (old(player).health - amount <= 0),
        *final(player) == after_hit(*old(player), amount),
        amount > 0 ==> event_vec_items(*final(events)) == event_vec_items(*old(events)).push(
            EffectEvent::Damage {
                attacker_id,
                target_id: old(player).id,
                amount,
                killed,
            },
        ),
        amount == 0 ==> event_vec_items(*final(events)) == event_vec_items(*old(events)),
{
    let health: i32 = player.health - amount;
    let killed: bool = health <= 0;
    if killed {
        *player = PlayerState { health, dead: true, respawn_timer: RESPAWN_TIME, ..*player };
    } else {
        *player = PlayerState { health, ..*player };
    }
    if amount > 0 {
        event_vec_push(
            events,
            EffectEvent::Damage { attacker_id, target_id: player.id, amount, killed },
        );
    }
    killed
}

/// `v + gain`, stopped at `cap`.
pub open spec fn capped(v: i32, gain: i32, cap: i32) -> i32 {
    if v + gain < cap {
        (v + gain) as i32
    } else {
        cap
    }
}

/// `v + gain`, stopped at the largest `i32`.
pub open spec fn stocked(v: i32, gain: i32) -> i32 {
    if v + gain > i32::MAX {
        i32::MAX
    } else {
        (v + gain) as i32
    }
}

/// What `after` is once the player `before` has been given a weapon with
/// `rounds` rounds: it owns the weapon, and the rounds are added unless the
/// weapon never runs out.
pub open spec fn weapon_given(
    before: PlayerState,
    weapon: WeaponId,
    rounds: i32,
    after: PlayerState,
) -> bool {
    let slot = weapon.spec_index();
    &&& after.weapons@ == before.weapons@.update(slot, true)
    &&& after.ammo@ == before.ammo@.update(
        slot,
        if before.ammo@[slot] == -1 {
            -1i32
        } else {
            stocked(before.ammo@[slot], rounds)
        },
    )
    &&& after == (PlayerState { weapons: after.weapons, ammo: after.ammo, ..before })
}

/// `table` with `true` at `slot`.
fn with_weapon(table: [bool; WEAPON_COUNT], slot: usize) -> (r: [bool; WEAPON_COUNT])
    requires
        slot < WEAPON_COUNT,
    ensures
        r@ == table@.update(slot as int, true),
{
    let mut r: [bool; WEAPON_COUNT] = table;
    r[slot] = true;
    r
}

/// `table` with `rounds` at `slot`.
fn with_rounds(table: [i32; WEAPON_COUNT], slot: usize, rounds: i32) -> (r: [i32; WEAPON_COUNT])
    requires
        slot < WEAPON_COUNT,
    ensures
        r@ == table@.update(slot as int, rounds),
{
    let mut r: [i32; WEAPON_COUNT] = table;
    r[slot] = rounds;
    r
}

/// Gives `player` a weapon with `rounds` rounds.
pub fn give_weapon(player: &mut PlayerState, weapon: WeaponId, rounds: i32)
    requires
        0 <= rounds,
    ensures
        weapon_given(*old(player), weapon, rounds, *final(player)),
{
    let slot: usize = weapon.index();
    let held: i32 = player.ammo[slot];
    let total: i32 = if held == -1 {
        -1
    } else {
        match held.checked_add(rounds) {
            Some(total) => total,
            None => i32::MAX,
        }
    };
    let weapons: [bool; WEAPON_COUNT] = with_weapon(player.weapons, slot);
    let ammo: [i32; WEAPON_COUNT] = with_rounds(player.ammo, slot, total);
    *player = PlayerState { weapons, ammo, ..*player };
}

/// What `after` is once the player `before` has taken an item of `kind`.
/// Health items add up to 100, the mega health up to 200, armor up to 200;
/// quad damage lasts its full time anew; a weapon item gives the weapon and
/// its rounds.
pub open spec fn item_applied(before: PlayerState, kind: ItemKind, after: PlayerState) -> bool {
    match kind {
        ItemKind::Health5 => after == (PlayerState {
            health: capped(before.health, 5, MAX_HEALTH),
            ..before
        }),
        ItemKind::Health25 => after == (PlayerState {
            health: capped(before.health, 25, MAX_HEALTH),
            ..before
        }),
        ItemKind::Health50 => after == (PlayerState {
            health: capped(before.health, 50, MAX_HEALTH),
            ..before
        }),
        ItemKind::Health100 => after == (PlayerState {
            health: capped(before.health, 100, MEGA_HEALTH),
            ..before
        }),
        ItemKind::Armor50 => after == (PlayerState {
            armor: capped(before.armor, 50, MAX_ARMOR),
            ..before
        }),
        ItemKind::Armor100 => after == (PlayerState {
            armor: capped(before.armor, 100, MAX_ARMOR),
            ..before
        }),
        ItemKind::Quad => after == (PlayerState {
            quad_damage: true,
            quad_timer: QUAD_DURATION,
            ..before
        }),
        ItemKind::WeaponMachine => weapon_given(before, WeaponId::Machine, 50, after),
        ItemKind::WeaponShotgun => weapon_given(before, WeaponId::Shotgun, 10, after),
        ItemKind::WeaponGrenade => weapon_given(before, WeaponId::Grenade, 5, after),
        ItemKind::WeaponRocket => weapon_given(before, WeaponId::Rocket, 5, after),
    }
}

/// `v + gain`, stopped at `cap`.
fn add_capped(v: i32, gain: i32, cap: i32) -> (r: i32)
    requires
        0 <= gain <= 100,
        0 <= cap <= MEGA_HEALTH,
    ensures
        r == capped(v, gain, cap),
{
    if v < cap - gain {
        v + gain
    } else {
        cap
    }
}

/// Gives `player` what an item of `kind` holds.
pub fn apply_item_effect(player: &mut PlayerState, kind: ItemKind)
    ensures
        item_applied(*old(player), kind, *final(player)),
{
    match kind {
        ItemKind::Health5 => {
            let health: i32 = add_capped(player.health, 5, MAX_HEALTH);
            *player = PlayerState { health, ..*player };
        },
        ItemKind::Health25 => {
            let health: i32 = add_capped(player.health, 25, MAX_HEALTH);
            *player = PlayerState { health, ..*player };
        },
        ItemKind::Health50 => {
            let health: i32 = add_capped(player.health, 50, MAX_HEALTH);
            *player = PlayerState { health, ..*player };
        },
        ItemKind::Health100 => {
            let health: i32 = add_capped(player.health, 100, MEGA_HEALTH);
            *player = PlayerState { health, ..*player };
        },
        ItemKind::Armor50 => {
            let armor: i32 = add_capped(player.armor, 50, MAX_ARMOR);
            *player = PlayerState { armor, ..*player };
        },
        ItemKind::Armor100 => {
            let armor: i32 = add_capped(player.armor, 100, MAX_ARMOR);
            *player = PlayerState { armor, ..*player };
        },
        ItemKind::Quad => {
            *player = PlayerState { quad_damage: true, quad_timer: QUAD_DURATION, ..*player };
        },
        ItemKind::WeaponMachine => give_weapon(player, WeaponId::Machine, 50),
        ItemKind::WeaponShotgun => give_weapon(player, WeaponId::Shotgun, 10),
        ItemKind::WeaponGrenade => give_weapon(player, WeaponId::Grenade, 5),
        ItemKind::WeaponRocket => give_weapon(player, WeaponId::Rocket, 5),
    }
}

/// An item after one tick in which nobody took it: one that is away comes
/// one tick closer and is back once its timer has run out.
pub open spec fn item_after_wait(item: MapItem) -> MapItem {
    if item.active {
        item
    } else if item.respawn_timer == i32::MIN {
        MapItem { active: true, ..item }
    } else {
        MapItem {
            respawn_timer: (item.respawn_timer - 1) as i32,
            active: item.respawn_timer - 1 <= 0,
            ..item
        }
    }
}

/// An item after a player took it: away for the respawn time of its kind.
pub open spec fn item_after_pickup(item: MapItem) -> MapItem {
    MapItem { active: false, respawn_timer: item.kind.spec_respawn_time(), ..item }
}

/// The first living player for whom `near` says that it stands at the item.
pub open spec fn first_taker(players: Seq<PlayerState>, near: Seq<bool>, from: int) -> Option<
    usize,
>
    decreases players.len() - from,
{
    if from < 0 || from >= players.len() {
        None
    } else if !players[from].dead && near[from] {
        Some(from as usize)
    } else {
        first_taker(players, near, from + 1)
    }
}

/// What one tick does to one item and to the players around it. An item
/// that is away comes one tick closer. An item that is there goes to the
/// first living player who stands at it: that player is given what the item
/// holds, and the item is away for its respawn time.
pub open spec fn pickup_step(
    players: Seq<PlayerState>,
    item: MapItem,
    near: Seq<bool>,
    players_after: Seq<PlayerState>,
    item_after: MapItem,
) -> bool {
    if !item.active {
        players_after == players && item_after == item_after_wait(item)
    } else {
        match first_taker(players, near, 0) {
            None => players_after == players && item_after == item,
            Some(t) => {
                &&& item_after == item_after_pickup(item)
                &&& players_after == players.update(t as int, players_after[t as int])
                &&& item_applied(players[t as int], item.kind, players_after[t as int])
            },
        }
    }
}

/// What one tick does to the first `n` items and to the players: one
/// `pickup_step` for each item in order, each on what the step before left.
pub open spec fn pickups_run(
    players: Seq<PlayerState>,
    items: Seq<MapItem>,
    near: Seq<Seq<bool>>,
    n: nat,
    players_after: Seq<PlayerState>,
    items_after: Seq<MapItem>,
) -> bool
    decreases n,
{
    if n == 0 {
        players_after == players && items_after == items
    } else {
        exists|players_mid: Seq<PlayerState>, items_mid: Seq<MapItem>|
            {
                &&& pickups_run(players, items, near, (n - 1) as nat, players_mid, items_mid)
                &&& #[trigger] pickup_step(
                    players_mid,
                    items_mid[n - 1],
                    near[n - 1],
                    players_after,
                    items_after[n - 1],
                )
                &&& items_after == items_mid.update(n - 1, items_after[n - 1])
            }
    }
}

/// Runs one tick of one item: see [`pickup_step`]. `near[p]` says whether
/// player `p` stands at the item. Hands back the position of the taker.
pub fn pickup_item(players: &mut Vec<PlayerState>, item: &mut MapItem, near: &[bool]) -> (taker:
    Option<usize>)
    requires
        near@.len() == old(players)@.len(),
    ensures
        pickup_step(old(players)@, *old(item), near@, final(players)@, *final(item)),
        final(players)@.len() == old(players)@.len(),
        forall|p: int|
            0 <= p < final(players)@.len() ==> (#[trigger] final(players)@[p]).id == old(
                players,
            )@[p].id && final(players)@[p].dead == old(players)@[p].dead,
        taker == if old(item).active {
            first_taker(old(players)@, near@, 0)
        } else {
            None
        },
{
    let seen: MapItem = *item;
    if !seen.active {
        let timer: i32 = if seen.respawn_timer == i32::MIN {
            seen.respawn_timer
        } else {
            seen.respawn_timer - 1
        };
        *item = MapItem { respawn_timer: timer, active: timer <= 0, ..seen };
        return None;
    }
    let mut taker: Option<usize> = None;
    let mut p: usize = 0;
    while p < players.len() && taker.is_none()
        invariant
            p <= players@.len(),
            players@ == old(players)@,
            near@.len() == players@.len(),
            taker is None ==> first_taker(players@, near@, 0) == first_taker(
                players@,
                near@,
                p as int,
            ),
            taker matches Some(t) ==> t < players@.len() && first_taker(players@, near@, 0)
                == Some(t),
        decreases players@.len() - p + (if taker is None { 1int } else { 0int }),
    {
        if !players[p].dead && near[p] {
            taker = Some(p);
        } else {
            p = p + 1;
        }
    }
    match taker {
        Some(t) => {
            let mut player: PlayerState = players[t];
            apply_item_effect(&mut player, seen.kind);
            proof {
                lemma_item_keeps_id(players@[t as int], seen.kind, player);
            }
            players[t] = player;
            *item = MapItem { active: false, respawn_timer: seen.kind.respawn_time(), ..seen };
            assert(players@ =~= old(players)@.update(t as int, players@[t as int]));
        },
        None => {},
    }
    taker
}

/// An item changes neither who a player is nor whether it lives.
pub proof fn lemma_item_keeps_id(before: PlayerState, kind: ItemKind, after: PlayerState)
    requires
        item_applied(before, kind, after),
    ensures
        after.id == before.id,
        after.dead == before.dead,
{
}

/// Who takes an item depends on who lives and who stands at it, and on
/// nothing else.
pub proof fn lemma_first_taker_by_life(
    a: Seq<PlayerState>,
    b: Seq<PlayerState>,
    near: Seq<bool>,
    from: int,
)
    requires
        a.len() == b.len(),
        forall|p: int| 0 <= p < a.len() ==> (#[trigger] a[p]).dead == b[p].dead,
    ensures
        first_taker(a, near, from) == first_taker(b, near, from),
    decreases a.len() - from,
{
    if 0 <= from < a.len() {
        assert(a[from].dead == b[from].dead);
        lemma_first_taker_by_life(a, b, near, from + 1);
    }
}

/// Runs one tick of the items, one after the other: see [`pickups_run`].
/// `near[i][p]` says whether player `p` stands at item `i`. The position of
/// the taker, if there was one, is handed back for each item.
pub fn process_item_pickups(
    players: &mut Vec<PlayerState>,
    items: &mut Vec<MapItem>,
    near: &Vec<Vec<bool>>,
) -> (takers: Vec<Option<usize>>)
    requires
        near@.len() == old(items)@.len(),
        forall|i: int| 0 <= i < near@.len() ==> (#[trigger] near@[i])@.len() == old(players)@.len(),
    ensures
        takers@.len() == old(items)@.len(),
        final(items)@.len() == old(items)@.len(),
        final(players)@.len() == old(players)@.len(),
        forall|p: int|
            0 <= p < final(players)@.len() ==> (#[trigger] final(players)@[p]).id == old(
                players,
            )@[p].id,
        forall|i: int|
            0 <= i < takers@.len() ==> #[trigger] takers@[i] == if old(items)@[i].active {
                first_taker(old(players)@, near@[i]@, 0)
            } else {
                None
            },
        pickups_run(
            old(players)@,
            old(items)@,
            near.deep_view(),
            old(items)@.len(),
            final(players)@,
            final(items)@,
        ),
{
    let ghost start = players@;
    let ghost start_items = items@;
    let ghost rows = near.deep_view();
    let mut takers: Vec<Option<usize>> = Vec::new();
    let mut i: usize = 0;
    while i < items.len()
        invariant
            i <= items@.len(),
            items@.len() == start_items.len(),
            players@.len() == start.len(),
            near@.len() == items@.len(),
            rows == near.deep_view(),
            takers@.len() == i,
            forall|k: int| 0 <= k < near@.len() ==> (#[trigger] near@[k])@.len() == start.len(),
            forall|p: int|
                0 <= p < players@.len() ==> (#[trigger] players@[p]).id == start[p].id
                    && players@[p].dead == start[p].dead,
            forall|k: int| i <= k < items@.len() ==> items@[k] == start_items[k],
            forall|k: int|
                0 <= k < i ==> #[trigger] takers@[k] == if start_items[k].active {
                    first_taker(start, near@[k]@, 0)
                } else {
                    None
                },
            pickups_run(start, start_items, rows, i as nat, players@, items@),
        decreases items@.len() - i,
    {
        let ghost players_mid = players@;
        let ghost items_mid = items@;
        let mut item: MapItem = items[i];
        proof {
            lemma_first_taker_by_life(start, players@, near@[i as int]@, 0);
        }
        let taker: Option<usize> = pickup_item(players, &mut item, near[i].as_slice());
        items[i] = item;
        takers.push(taker);
        proof {
            let n: nat = (i + 1) as nat;
            assert(rows[n - 1] == near@[i as int]@);
            assert(items@ =~= items_mid.update(n - 1, items@[n - 1]));
            assert(pickups_run(start, start_items, rows, (n - 1) as nat, players_mid, items_mid));
            assert(pickup_step(players_mid, items_mid[n - 1], rows[n - 1], players@, items@[n - 1]));
            assert(pickups_run(start, start_items, rows, n, players@, items@));
        }
        i = i + 1;
    }
    takers
}

/// What a dead player's wait for its respawn came to.
#[derive(Clone, Copy, Debug, PartialEq, Eq)]
pub enum RespawnOutcome {
    /// The player lives, or its respawn timer still runs.
    NotReady,
    /// The player is back, at `cell` (row, column) where the map has a spawn cell.
    Respawned { cell: Option<(i32, i32)> },
}

/// Whether a player is due to come back: dead, with its respawn timer run out.
pub open spec fn respawn_due(p: PlayerState) -> bool {
    p.dead && p.respawn_timer <= 0
}

/// What `after` is once the player `before` has come back: alive in full
/// health, without armor, at rest, with every weapon and the starting
/// ammunition, the rocket launcher in hand, without quad damage, and under
/// spawn protection.
pub open spec fn respawned(before: PlayerState, after: PlayerState) -> bool {
    &&& after.weapons@ == all_weapons()
    &&& after.ammo@ == default_ammo()
    &&& after == (PlayerState {
        health: MAX_HEALTH,
        armor: 0,
        dead: false,
        velocity_x: 0,
        velocity_y: 0,
        weapons: after.weapons,
        ammo: after.ammo,
        current_weapon: 4,
        quad_damage: false,
        quad_timer: 0,
        spawn_protection: SPAWN_PROTECTION,
        ..before
    })
}

/// Brings a player back to life with the starting loadout.
pub fn reset_for_respawn(player: &mut PlayerState)
    ensures
        respawned(*old(player), *final(player)),
{
    *player = PlayerState {
        health: MAX_HEALTH,
        armor: 0,
        dead: false,
        velocity_x: 0,
        velocity_y: 0,
        weapons: all_weapons_table(),
        ammo: default_ammo_table(),
        current_weapon: 4,
        quad_damage: false,
        quad_timer: 0,
        spawn_protection: SPAWN_PROTECTION,
        ..*player
    };
}

/// Brings `player` back where it is due: a spawn cell is drawn from the map
/// and the player is reset. Where to put the player is for the caller, who
/// is handed the cell. A player who is not due is left as it is.
pub fn respawn_if_ready_with_rng(
    player: &mut PlayerState,
    map: &GameMap,
    rng: &mut rand_chacha::ChaCha8Rng,
) -> (outcome: RespawnOutcome)
    ensures
        !respawn_due(*old(player)) ==> outcome is NotReady && *final(player) == *old(player),
        respawn_due(*old(player)) ==> {
            &&& outcome is Respawned
            &&& respawned(*old(player), *final(player))
            &&& map.respawns@.len() == 0 ==> outcome->cell is None
            &&& map.respawns@.len() > 0 ==> outcome->cell is Some && map.respawns@.contains(
                outcome->cell->0,
            )
        },
{
    if !player.dead || player.respawn_timer > 0 {
        return RespawnOutcome::NotReady;
    }
    let cell: Option<(i32, i32)> = map.random_respawn_with_rng(rng);
    reset_for_respawn(player);
    RespawnOutcome::Respawned { cell }
}

/// The weapon slot that is `steps` steps from `current` in direction `dir`,
/// counted around the nine slots.
pub open spec fn slot_after(current: int, dir: int, steps: int) -> int {
    (current + dir * steps) % (WEAPON_COUNT as int)
}

/// The weapon that a scroll in direction `dir` brings to hand: the first
/// owned slot among those 1 to 9 steps away, tried from step `from` on; the
/// weapon in hand where none of them is owned.
pub open spec fn scrolled_weapon(weapons: Seq<bool>, current: int, dir: int, from: int) -> int
    decreases WEAPON_COUNT + 1 - from,
{
    if from < 1 || from > WEAPON_COUNT {
        current
    } else if weapons[slot_after(current, dir, from)] {
        slot_after(current, dir, from)
    } else {
        scrolled_weapon(weapons, current, dir, from + 1)
    }
}

/// The weapon in hand after an input: the weapon that the input switches
/// to, where it names one that the player owns; else the weapon that its
/// scroll brings to hand; else the weapon in hand.
pub open spec fn weapon_after_input(state: PlayerState, input: crate::room::PlayerInput) -> i32 {
    if !(0 <= state.current_weapon < WEAPON_COUNT) {
        state.current_weapon
    } else {
        match input.weapon_switch {
            Some(weapon) => if state.weapons@[weapon.spec_index()] {
                weapon.spec_index() as i32
            } else {
                state.current_weapon
            },
            None => if input.weapon_scroll == 0 {
                state.current_weapon
            } else {
                scrolled_weapon(
                    state.weapons@,
                    state.current_weapon as int,
                    if input.weapon_scroll < 0 {
                        -1
                    } else {
                        1
                    },
                    1,
                ) as i32
            },
        }
    }
}

/// The state after an input was taken over: its keys, aim and facing are
/// those of the input, and the weapon in hand is the one that the input
/// asks for.
pub open spec fn after_input(state: PlayerState, input: crate::room::PlayerInput) -> PlayerState {
    PlayerState {
        key_up: input.key_up,
        key_down: input.key_down,
        key_left: input.key_left,
        key_right: input.key_right,
        aim_angle: input.aim_angle,
        facing_left: input.facing_left,
        current_weapon: weapon_after_input(state, input),
        ..state
    }
}

/// Takes an input over into the state of its player.
pub fn apply_input_to_state(input: &crate::room::PlayerInput, state: &mut PlayerState)
    ensures
        *final(state) == after_input(*old(state), *input),
        0 <= old(state).current_weapon < WEAPON_COUNT ==> 0 <= final(state).current_weapon
            < WEAPON_COUNT,
{
    let mut weapon: i32 = state.current_weapon;
    if 0 <= weapon && weapon < 9 {
        match input.weapon_switch {
            Some(w) => {
                let idx: usize = w.index();
                if state.weapons[idx] {
                    weapon = idx as i32;
                }
            },
            None => {
                if input.weapon_scroll != 0 {
                    let dir: i32 = if input.weapon_scroll < 0 {
                        -1
                    } else {
                        1
                    };
                    let total: i32 = 9;
                    let current: i32 = weapon;
                    let mut step: i32 = 1;
                    let mut found: bool = false;
                    while step <= total && !found
                        invariant
                            1 <= step <= total + 1,
                            total == 9,
                            0 <= current < 9,
                            dir == 1 || dir == -1,
                            !found ==> weapon == current && scrolled_weapon(
                                state.weapons@,
                                current as int,
                                dir as int,
                                1,
                            ) == scrolled_weapon(
                                state.weapons@,
                                current as int,
                                dir as int,
                                step as int,
                            ),
                            found ==> weapon == scrolled_weapon(
                                state.weapons@,
                                current as int,
                                dir as int,
                                1,
                            ),
                            0 <= weapon < 9,
                        decreases total + 1 - step + (if found { 0int } else { 1int }),
                    {
                        let offset: i32 = if dir < 0 {
                            -step
                        } else {
                            step
                        };
                        let mut next: i32 = current + offset;
                        if next < 0 {
                            next = next + total;
                        }
                        if next >= total {
                            next = next - total;
                        }
                        assert(next == slot_after(current as int, dir as int, step as int)) by {
                            assert(dir * step == offset) by (nonlinear_arith)
                                requires
                                    dir == 1 && offset == step || dir == -1 && offset == -step,
                            ;
                        }
                        if state.weapons[next as usize] {
                            weapon = next;
                            found = true;
                        } else {
                            step = step + 1;
                        }
                    }
                }
            },
        }
    }
    *state = PlayerState {
        key_up: input.key_up,
        key_down: input.key_down,
        key_left: input.key_left,
        key_right: input.key_right,
        aim_angle: input.aim_angle,
        facing_left: input.facing_left,
        current_weapon: weapon,
        ..*state
    };
}

} // verus!
