//! Game maps: the brick grid with its spawn cells and item seeds, and the
//! text format that maps are written in.
//!
//! A map is text of one line per row. The bytes `0`, `1` and `2` are bricks,
//! `R` is a spawn cell, and eleven more letters and digits each seed an item.
//! Line ends at the end of the text are ignored; a carriage return before a
//! line feed belongs to the line end.

use vstd::prelude::*;

use crate::tilemap::{lemma_cell_index, Grid, TileMap};
use crate::trusted::gen_index;

verus! {

/// What an item on the map gives to the player who takes it.
#[derive(Clone, Copy, Debug, PartialEq, Eq, Structural)]
pub enum ItemKind {
    Health5,
    Health25,
    Health50,
    Health100,
    Armor50,
    Armor100,
    Quad,
    WeaponMachine,
    WeaponShotgun,
    WeaponGrenade,
    WeaponRocket,
}

/// The item that a character of the map text seeds, if it seeds one.
pub open spec fn item_of_char(ch: char) -> Option<ItemKind> {
    if ch == 'H' {
        Some(ItemKind::Health100)
    } else if ch == 'h' {
        Some(ItemKind::Health25)
    } else if ch == '5' {
        Some(ItemKind::Health5)
    } else if ch == '6' {
        Some(ItemKind::Health50)
    } else if ch == 'A' {
        Some(ItemKind::Armor100)
    } else if ch == 'a' {
        Some(ItemKind::Armor50)
    } else if ch == 'Q' {
        Some(ItemKind::Quad)
    } else if ch == 'M' {
        Some(ItemKind::WeaponMachine)
    } else if ch == 'T' {
        Some(ItemKind::WeaponShotgun)
    } else if ch == '3' {
        Some(ItemKind::WeaponGrenade)
    } else if ch == '4' {
        Some(ItemKind::WeaponRocket)
    } else {
        None
    }
}

/// The item that a byte of the map text seeds, if it seeds one.
pub open spec fn item_of_byte(b: u8) -> Option<ItemKind> {
    item_of_char(b as char)
}

impl ItemKind {
    /// The item that a character of the map text seeds, if it seeds one.
    pub fn from_char(ch: char) -> (kind: Option<Self>)
        ensures
            kind == item_of_char(ch),
    {
        match ch {
            'H' => Some(Self::Health100),
            'h' => Some(Self::Health25),
            '5' => Some(Self::Health5),
            '6' => Some(Self::Health50),
            'A' => Some(Self::Armor100),
            'a' => Some(Self::Armor50),
            'Q' => Some(Self::Quad),
            'M' => Some(Self::WeaponMachine),
            'T' => Some(Self::WeaponShotgun),
            '3' => Some(Self::WeaponGrenade),
            '4' => Some(Self::WeaponRocket),
            _ => None,
        }
    }

    /// The ticks that an item of this kind stays away after it was taken.
    pub open spec fn spec_respawn_time(self) -> i32 {
        match self {
            Self::Health5 | Self::Health25 => 300,
            Self::Health50 | Self::Armor50 => 600,
            Self::Health100 | Self::Armor100 => 900,
            Self::Quad => 1200,
            Self::WeaponMachine
            | Self::WeaponShotgun
            | Self::WeaponGrenade
            | Self::WeaponRocket => 600,
        }
    }

    /// The ticks that an item of this kind stays away after it was taken.
    pub fn respawn_time(self) -> (ticks: i32)
        ensures
            ticks == self.spec_respawn_time(),
    {
        match self {
            Self::Health5 | Self::Health25 => 300,
            Self::Health50 | Self::Armor50 => 600,
            Self::Health100 | Self::Armor100 => 900,
            Self::Quad => 1200,
            Self::WeaponMachine
            | Self::WeaponShotgun
            | Self::WeaponGrenade
            | Self::WeaponRocket => 600,
        }
    }
}

/// An item on the map: what it is, where it lies, and whether it is there now.
#[derive(Clone, Copy, Debug, PartialEq, Eq, Structural)]
pub struct MapItem {
    pub kind: ItemKind,
    pub row: i32,
    pub col: i32,
    pub active: bool,
    pub respawn_timer: i32,
}

/// A map: its grid, its spawn cells as (row, column), its items and its name.
#[derive(Clone, Debug, PartialEq)]
pub struct GameMap {
    pub rows: i32,
    pub cols: i32,
    pub bricks: Vec<u8>,
    pub respawns: Vec<(i32, i32)>,
    pub items: Vec<MapItem>,
    pub name: String,
}

/// What a map holds: its grid, its spawn cells as (row, column) in order,
/// its items in order, and its name.
pub ghost struct MapView {
    pub grid: Grid,
    pub respawns: Seq<(i32, i32)>,
    pub items: Seq<MapItem>,
    pub name: Seq<char>,
}

impl View for GameMap {
    type V = MapView;

    open spec fn view(&self) -> MapView {
        MapView {
            grid: self.grid(),
            respawns: self.respawns@,
            items: self.items@,
            name: self.name@,
        }
    }
}

impl GameMap {
    /// The grid holds exactly one cell for each position.
    pub open spec fn wf(&self) -> bool {
        self.grid().wf()
    }

    /// Whether the grid holds exactly one cell for each position.
    pub fn is_well_formed(&self) -> (ok: bool)
        ensures
            ok == self.wf(),
    {
        if self.rows < 0 || self.cols < 0 {
            return false;
        }
        assert(self.rows * self.cols <= 0x7fff_ffff * 0x7fff_ffff) by (nonlinear_arith)
            requires
                0 <= self.rows <= 0x7fff_ffff,
                0 <= self.cols <= 0x7fff_ffff,
        ;
        let cells: u64 = (self.rows as u64) * (self.cols as u64);
        self.bricks.len() as u64 == cells
    }

    #[inline]
    fn idx(&self, col: i32, row: i32) -> (i: usize)
        requires
            self.wf(),
            self.grid().inside(col as int, row as int),
        ensures
            i == row * self.cols + col,
            i < self.bricks@.len(),
    {
        proof {
            lemma_cell_index(self.rows as int, self.cols as int, col as int, row as int);
            assert(self.bricks.len() == self.bricks@.len());
        }
        row as usize * self.cols as usize + col as usize
    }

    /// Whether a position is solid: a brick, or anything off the grid.
    pub fn is_brick(&self, col: i32, row: i32) -> (b: bool)
        requires
            self.wf(),
        ensures
            b == self.grid().solid(col as int, row as int),
    {
        if row < 0 || col < 0 || row >= self.rows || col >= self.cols {
            return true;
        }
        self.bricks[self.idx(col, row)] != 0
    }

    /// The spawn cell at position `idx` of the list, if the list is that long.
    pub fn respawn_at(&self, idx: usize) -> (cell: Option<(i32, i32)>)
        ensures
            idx < self.respawns@.len() ==> cell == Some(self.respawns@[idx as int]),
            idx >= self.respawns@.len() ==> cell is None,
    {
        if idx < self.respawns.len() {
            Some(self.respawns[idx])
        } else {
            None
        }
    }

    /// A spawn cell drawn from the list with `rng`, or none where the map has none.
    pub fn random_respawn_with_rng(&self, rng: &mut rand_chacha::ChaCha8Rng) -> (cell: Option<
        (i32, i32),
    >)
        ensures
            self.respawns@.len() == 0 ==> cell is None,
            self.respawns@.len() > 0 ==> cell is Some && self.respawns@.contains(cell->0),
    {
        if self.respawns.len() == 0 {
            return None;
        }
        let idx: usize = gen_index(rng, self.respawns.len());
        self.respawn_at(idx)
    }

    /// Hands out the items and leaves the map without any.
    pub fn take_items(&mut self) -> (items: Vec<MapItem>)
        ensures
            items@ == old(self).items@,
            final(self)@ == (MapView { items: Seq::empty(), ..old(self)@ }),
            final(self).items@ == Seq::<MapItem>::empty(),
            final(self).rows == old(self).rows,
            final(self).cols == old(self).cols,
            final(self).bricks == old(self).bricks,
            final(self).respawns == old(self).respawns,
            final(self).name == old(self).name,
    {
        let mut items: Vec<MapItem> = Vec::new();
        std::mem::swap(&mut self.items, &mut items);
        items
    }
}

impl TileMap for GameMap {
    open spec fn grid(&self) -> Grid {
        Grid { rows: self.rows as int, cols: self.cols as int, cells: self.bricks@ }
    }

    fn rows(&self) -> (r: i32) {
        self.rows
    }

    fn cols(&self) -> (c: i32) {
        self.cols
    }

    fn is_brick_at(&self, col: i32, row: i32) -> (b: bool) {
        self.is_brick(col, row)
    }
}

} // verus!
