//! The text format of maps, and the parser that reads it.

use vstd::prelude::*;
use vstd::utf8::encode_utf8;
use crate::map::{item_of_byte, GameMap, ItemKind, MapItem};
use crate::tilemap::TileMap;

verus! {

pub const LINE_FEED: u8 = 10;
pub const CARRIAGE_RETURN: u8 = 13;
pub const SPAWN_MARK: u8 = 82;

/// Whether a byte of the map text is a brick: one of `0`, `1`, `2`.
pub open spec fn is_brick_byte(b: u8) -> bool {
    b == 48 || b == 49 || b == 50
}

/// Whether a byte ends a line or belongs to a line end.
pub open spec fn is_line_end(b: u8) -> bool {
    b == LINE_FEED || b == CARRIAGE_RETURN
}

/// The length of the text without the line ends that close it.
pub open spec fn trimmed_len(t: Seq<u8>) -> nat
    decreases t.len(),
{
    if t.len() > 0 && is_line_end(t.last()) {
        trimmed_len(t.drop_last())
    } else {
        t.len()
    }
}

/// The text without the line ends that close it.
pub open spec fn trim_line_ends(t: Seq<u8>) -> Seq<u8> {
    t.take(trimmed_len(t) as int)
}

/// Where the line that starts at `start` stops: at the next line feed, or at
/// the end of the text.
pub open spec fn line_stop(t: Seq<u8>, start: int) -> int
    decreases t.len() - start,
{
    if start < 0 || start >= t.len() {
        t.len() as int
    } else if t[start] == LINE_FEED {
        start
    } else {
        line_stop(t, start + 1)
    }
}

/// The line between `start` and `stop`. Where a line feed stands at `stop`,
/// a carriage return just before it belongs to the line end.
pub open spec fn line_between(t: Seq<u8>, start: int, stop: int) -> Seq<u8> {
    if stop < t.len() && start < stop && t[stop - 1] == CARRIAGE_RETURN {
        t.subrange(start, stop - 1)
    } else {
        t.subrange(start, stop)
    }
}

/// A line stops at or after its start, and within the text.
pub proof fn lemma_line_stop_bounds(t: Seq<u8>, start: int)
    requires
        0 <= start <= t.len(),
    ensures
        start <= line_stop(t, start) <= t.len(),
        line_stop(t, start) < t.len() ==> t[line_stop(t, start)] == LINE_FEED,
    decreases t.len() - start,
{
    if start < t.len() && t[start] != LINE_FEED {
        lemma_line_stop_bounds(t, start + 1);
    }
}

/// The lines of the text from `start` on.
pub open spec fn lines_from(t: Seq<u8>, start: int) -> Seq<Seq<u8>>
    decreases t.len() + 1 - start,
{
    if start < 0 || start >= t.len() {
        Seq::empty()
    } else {
        proof {
            lemma_line_stop_bounds(t, start);
        }
        seq![line_between(t, start, line_stop(t, start))] + lines_from(
            t,
            line_stop(t, start) + 1,
        )
    }
}

/// The rows of a map text: its lines, the line ends at its end left out.
pub open spec fn map_lines(text: Seq<u8>) -> Seq<Seq<u8>> {
    lines_from(trim_line_ends(text), 0)
}

/// The length of the longest of the first `n` lines.
pub open spec fn max_width(lines: Seq<Seq<u8>>, n: nat) -> nat
    decreases n,
{
    if n == 0 {
        0
    } else {
        let rest = max_width(lines, (n - 1) as nat);
        if lines[n - 1].len() > rest {
            lines[n - 1].len()
        } else {
            rest
        }
    }
}

/// The cell that `line` gives to column `col`: 1 for a brick, else 0; a line
/// that ends before the column gives 0.
pub open spec fn cell_of(line: Seq<u8>, col: int) -> u8 {
    if 0 <= col < line.len() && is_brick_byte(line[col]) {
        1
    } else {
        0
    }
}

/// The first `n` cells of the row that `line` gives.
pub open spec fn row_cells(line: Seq<u8>, n: nat) -> Seq<u8> {
    Seq::new(n, |col: int| cell_of(line, col))
}

/// The cells of the first `rows` lines, row after row, each `cols` wide.
pub open spec fn grid_cells(lines: Seq<Seq<u8>>, cols: nat, rows: nat) -> Seq<u8>
    decreases rows,
{
    if rows == 0 {
        Seq::empty()
    } else {
        grid_cells(lines, cols, (rows - 1) as nat) + row_cells(lines[rows - 1], cols)
    }
}

/// The spawn cells among the first `n` bytes of a line, as (row, column).
pub open spec fn row_spawns(line: Seq<u8>, row: int, n: nat) -> Seq<(i32, i32)>
    decreases n,
{
    if n == 0 {
        Seq::empty()
    } else if line[n - 1] == SPAWN_MARK {
        row_spawns(line, row, (n - 1) as nat).push((row as i32, (n - 1) as i32))
    } else {
        row_spawns(line, row, (n - 1) as nat)
    }
}

/// The spawn cells of the first `rows` lines, in reading order.
pub open spec fn spawn_cells(lines: Seq<Seq<u8>>, rows: nat) -> Seq<(i32, i32)>
    decreases rows,
{
    if rows == 0 {
        Seq::empty()
    } else {
        spawn_cells(lines, (rows - 1) as nat) + row_spawns(
            lines[rows - 1],
            rows - 1,
            lines[rows - 1].len(),
        )
    }
}

/// The item that a byte at (`row`, `col`) seeds: there, and not yet taken.
pub open spec fn seeded(kind: ItemKind, row: int, col: int) -> MapItem {
    MapItem { kind, row: row as i32, col: col as i32, active: true, respawn_timer: 0 }
}

/// The items among the first `n` bytes of a line.
pub open spec fn row_items(line: Seq<u8>, row: int, n: nat) -> Seq<MapItem>
    decreases n,
{
    if n == 0 {
        Seq::empty()
    } else {
        match item_of_byte(line[n - 1]) {
            Some(kind) => row_items(line, row, (n - 1) as nat).push(seeded(kind, row, n - 1)),
            None => row_items(line, row, (n - 1) as nat),
        }
    }
}

/// The items of the first `rows` lines, in reading order.
pub open spec fn item_seeds(lines: Seq<Seq<u8>>, rows: nat) -> Seq<MapItem>
    decreases rows,
{
    if rows == 0 {
        Seq::empty()
    } else {
        item_seeds(lines, (rows - 1) as nat) + row_items(
            lines[rows - 1],
            rows - 1,
            lines[rows - 1].len(),
        )
    }
}

/// Whether a map of these lines can be held: its rows and columns fit `i32`
/// and its cells can be counted in `usize`.
pub open spec fn lines_fit(lines: Seq<Seq<u8>>) -> bool {
    &&& lines.len() <= i32::MAX
    &&& max_width(lines, lines.len()) <= i32::MAX
    &&& lines.len() * max_width(lines, lines.len()) <= usize::MAX
}

/// Whether `map` is what `lines` describe, under the name `name`.
pub open spec fn is_map_of(map: GameMap, lines: Seq<Seq<u8>>, name: Seq<char>) -> bool {
    &&& map.rows == lines.len()
    &&& map.cols == max_width(lines, lines.len())
    &&& map.bricks@ == grid_cells(lines, map.cols as nat, lines.len())
    &&& map.respawns@ == spawn_cells(lines, lines.len())
    &&& map.items@ == item_seeds(lines, lines.len())
    &&& map.name@ == name
}

/// What a list of line slices holds.
pub open spec fn slices_view(v: Seq<&[u8]>) -> Seq<Seq<u8>> {
    Seq::new(v.len(), |i: int| v[i]@)
}

/// No line among the first `n` is longer than their longest.
pub proof fn lemma_max_width_bounds(lines: Seq<Seq<u8>>, n: nat, i: int)
    requires
        0 <= i < n,
    ensures
        lines[i].len() <= max_width(lines, n),
    decreases n,
{
    if i < n - 1 {
        lemma_max_width_bounds(lines, (n - 1) as nat, i);
    }
}

/// The length of `bytes` without the line ends that close it.
fn trimmed_end(bytes: &[u8]) -> (end: usize)
    ensures
        end == trimmed_len(bytes@),
        end <= bytes.len(),
{
    let mut end: usize = bytes.len();
    assert(bytes@.take(end as int) =~= bytes@);
    while end > 0 && (bytes[end - 1] == LINE_FEED || bytes[end - 1] == CARRIAGE_RETURN)
        invariant
            end <= bytes.len(),
            trimmed_len(bytes@) == trimmed_len(bytes@.take(end as int)),
        decreases end,
    {
        assert(bytes@.take(end as int).drop_last() =~= bytes@.take(end - 1));
        end = end - 1;
    }
    end
}

/// Where the line that starts at `start` stops.
fn find_line_stop(t: &[u8], start: usize) -> (stop: usize)
    requires
        start <= t.len(),
    ensures
        stop == line_stop(t@, start as int),
        start <= stop <= t.len(),
{
    let mut i: usize = start;
    while i < t.len() && t[i] != LINE_FEED
        invariant
            start <= i <= t.len(),
            line_stop(t@, start as int) == line_stop(t@, i as int),
        decreases t.len() - i,
    {
        i = i + 1;
    }
    i
}

/// The lines of `t`, each as a slice of it.
fn split_lines<'a>(t: &'a [u8]) -> (lines: Vec<&'a [u8]>)
    ensures
        slices_view(lines@) == lines_from(t@, 0),
{
    let mut lines: Vec<&'a [u8]> = Vec::new();
    let mut start: usize = 0;
    assert(slices_view(lines@) + lines_from(t@, 0) =~= lines_from(t@, 0));
    while start < t.len()
        invariant
            start <= t.len(),
            lines_from(t@, 0) == slices_view(lines@) + lines_from(t@, start as int),
        decreases t.len() - start,
    {
        let stop: usize = find_line_stop(t, start);
        let cut: usize = if stop < t.len() && start < stop && t[stop - 1] == CARRIAGE_RETURN {
            stop - 1
        } else {
            stop
        };
        let line: &'a [u8] = &t[start..cut];
        let ghost before = lines@;
        lines.push(line);
        proof {
            assert(line@ == line_between(t@, start as int, stop as int));
            assert(slices_view(lines@) =~= slices_view(before) + seq![line@]);
            assert(lines_from(t@, start as int) == seq![line@] + lines_from(t@, stop + 1));
            assert(lines_from(t@, 0) =~= slices_view(lines@) + lines_from(t@, stop + 1));
        }
        if stop == t.len() {
            start = t.len();
        } else {
            start = stop + 1;
        }
    }
    assert(slices_view(lines@) + lines_from(t@, start as int) =~= slices_view(lines@));
    lines
}

/// The length of the longest line.
fn widest(lines: &Vec<&[u8]>) -> (width: usize)
    ensures
        width == max_width(slices_view(lines@), lines@.len()),
{
    let mut width: usize = 0;
    let mut i: usize = 0;
    while i < lines.len()
        invariant
            i <= lines.len(),
            width == max_width(slices_view(lines@), i as nat),
        decreases lines.len() - i,
    {
        let len: usize = lines[i].len();
        if len > width {
            width = len;
        }
        i = i + 1;
    }
    width
}

/// The map that `lines` describe, `cols` wide.
fn build_map(lines: &Vec<&[u8]>, cols: usize, map_name: &str) -> (map: GameMap)
    requires
        lines_fit(slices_view(lines@)),
        cols == max_width(slices_view(lines@), lines@.len()),
    ensures
        is_map_of(map, slices_view(lines@), map_name@),
        map.wf(),
{
    let ghost all = slices_view(lines@);
    let rows: usize = lines.len();
    let mut bricks: Vec<u8> = Vec::new();
    let mut respawns: Vec<(i32, i32)> = Vec::new();
    let mut items: Vec<MapItem> = Vec::new();
    let mut row: usize = 0;
    while row < rows
        invariant
            row <= rows,
            rows == lines@.len(),
            all == slices_view(lines@),
            lines_fit(all),
            cols == max_width(all, rows as nat),
            bricks@ == grid_cells(all, cols as nat, row as nat),
            respawns@ == spawn_cells(all, row as nat),
            items@ == item_seeds(all, row as nat),
        decreases rows - row,
    {
        let line: &[u8] = lines[row];
        let ghost above = bricks@;
        let ghost spawns_above = respawns@;
        let ghost items_above = items@;
        proof {
            lemma_max_width_bounds(all, rows as nat, row as int);
            assert(line@ == all[row as int]);
        }
        let mut col: usize = 0;
        assert(bricks@ =~= above + row_cells(line@, 0));
        assert(respawns@ =~= spawns_above + row_spawns(line@, row as int, 0));
        assert(items@ =~= items_above + row_items(line@, row as int, 0));
        while col < line.len()
            invariant
                col <= line.len() <= cols <= i32::MAX,
                row < rows <= i32::MAX,
                bricks@ == above + row_cells(line@, col as nat),
                respawns@ == spawns_above + row_spawns(line@, row as int, col as nat),
                items@ == items_above + row_items(line@, row as int, col as nat),
            decreases line.len() - col,
        {
            let byte: u8 = line[col];
            let is_brick: bool = byte == 48 || byte == 49 || byte == 50;
            bricks.push(if is_brick { 1 } else { 0 });
            if byte == SPAWN_MARK {
                respawns.push((row as i32, col as i32));
            }
            match ItemKind::from_char(byte as char) {
                Some(kind) => {
                    items.push(
                        MapItem {
                            kind,
                            row: row as i32,
                            col: col as i32,
                            active: true,
                            respawn_timer: 0,
                        },
                    );
                },
                None => {},
            }
            proof {
                assert(row_cells(line@, (col + 1) as nat) =~= row_cells(line@, col as nat).push(
                    cell_of(line@, col as int),
                ));
                assert(bricks@ =~= above + row_cells(line@, (col + 1) as nat));
                assert(respawns@ =~= spawns_above + row_spawns(
                    line@,
                    row as int,
                    (col + 1) as nat,
                ));
                assert(items@ =~= items_above + row_items(line@, row as int, (col + 1) as nat));
            }
            col = col + 1;
        }
        while col < cols
            invariant
                line.len() <= col <= cols,
                bricks@ == above + row_cells(line@, col as nat),
            decreases cols - col,
        {
            bricks.push(0);
            proof {
                assert(row_cells(line@, (col + 1) as nat) =~= row_cells(line@, col as nat).push(
                    cell_of(line@, col as int),
                ));
                assert(bricks@ =~= above + row_cells(line@, (col + 1) as nat));
            }
            col = col + 1;
        }
        row = row + 1;
    }
    proof {
        lemma_grid_cells_len(all, cols as nat, rows as nat);
    }
    GameMap {
        rows: rows as i32,
        cols: cols as i32,
        bricks,
        respawns,
        items,
        name: map_name.to_owned(),
    }
}

/// Reads a map from its text. The text must describe a map that can be held
/// (see [`lines_fit`]); [`try_parse_map`] reads any text.
pub fn parse_map(map_text: &str, map_name: &str) -> (map: GameMap)
    requires
        lines_fit(map_lines(encode_utf8(map_text@))),
    ensures
        is_map_of(map, map_lines(encode_utf8(map_text@)), map_name@),
        map.wf(),
{
    let bytes: &[u8] = map_text.as_bytes();
    let end: usize = trimmed_end(bytes);
    let text: &[u8] = &bytes[0..end];
    assert(text@ =~= trim_line_ends(bytes@));
    let lines: Vec<&[u8]> = split_lines(text);
    let cols: usize = widest(&lines);
    build_map(&lines, cols, map_name)
}

/// Reads a map from its text, where the text describes a map that can be
/// held: its rows and columns fit `i32` and its cells can be counted.
pub fn try_parse_map(map_text: &str, map_name: &str) -> (parsed: Option<GameMap>)
    ensures
        parsed is Some <==> lines_fit(map_lines(encode_utf8(map_text@))),
        parsed matches Some(map) ==> is_map_of(
            map,
            map_lines(encode_utf8(map_text@)),
            map_name@,
        ) && map.wf(),
{
    let bytes: &[u8] = map_text.as_bytes();
    let end: usize = trimmed_end(bytes);
    let text: &[u8] = &bytes[0..end];
    assert(text@ =~= trim_line_ends(bytes@));
    let lines: Vec<&[u8]> = split_lines(text);
    let cols: usize = widest(&lines);
    if lines.len() > 0x7fff_ffff || cols > 0x7fff_ffff {
        return None;
    }
    if lines.len().checked_mul(cols).is_none() {
        return None;
    }
    Some(build_map(&lines, cols, map_name))
}

/// The cells of `rows` rows of `cols` columns are `rows * cols` many.
pub proof fn lemma_grid_cells_len(lines: Seq<Seq<u8>>, cols: nat, rows: nat)
    ensures
        grid_cells(lines, cols, rows).len() == rows * cols,
    decreases rows,
{
    if rows > 0 {
        let above: nat = (rows - 1) as nat;
        lemma_grid_cells_len(lines, cols, above);
        assert(rows * cols == above * cols + cols) by (nonlinear_arith)
            requires
                rows == above + 1,
        ;
    } else {
        assert(rows * cols == 0) by (nonlinear_arith)
            requires
                rows == 0,
        ;
    }
}

/// The cell at (`col`, `row`) of the grid is the one that line `row` gives to
/// column `col`.
pub proof fn lemma_grid_cell(lines: Seq<Seq<u8>>, cols: nat, rows: nat, col: int, row: int)
    requires
        0 <= row < rows,
        0 <= col < cols,
    ensures
        0 <= row * cols + col < grid_cells(lines, cols, rows).len(),
        grid_cells(lines, cols, rows)[row * cols + col] == cell_of(lines[row], col),
    decreases rows,
{
    lemma_grid_cells_len(lines, cols, rows);
    lemma_grid_cells_len(lines, cols, (rows - 1) as nat);
    crate::tilemap::lemma_cell_index(rows as int, cols as int, col, row);
    if row == rows - 1 {
        assert(grid_cells(lines, cols, rows)[row * cols + col] == row_cells(lines[row], cols)[col]);
    } else {
        lemma_grid_cell(lines, cols, (rows - 1) as nat, col, row);
        crate::tilemap::lemma_cell_index(rows - 1, cols as int, col, row);
    }
}

/// A parsed map answers `is_brick` from its text: a position on the grid is
/// solid exactly where its line holds a brick byte in that column.
pub proof fn lemma_map_of_solid(
    map: GameMap,
    lines: Seq<Seq<u8>>,
    name: Seq<char>,
    col: int,
    row: int,
)
    requires
        is_map_of(map, lines, name),
        0 <= row < map.rows,
        0 <= col < map.cols,
    ensures
        map.wf(),
        map.grid().solid(col, row) == (col < lines[row].len() && is_brick_byte(lines[row][col])),
{
    lemma_grid_cells_len(lines, map.cols as nat, lines.len());
    lemma_grid_cell(lines, map.cols as nat, lines.len(), col, row);
}

} // verus!
