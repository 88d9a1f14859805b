//! Hand-made maps.

use crate::gameworld::resources::map::map_builder::{is_tile, tiles_of};
use vstd::prelude::*;

verus! {

/// A map drawn by hand: `#` is a wall, `.` a free tile, `@` the tile on which
/// the player starts. Line breaks and blanks do not count.
pub struct PreCon {
    /// The length of one side of the square map.
    pub size: u16,
    pub layout: &'static str,
}

/// The layout of the walled room.
pub const EMPTY_10X10: &'static str = "
    ##########
    #........#
    #........#
    #........#
    #...@....#
    #........#
    #........#
    #........#
    #........#
    ##########
    ";

/// The layout of the block of walls.
pub const TEST_3X3: &'static str = "
    ###
    ###
    ###
    ";

/// A row of the walled room that is all wall.
pub open spec fn edge_row() -> Seq<char> {
    seq!['#', '#', '#', '#', '#', '#', '#', '#', '#', '#']
}

/// A row of the walled room that is free between its two walls.
pub open spec fn free_row() -> Seq<char> {
    seq!['#', '.', '.', '.', '.', '.', '.', '.', '.', '#']
}

/// The row of the walled room on which the player starts.
pub open spec fn spawn_row() -> Seq<char> {
    seq!['#', '.', '.', '.', '@', '.', '.', '.', '.', '#']
}

/// The tiles of the walled room, row after row.
pub open spec fn room_tiles() -> Seq<char> {
    edge_row() + free_row() + free_row() + free_row() + spawn_row() + free_row() + free_row()
        + free_row() + free_row() + edge_row()
}

/// The tiles of the block of walls, row after row.
pub open spec fn block_tiles() -> Seq<char> {
    seq!['#', '#', '#'] + seq!['#', '#', '#'] + seq!['#', '#', '#']
}

/// A line of a layout as it is written down: four blanks, the tiles of a row,
/// a line break.
#[verifier::opaque]
pub open spec fn line(tiles: Seq<char>) -> Seq<char> {
    seq![' ', ' ', ' ', ' '] + tiles + seq!['\n']
}

/// The tiles of two pieces of layout are the tiles of the first and then the
/// tiles of the second.
pub proof fn lemma_tiles_of_pieces(a: Seq<char>, b: Seq<char>)
    ensures
        tiles_of(a + b) == tiles_of(a) + tiles_of(b),
{
    Seq::filter_distributes_over_add(a, b, |c: char| is_tile(c));
}

/// A piece of layout that holds tile characters only is its own tiles.
pub proof fn lemma_tiles_of_tiles(tiles: Seq<char>)
    requires
        forall|i: int| 0 <= i < tiles.len() ==> is_tile(#[trigger] tiles[i]),
    ensures
        tiles_of(tiles) == tiles,
    decreases tiles.len(),
{
    reveal(Seq::filter);
    if tiles.len() > 0 {
        lemma_tiles_of_tiles(tiles.drop_last());
        assert(tiles.drop_last().push(tiles.last()) =~= tiles);
    } else {
        assert(tiles_of(tiles) =~= tiles);
    }
}

/// The blanks and the line break around a row hold no tile.
pub proof fn lemma_tiles_of_line(tiles: Seq<char>)
    requires
        forall|i: int| 0 <= i < tiles.len() ==> is_tile(#[trigger] tiles[i]),
    ensures
        tiles_of(line(tiles)) == tiles,
{
    reveal(line);
    lemma_tiles_of_margins();
    lemma_tiles_of_tiles(tiles);
    lemma_tiles_of_pieces(seq![' ', ' ', ' ', ' '] + tiles, seq!['\n']);
    lemma_tiles_of_pieces(seq![' ', ' ', ' ', ' '], tiles);
    assert(Seq::<char>::empty() + tiles + Seq::<char>::empty() =~= tiles);
}

/// What stands before the first row and after the last holds no tile.
pub proof fn lemma_tiles_of_margins()
    ensures
        tiles_of(seq![' ', ' ', ' ', ' ']) == Seq::<char>::empty(),
        tiles_of(seq!['\n']) == Seq::<char>::empty(),
{
    reveal_with_fuel(Seq::filter, 6);
    assert(tiles_of(seq![' ', ' ', ' ', ' ']) =~= Seq::<char>::empty());
    assert(tiles_of(seq!['\n']) =~= Seq::<char>::empty());
}

/// A layout that goes on with one more line has the tiles of that line's row
/// after the tiles it had.
pub proof fn lemma_tiles_of_next_line(written: Seq<char>, row: Seq<char>)
    requires
        forall|i: int| 0 <= i < row.len() ==> is_tile(#[trigger] row[i]),
    ensures
        tiles_of(written + line(row)) == tiles_of(written) + row,
{
    lemma_tiles_of_pieces(written, line(row));
    lemma_tiles_of_line(row);
}

/// The layout of the walled room, line by line.
pub open spec fn room_lines() -> Seq<char> {
    seq!['\n'] + line(edge_row()) + line(free_row()) + line(free_row()) + line(free_row()) + line(
        spawn_row(),
    ) + line(free_row()) + line(free_row()) + line(free_row()) + line(free_row()) + line(
        edge_row(),
    ) + seq![' ', ' ', ' ', ' ']
}

/// The layout of the block of walls, line by line.
pub open spec fn block_lines() -> Seq<char> {
    seq!['\n'] + line(seq!['#', '#', '#']) + line(seq!['#', '#', '#']) + line(
        seq!['#', '#', '#'],
    ) + seq![' ', ' ', ' ', ' ']
}

/// The layout of the walled room is written as its ten lines.
pub proof fn lemma_room_lines()
    ensures
        EMPTY_10X10@ == room_lines(),
{
    reveal(line);
    reveal_strlit("
    ##########
    #........#
    #........#
    #........#
    #...@....#
    #........#
    #........#
    #........#
    #........#
    ##########
    ");
    assert(EMPTY_10X10@ =~= room_lines());
}

/// The layout of the block of walls is written as its three lines.
pub proof fn lemma_block_lines()
    ensures
        TEST_3X3@ == block_lines(),
{
    reveal(line);
    reveal_strlit("
    ###
    ###
    ###
    ");
    assert(TEST_3X3@ =~= block_lines());
}

/// A layout of ten lines between a line break and a last indent holds the
/// tiles of its ten rows.
pub proof fn lemma_tiles_of_ten_lines(rows: Seq<Seq<char>>)
    requires
        rows.len() == 10,
        forall|r: int, i: int|
            0 <= r < 10 && 0 <= i < rows[r].len() ==> is_tile(#[trigger] rows[r][i]),
    ensures
        tiles_of(
            seq!['\n'] + line(rows[0]) + line(rows[1]) + line(rows[2]) + line(rows[3]) + line(
                rows[4],
            ) + line(rows[5]) + line(rows[6]) + line(rows[7]) + line(rows[8]) + line(rows[9])
                + seq![' ', ' ', ' ', ' '],
        ) == rows[0] + rows[1] + rows[2] + rows[3] + rows[4] + rows[5] + rows[6] + rows[7]
            + rows[8] + rows[9],
{
    let w0 = seq!['\n'];
    let w1 = w0 + line(rows[0]);
    let w2 = w1 + line(rows[1]);
    let w3 = w2 + line(rows[2]);
    let w4 = w3 + line(rows[3]);
    let w5 = w4 + line(rows[4]);
    let w6 = w5 + line(rows[5]);
    let w7 = w6 + line(rows[6]);
    let w8 = w7 + line(rows[7]);
    let w9 = w8 + line(rows[8]);
    let w10 = w9 + line(rows[9]);
    let tiles = rows[0] + rows[1] + rows[2] + rows[3] + rows[4] + rows[5] + rows[6] + rows[7]
        + rows[8] + rows[9];
    lemma_tiles_of_margins();
    lemma_tiles_of_next_line(w0, rows[0]);
    assert(tiles_of(w1) == rows[0]) by {
        assert(Seq::<char>::empty() + rows[0] =~= rows[0]);
    }
    lemma_tiles_of_next_line(w1, rows[1]);
    lemma_tiles_of_next_line(w2, rows[2]);
    lemma_tiles_of_next_line(w3, rows[3]);
    lemma_tiles_of_next_line(w4, rows[4]);
    lemma_tiles_of_next_line(w5, rows[5]);
    lemma_tiles_of_next_line(w6, rows[6]);
    lemma_tiles_of_next_line(w7, rows[7]);
    lemma_tiles_of_next_line(w8, rows[8]);
    lemma_tiles_of_next_line(w9, rows[9]);
    assert(tiles_of(w10) == tiles);
    lemma_tiles_of_pieces(w10, seq![' ', ' ', ' ', ' ']);
    assert(tiles + Seq::<char>::empty() =~= tiles);
}

/// The layout of the walled room holds the tiles of the walled room.
pub proof fn lemma_room_layout()
    ensures
        tiles_of(EMPTY_10X10@) == room_tiles(),
{
    let e = edge_row();
    let f = free_row();
    let s = spawn_row();
    let rows = seq![e, f, f, f, s, f, f, f, f, e];
    lemma_room_lines();
    lemma_tiles_of_ten_lines(rows);
}

/// Whether a tile of a map of ten by ten tiles, given by its index, lies on the
/// map's edge.
pub open spec fn on_edge(idx: int) -> bool {
    idx % 10 == 0 || idx % 10 == 9 || idx / 10 == 0 || idx / 10 == 9
}

/// The walled room has walls all along its edge and nowhere else, and the
/// player starts on the fifth tile of the fifth row.
pub proof fn lemma_room_tiles()
    ensures
        room_tiles().len() == 100,
        forall|i: int| 0 <= i < 100 ==> (#[trigger] room_tiles()[i] == '#') == on_edge(i),
        forall|i: int| 0 <= i < 100 ==> (#[trigger] room_tiles()[i] == '@') == (i == 44),
{
}

/// The layout of the block of walls holds nine walls.
pub proof fn lemma_block_layout()
    ensures
        tiles_of(TEST_3X3@) == block_tiles(),
{
    let row = seq!['#', '#', '#'];
    let w0 = seq!['\n'];
    let w1 = w0 + line(row);
    let w2 = w1 + line(row);
    let w3 = w2 + line(row);
    lemma_block_lines();
    lemma_tiles_of_margins();
    lemma_tiles_of_next_line(w0, row);
    assert(tiles_of(w1) == row) by {
        assert(Seq::<char>::empty() + row =~= row);
    }
    lemma_tiles_of_next_line(w1, row);
    lemma_tiles_of_next_line(w2, row);
    assert(tiles_of(w3) == block_tiles());
    lemma_tiles_of_pieces(w3, seq![' ', ' ', ' ', ' ']);
    assert(block_tiles() + Seq::<char>::empty() =~= block_tiles());
}

/// A walled room of ten by ten tiles, the player near its middle.
pub fn empty_10x10() -> (precon: PreCon)
    ensures
        precon.size == 10,
        precon.layout@ == EMPTY_10X10@,
        tiles_of(precon.layout@) == room_tiles(),
{
    proof {
        lemma_room_layout();
    }
    PreCon { size: 10, layout: EMPTY_10X10 }
}

/// Three by three tiles, all of them walls.
pub fn test_3x3() -> (precon: PreCon)
    ensures
        precon.size == 3,
        precon.layout@ == TEST_3X3@,
        tiles_of(precon.layout@) == block_tiles(),
{
    proof {
        lemma_block_layout();
    }
    PreCon { size: 3, layout: TEST_3X3 }
}

} // verus!
