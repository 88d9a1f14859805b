//! The map of the game world: a square of tiles, kept by tile index.
//!
//! A tile's index is its column plus its row times the map's width; the
//! per-tile vectors of a map are all indexed by it.

pub mod map_builder;
pub mod precon;

use crate::common::Coords;
use crate::error::Gremlin;
use specs::Entity;
use std::collections::HashMap;
use vstd::prelude::*;

verus! {

/// `specs::Entity`, opaque to the verifier.
#[verifier::external_type_specification]
#[verifier::external_body]
pub struct ExEntity(specs::Entity);

/// Whether the position lies on a square map of the given width.
pub open spec fn on_map(square_map_width: u16, coords: Coords) -> bool {
    coords.x < square_map_width && coords.y < square_map_width
}

/// The index of the tile at the given position.
pub open spec fn tile_index(square_map_width: u16, coords: Coords) -> int {
    coords.x + coords.y * square_map_width
}

/// The position of the tile with the given index.
pub open spec fn tile_coords(square_map_width: u16, idx: int) -> Coords {
    Coords {
        x: (idx % (square_map_width as int)) as u16,
        y: (idx / (square_map_width as int)) as u16,
    }
}

/// Whether column `x`, row `y` is on the map and holds a wall.
pub open spec fn wall_at(square_map_width: u16, walls: Seq<bool>, x: int, y: int) -> bool {
    &&& 0 <= x < square_map_width
    &&& 0 <= y < square_map_width
    &&& walls[x + y * square_map_width]
}

/// The line glyph for a wall tile, chosen by which of its four neighbours are
/// walls too: the glyph has an arm towards each of them.
pub open spec fn wall_glyph(north: bool, east: bool, south: bool, west: bool) -> char {
    match (north, east, south, west) {
        (true, true, true, true) => '╋',
        (true, true, true, false) => '┣',
        (true, true, false, true) => '┻',
        (true, false, true, true) => '┫',
        (false, true, true, true) => '┳',
        (true, true, false, false) => '┗',
        (true, false, false, true) => '┛',
        (false, false, true, true) => '┓',
        (false, true, true, false) => '┏',
        (true, false, true, false) => '┃',
        (false, true, false, true) => '━',
        (true, false, false, false) => '╹',
        (false, true, false, false) => '╺',
        (false, false, true, false) => '╻',
        (false, false, false, true) => '╸',
        (false, false, false, false) => '■',
    }
}

/// The character that shows a tile where walls are drawn as lines: the line
/// glyph of a wall, a dot for anything else.
pub open spec fn tile_glyph(square_map_width: u16, walls: Seq<bool>, x: int, y: int) -> char {
    if wall_at(square_map_width, walls, x, y) {
        wall_glyph(
            wall_at(square_map_width, walls, x, y - 1),
            wall_at(square_map_width, walls, x + 1, y),
            wall_at(square_map_width, walls, x, y + 1),
            wall_at(square_map_width, walls, x - 1, y),
        )
    } else {
        '.'
    }
}

/// The character that shows a tile where walls are drawn plainly: `#` for a
/// wall, a dot for anything else.
pub open spec fn tile_mark(square_map_width: u16, walls: Seq<bool>, x: int, y: int) -> char {
    if wall_at(square_map_width, walls, x, y) {
        '#'
    } else {
        '.'
    }
}

/// A position on the map has an index below the number of tiles, and the
/// index leads back to the position.
pub proof fn lemma_index_of_coords(square_map_width: u16, coords: Coords)
    requires
        on_map(square_map_width, coords),
    ensures
        0 <= tile_index(square_map_width, coords) < square_map_width * square_map_width,
        tile_index(square_map_width, coords) <= usize::MAX,
        tile_coords(square_map_width, tile_index(square_map_width, coords)) == coords,
{
    let w = square_map_width as int;
    let x = coords.x as int;
    let y = coords.y as int;
    assert(y * w <= (w - 1) * w) by (nonlinear_arith)
        requires
            0 <= y <= w - 1,
            0 < w,
    ;
    assert(0 <= y * w) by (nonlinear_arith)
        requires
            0 <= y,
            0 < w,
    ;
    assert((w - 1) * w + w == w * w) by (nonlinear_arith);
    assert(w * w <= 65535 * 65535) by (nonlinear_arith)
        requires
            0 < w <= 65535,
    ;
    vstd::arithmetic::div_mod::lemma_fundamental_div_mod_converse(x + y * w, w, y, x);
}

/// An index below the number of tiles has a position on the map, and the
/// position leads back to the index.
pub proof fn lemma_coords_of_index(square_map_width: u16, idx: int)
    requires
        0 <= idx < square_map_width * square_map_width,
    ensures
        on_map(square_map_width, tile_coords(square_map_width, idx)),
        tile_index(square_map_width, tile_coords(square_map_width, idx)) == idx,
        0 <= idx % (square_map_width as int) < square_map_width,
        0 <= idx / (square_map_width as int) < square_map_width,
{
    let w = square_map_width as int;
    assert(w > 0) by (nonlinear_arith)
        requires
            0 <= idx < w * w,
            0 <= w,
    ;
    vstd::arithmetic::div_mod::lemma_fundamental_div_mod(idx, w);
    vstd::arithmetic::div_mod::lemma_mod_bound(idx, w);
    vstd::arithmetic::div_mod::lemma_div_pos_is_pos(idx, w);
    let q = idx / w;
    assert(q < w) by (nonlinear_arith)
        requires
            idx == w * q + idx % w,
            0 <= idx % w,
            idx < w * w,
            0 < w,
    ;
    assert(w * q == q * w) by (nonlinear_arith);
}

/// The map of one level.
pub struct GameMap {
    /// Set when the map has changed since it was last drawn.
    pub dirty_flag: bool,
    /// The length of one side of the map, in tiles.
    pub size: u16,
    /// The index of the tile on which the player starts.
    pub player_spawnpoint: usize,
    /// By tile index: whether the tile is a wall.
    pub walls: Vec<bool>,
    /// By tile index: whether the tile cannot be walked on.
    pub blocked: Vec<bool>,
    /// By tile index: the entities on the tile.
    pub tile_contents: HashMap<usize, [Entity; 8]>,
}

impl GameMap {
    /// Each per-tile vector has one entry for each tile.
    pub open spec fn wf(&self) -> bool {
        &&& self.walls@.len() == self.size * self.size
        &&& self.blocked@.len() == self.size * self.size
    }

    /// Whether the map has changed since it was last drawn.
    pub fn is_dirty(&self) -> (dirty: bool)
        ensures
            dirty == self.dirty_flag,
    {
        self.dirty_flag
    }

    /// Marks the map as drawn. Nothing else changes.
    pub fn clean(&mut self)
        ensures
            !final(self).dirty_flag,
            final(self).size == old(self).size,
            final(self).player_spawnpoint == old(self).player_spawnpoint,
            final(self).walls == old(self).walls,
            final(self).blocked == old(self).blocked,
            final(self).tile_contents == old(self).tile_contents,
    {
        self.dirty_flag = false;
    }

    /// A builder with nothing set.
    pub fn builder() -> (builder: map_builder::MapBuilder)
        ensures
            builder.size() is None,
            builder.layout() is None,
    {
        map_builder::MapBuilder::new()
    }

    /// The empty map of `size` by `size` tiles, with `size` converted to `u16`
    /// as the standard library converts it.
    pub fn new<T: Into<u16> + Copy>(size: T) -> (map: Self)
        ensures
            call_ensures(T::into, (size,), map.size),
            map.wf(),
            !map.dirty_flag,
            map.player_spawnpoint == 11,
            forall|i: int| 0 <= i < map.walls@.len() ==> !map.walls@[i],
            forall|i: int| 0 <= i < map.blocked@.len() ==> !map.blocked@[i],
            map.tile_contents@ == Map::<usize, [Entity; 8]>::empty(),
    {
        GameMap::empty(size.into())
    }

    /// An empty map of `size` by `size` tiles: no wall, nothing blocked, no
    /// entity anywhere, the player's start at tile 11.
    pub fn empty(size: u16) -> (map: Self)
        ensures
            map.size == size,
            map.wf(),
            !map.dirty_flag,
            map.player_spawnpoint == 11,
            forall|i: int| 0 <= i < map.walls@.len() ==> !map.walls@[i],
            forall|i: int| 0 <= i < map.blocked@.len() ==> !map.blocked@[i],
            map.tile_contents@ == Map::<usize, [Entity; 8]>::empty(),
    {
        let tiles: usize = tile_count(size);
        GameMap {
            dirty_flag: false,
            size,
            player_spawnpoint: 11,
            walls: vec![false; tiles],
            blocked: vec![false; tiles],
            tile_contents: HashMap::new(),
        }
    }

    /// The index of the tile at `coords`, which must lie on this map.
    pub fn coords_to_idx(&self, coords: Coords) -> (r: Result<usize, Gremlin>)
        ensures
            on_map(self.size, coords) ==> r == Ok::<usize, Gremlin>(
                tile_index(self.size, coords) as usize,
            ),
            !on_map(self.size, coords) ==> r == Err::<usize, Gremlin>(Gremlin::InvalidInput),
    {
        GameMap::pure_coords_to_idx(self.size, coords)
    }

    /// The position of the tile with index `idx`, which must be below the
    /// number of tiles of this map.
    pub fn idx_to_coords<T: Into<u32>>(&self, idx: T) -> (r: Result<Coords, Gremlin>)
        ensures
            exists|i: u32| #[trigger]
                call_ensures(T::into, (idx,), i) && r == coords_of(self.size, i),
    {
        GameMap::pure_coords_at(self.size, idx.into())
    }

    /// The position of the tile with index `idx`, which must be below the
    /// number of tiles of this map.
    pub fn coords_at(&self, idx: u32) -> (r: Result<Coords, Gremlin>)
        ensures
            r == coords_of(self.size, idx),
    {
        GameMap::pure_coords_at(self.size, idx)
    }

    /// The line glyph for the wall at `wall_coords`: it joins up with each of
    /// the four neighbours that is a wall as well. A position that is off the
    /// map or holds no wall is refused.
    pub fn prettify_wall(square_map_width: u16, walls_vec: &Vec<bool>, wall_coords: Coords) -> (r:
        Result<char, Gremlin>)
        requires
            walls_vec@.len() >= square_map_width * square_map_width,
        ensures
            wall_at(square_map_width, walls_vec@, wall_coords.x as int, wall_coords.y as int) ==> r
                == Ok::<char, Gremlin>(
                wall_glyph(
                    wall_at(square_map_width, walls_vec@, wall_coords.x as int, wall_coords.y - 1),
                    wall_at(square_map_width, walls_vec@, wall_coords.x + 1, wall_coords.y as int),
                    wall_at(square_map_width, walls_vec@, wall_coords.x as int, wall_coords.y + 1),
                    wall_at(square_map_width, walls_vec@, wall_coords.x - 1, wall_coords.y as int),
                ),
            ),
            !wall_at(square_map_width, walls_vec@, wall_coords.x as int, wall_coords.y as int)
                ==> r == Err::<char, Gremlin>(Gremlin::InvalidInput),
    {
        let wall_idx = match GameMap::pure_coords_to_idx(square_map_width, wall_coords) {
            Ok(idx) => idx,
            Err(e) => {
                return Err(e);
            },
        };
        proof {
            lemma_index_of_coords(square_map_width, wall_coords);
        }
        if !walls_vec[wall_idx] {
            return Err(Gremlin::InvalidInput);
        }
        let north = GameMap::stands_on_wall(
            square_map_width,
            walls_vec,
            Coords::north_of(wall_coords),
        );
        let east = GameMap::stands_on_wall(
            square_map_width,
            walls_vec,
            Coords::east_of(wall_coords, square_map_width),
        );
        let south = GameMap::stands_on_wall(
            square_map_width,
            walls_vec,
            Coords::south_of(wall_coords, square_map_width),
        );
        let west = GameMap::stands_on_wall(
            square_map_width,
            walls_vec,
            Coords::west_of(wall_coords),
        );
        let glyph = match (north, east, south, west) {
            // Four orthogonally adjacent
            (true, true, true, true) => '╋',
            // Three adjacent
            (true, true, true, false) => '┣',
            (true, true, false, true) => '┻',
            (true, false, true, true) => '┫',
            (false, true, true, true) => '┳',
            // Two adjacent
            (true, true, false, false) => '┗',
            (true, false, false, true) => '┛',
            (false, false, true, true) => '┓',
            (false, true, true, false) => '┏',
            (true, false, true, false) => '┃',
            (false, true, false, true) => '━',
            // One adjacent
            (true, false, false, false) => '╹',
            (false, true, false, false) => '╺',
            (false, false, true, false) => '╻',
            (false, false, false, true) => '╸',
            // None adjacent
            (false, false, false, false) => '■',
        };
        Ok(glyph)
    }

    /// One row of the map as it is shown with walls drawn as lines, west to
    /// east.
    pub fn glyph_row(square_map_width: u16, walls_vec: &Vec<bool>, row: u16) -> (glyphs: Vec<char>)
        requires
            walls_vec@.len() >= square_map_width * square_map_width,
            row < square_map_width,
        ensures
            glyphs@.len() == square_map_width,
            forall|x: int|
                0 <= x < square_map_width ==> #[trigger] glyphs@[x] == tile_glyph(
                    square_map_width,
                    walls_vec@,
                    x,
                    row as int,
                ),
    {
        let mut glyphs: Vec<char> = Vec::new();
        let mut column: u16 = 0;
        while column < square_map_width
            invariant
                column <= square_map_width,
                row < square_map_width,
                walls_vec@.len() >= square_map_width * square_map_width,
                glyphs@.len() == column,
                forall|x: int|
                    0 <= x < column ==> #[trigger] glyphs@[x] == tile_glyph(
                        square_map_width,
                        walls_vec@,
                        x,
                        row as int,
                    ),
            decreases square_map_width - column,
        {
            let glyph = match GameMap::prettify_wall(
                square_map_width,
                walls_vec,
                Coords { x: column, y: row },
            ) {
                Ok(glyph) => glyph,
                Err(_) => '.',
            };
            glyphs.push(glyph);
            column += 1;
        }
        glyphs
    }

    /// One row of the map as it is shown with walls drawn plainly, west to
    /// east.
    pub fn mark_row(square_map_width: u16, walls_vec: &Vec<bool>, row: u16) -> (marks: Vec<char>)
        requires
            walls_vec@.len() >= square_map_width * square_map_width,
            row < square_map_width,
        ensures
            marks@.len() == square_map_width,
            forall|x: int|
                0 <= x < square_map_width ==> #[trigger] marks@[x] == tile_mark(
                    square_map_width,
                    walls_vec@,
                    x,
                    row as int,
                ),
    {
        let mut marks: Vec<char> = Vec::new();
        let mut column: u16 = 0;
        while column < square_map_width
            invariant
                column <= square_map_width,
                row < square_map_width,
                walls_vec@.len() >= square_map_width * square_map_width,
                marks@.len() == column,
                forall|x: int|
                    0 <= x < column ==> #[trigger] marks@[x] == tile_mark(
                        square_map_width,
                        walls_vec@,
                        x,
                        row as int,
                    ),
            decreases square_map_width - column,
        {
            let wall = GameMap::stands_on_wall(
                square_map_width,
                walls_vec,
                Ok(Coords { x: column, y: row }),
            );
            marks.push(if wall { '#' } else { '.' });
            column += 1;
        }
        marks
    }

    /// Whether a step ended on a wall. A step that would have left the map
    /// ended nowhere.
    fn stands_on_wall(
        square_map_width: u16,
        walls_vec: &Vec<bool>,
        step: Result<Coords, Gremlin>,
    ) -> (wall: bool)
        requires
            walls_vec@.len() >= square_map_width * square_map_width,
            step matches Ok(coords) ==> on_map(square_map_width, coords),
        ensures
            wall == (step matches Ok(coords) && wall_at(
                square_map_width,
                walls_vec@,
                coords.x as int,
                coords.y as int,
            )),
    {
        match step {
            Ok(coords) => {
                proof {
                    lemma_index_of_coords(square_map_width, coords);
                }
                match GameMap::pure_coords_to_idx(square_map_width, coords) {
                    Ok(idx) => walls_vec[idx],
                    Err(_) => false,
                }
            },
            Err(_) => false,
        }
    }

    /// The index of the tile at `coords` on a square map of the given width.
    pub fn pure_coords_to_idx(square_map_width: u16, coords: Coords) -> (r: Result<usize, Gremlin>)
        ensures
            on_map(square_map_width, coords) ==> r == Ok::<usize, Gremlin>(
                tile_index(square_map_width, coords) as usize,
            ),
            !on_map(square_map_width, coords) ==> r == Err::<usize, Gremlin>(Gremlin::InvalidInput),
    {
        if coords.x < square_map_width && coords.y < square_map_width {
            proof {
                lemma_index_of_coords(square_map_width, coords);
                assert(coords.y * square_map_width <= 65535 * 65535) by (nonlinear_arith)
                    requires
                        0 <= coords.y <= 65535,
                        0 <= square_map_width <= 65535,
                ;
            }
            let row_start: u32 = coords.y as u32 * square_map_width as u32;
            return Ok((coords.x as u32 + row_start) as usize);
        }
        Err(Gremlin::InvalidInput)
    }

    /// The position of the tile with index `idx` on a square map of the given
    /// width.
    pub fn pure_idx_to_coords<T: Into<u32>>(square_map_width: u16, idx: T) -> (r: Result<
        Coords,
        Gremlin,
    >)
        ensures
            exists|i: u32| #[trigger]
                call_ensures(T::into, (idx,), i) && r == coords_of(square_map_width, i),
    {
        GameMap::pure_coords_at(square_map_width, idx.into())
    }

    /// The position of the tile with index `idx` on a square map of the given
    /// width.
    pub fn pure_coords_at(square_map_width: u16, idx: u32) -> (r: Result<Coords, Gremlin>)
        ensures
            r == coords_of(square_map_width, idx),
    {
        let size = square_map_width as u32;
        assert(size * size <= u32::MAX) by (nonlinear_arith)
            requires
                0 <= size <= 65535,
        ;
        if idx < size * size {
            proof {
                lemma_coords_of_index(square_map_width, idx as int);
            }
            let x = (idx % size) as u16;
            let y = (idx / size) as u16;
            return Ok(Coords { x, y });
        }
        Err(Gremlin::InvalidInput)
    }
}

/// What the index `idx` stands for on a square map of the given width: the
/// tile's position, or nothing where the map has no such tile.
pub open spec fn coords_of(square_map_width: u16, idx: u32) -> Result<Coords, Gremlin> {
    if idx < square_map_width * square_map_width {
        Ok(tile_coords(square_map_width, idx as int))
    } else {
        Err(Gremlin::InvalidInput)
    }
}

/// The number of tiles of a square map of the given width.
pub fn tile_count(square_map_width: u16) -> (tiles: usize)
    ensures
        tiles == square_map_width * square_map_width,
{
    assert(square_map_width * square_map_width <= u32::MAX) by (nonlinear_arith)
        requires
            0 <= square_map_width <= 65535,
    ;
    (square_map_width as u32 * square_map_width as u32) as usize
}

} // verus!
