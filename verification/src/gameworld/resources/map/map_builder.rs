//! Builds a map step by step.

use crate::gameworld::resources::map::precon::PreCon;
use crate::gameworld::resources::map::{tile_count, GameMap};
use specs::Entity;
use vstd::prelude::*;

verus! {

/// Whether a character of a layout stands for a tile: line breaks and blanks
/// only lay the text out.
pub open spec fn is_tile(c: char) -> bool {
    c != '\r' && c != '\n' && c != ' '
}

/// The tile characters of a layout, in order.
pub open spec fn tiles_of(layout: Seq<char>) -> Seq<char> {
    layout.filter(|c: char| is_tile(c))
}

/// The index of the last `@` among the tiles, or 11 where there is none.
pub open spec fn spawnpoint_of(tiles: Seq<char>) -> int
    decreases tiles.len(),
{
    if tiles.len() == 0 {
        11
    } else if tiles.last() == '@' {
        tiles.len() - 1
    } else {
        spawnpoint_of(tiles.drop_last())
    }
}

/// Where the last `@` stands, the player starts.
pub proof fn lemma_spawnpoint_at(tiles: Seq<char>, at: int)
    requires
        0 <= at < tiles.len(),
        tiles[at] == '@',
        forall|i: int| at < i < tiles.len() ==> tiles[i] != '@',
    ensures
        spawnpoint_of(tiles) == at,
    decreases tiles.len(),
{
    if at < tiles.len() - 1 {
        lemma_spawnpoint_at(tiles.drop_last(), at);
    }
}

/// The tile characters of a layout, in order.
pub fn str_to_no_whitespace_chars(s: &str) -> (tiles: Vec<char>)
    ensures
        tiles@ == tiles_of(s@),
{
    let mut tiles: Vec<char> = Vec::new();
    proof {
        reveal(Seq::filter);
    }
    for c in it: s.chars()
        invariant
            it.seq() == s@,
            tiles@ == tiles_of(s@.take(it.index() as int)),
    {
        proof {
            reveal(Seq::filter);
            assert(s@.take(it.index() + 1).drop_last() =~= s@.take(it.index() as int));
        }
        if c != '\r' && c != '\n' && c != ' ' {
            tiles.push(c);
        }
    }
    assert(s@.take(s@.len() as int) =~= s@);
    tiles
}

/// The instructions for building a map: its size and its layout.
pub struct MapBuilder {
    size: Option<u16>,
    layout: Option<&'static str>,
}

impl MapBuilder {
    /// The size set so far.
    pub closed spec fn size(&self) -> Option<u16> {
        self.size
    }

    /// The layout set so far.
    pub closed spec fn layout(&self) -> Option<&'static str> {
        self.layout
    }

    /// A builder with nothing set.
    pub fn new() -> (builder: Self)
        ensures
            builder.size() is None,
            builder.layout() is None,
    {
        MapBuilder { size: None, layout: None }
    }

    /// Takes size and layout from a hand-made map.
    pub fn with_precon_layout(self, precon: PreCon) -> (builder: Self)
        ensures
            builder.size() == Some(precon.size),
            builder.layout() == Some(precon.layout),
    {
        MapBuilder { size: Some(precon.size), layout: Some(precon.layout) }
    }

    /// Leaves the builder as it is: maps are not generated yet.
    pub fn with_procgen_layout(self) -> (builder: Self)
        ensures
            builder == self,
    {
        self
    }

    /// Whether a map can be built: size and layout are set, and the layout has
    /// no more tiles than the map.
    pub open spec fn ready(&self) -> bool {
        &&& self.size() is Some
        &&& self.layout() is Some
        &&& tiles_of(self.layout()->0@).len() <= self.size()->0 * self.size()->0
    }

    /// Whether `map` is the map that this builder describes. Its tiles are
    /// those of the layout, row after row from the north-west corner: `#` is a
    /// wall and blocks, `@` blocks and is where the player starts, any other
    /// character is a free tile. Tiles that the layout does not reach are free.
    pub open spec fn describes(&self, map: &GameMap) -> bool {
        let tiles = tiles_of(self.layout()->0@);
        &&& map.size == self.size()->0
        &&& map.wf()
        &&& !map.dirty_flag
        &&& map.player_spawnpoint == spawnpoint_of(tiles)
        &&& forall|i: int|
            0 <= i < map.walls@.len() ==> #[trigger] map.walls@[i] == (i < tiles.len() && tiles[i]
                == '#')
        &&& forall|i: int|
            0 <= i < map.blocked@.len() ==> #[trigger] map.blocked@[i] == (i < tiles.len() && (
            tiles[i] == '#' || tiles[i] == '@'))
        &&& map.tile_contents@ == Map::<usize, [Entity; 8]>::empty()
    }

    /// The map that the builder describes.
    pub fn build(self) -> (map: GameMap)
        requires
            self.ready(),
        ensures
            self.describes(&map),
    {
        let size = self.size.unwrap();
        let tiles = str_to_no_whitespace_chars(self.layout.unwrap());
        let mut map = GameMap::empty(size);
        let mut idx: usize = 0;
        while idx < tiles.len()
            invariant
                idx <= tiles.len(),
                tiles@.len() <= size * size,
                map.size == size,
                map.wf(),
                !map.dirty_flag,
                map.tile_contents@ == Map::<usize, [Entity; 8]>::empty(),
                map.player_spawnpoint == spawnpoint_of(tiles@.take(idx as int)),
                forall|i: int|
                    0 <= i < map.walls@.len() ==> #[trigger] map.walls@[i] == (i < idx && tiles@[i]
                        == '#'),
                forall|i: int|
                    0 <= i < map.blocked@.len() ==> #[trigger] map.blocked@[i] == (i < idx && (
                    tiles@[i] == '#' || tiles@[i] == '@')),
            decreases tiles.len() - idx,
        {
            proof {
                assert(tiles@.take(idx + 1).drop_last() =~= tiles@.take(idx as int));
            }
            match tiles[idx] {
                '#' => {
                    map.walls[idx] = true;
                    map.blocked[idx] = true;
                },
                '@' => {
                    map.player_spawnpoint = idx;
                    map.blocked[idx] = true;
                },
                _ => {},
            }
            idx += 1;
        }
        proof {
            assert(tiles@.take(idx as int) =~= tiles@);
        }
        map
    }

    /// The map that the builder describes, if one can be built.
    pub fn try_build(self) -> (built: Option<GameMap>)
        ensures
            built is Some <==> self.ready(),
            built matches Some(map) ==> self.describes(&map),
    {
        match (self.size, self.layout) {
            (Some(size), Some(layout)) => {
                let tiles = str_to_no_whitespace_chars(layout);
                if tiles.len() <= tile_count(size) {
                    Some(self.build())
                } else {
                    None
                }
            },
            _ => None,
        }
    }
}

} // verus!
