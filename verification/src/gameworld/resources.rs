//! The shared resources that the game world puts into the store.

pub mod map;

use crate::gameworld::resources::map::map_builder::lemma_spawnpoint_at;
use crate::gameworld::resources::map::precon::{empty_10x10, lemma_room_tiles, on_edge, room_tiles};
use crate::gameworld::resources::map::GameMap;
use specs::Entity;
use vstd::prelude::*;

verus! {

/// The map that a new game starts on: the room of ten by ten tiles with walls
/// all along its edge, the player on the fifth tile of the fifth row.
pub fn generate_map() -> (map: GameMap)
    ensures
        map.size == 10,
        map.wf(),
        !map.dirty_flag,
        map.player_spawnpoint == 44,
        forall|i: int| 0 <= i < 100 ==> #[trigger] map.walls@[i] == on_edge(i),
        forall|i: int| 0 <= i < 100 ==> #[trigger] map.blocked@[i] == (on_edge(i) || i == 44),
        map.tile_contents@ == Map::<usize, [Entity; 8]>::empty(),
{
    proof {
        lemma_room_tiles();
        lemma_spawnpoint_at(room_tiles(), 44);
    }
    let room = empty_10x10();
    let builder = GameMap::builder().with_precon_layout(room);
    proof {
        let size = builder.size()->0;
        assert(size * size == 100) by (nonlinear_arith)
            requires
                size == 10,
        ;
    }
    builder.build()
}

} // verus!
