//! Filling a chunk from a heightmap: the deterministic core of terrain generation.
//!
//! A terrain source samples, for each of the 16 x 16 block columns of a chunk, a
//! height along the chunk's first axis. Block `(nx, ny, nz)` is solid when the
//! height of column `(ny, nz)` exceeds `nx + world_x`.

use std::sync::Arc;
use vstd::prelude::*;
use crate::world::{MapBlock, MapChunk, MapChunkStorage};

verus! {

/// Type id of a solid generated block.
pub const SOLID: u8 = 1;

/// Whether the block at depth `nx` of a column of height `height` is solid, in a
/// chunk whose first block lies at `world_x` along the height axis.
pub open spec fn solid(world_x: int, height: int, nx: int) -> bool {
    height > nx + world_x
}

/// Block `i` of the flat array generated from `heights`: column `i % 256`, depth `i / 256`.
pub open spec fn generated_block(world_x: int, heights: Seq<i64>, i: int) -> MapBlock {
    if solid(world_x, heights[i % 256] as int, i / 256) {
        MapBlock { id: 1 }
    } else {
        MapBlock { id: 0 }
    }
}

/// The whole block array generated from `heights`.
pub open spec fn generated_blocks(world_x: int, heights: Seq<i64>) -> Seq<MapBlock> {
    Seq::new(4096, |i: int| generated_block(world_x, heights, i))
}

/// No column reaches above the chunk's first layer, so no block is solid.
pub open spec fn all_air(world_x: int, heights: Seq<i64>) -> bool {
    forall|c: int| 0 <= c < 256 ==> #[trigger] heights[c] <= world_x
}

/// `r` is the storage generated from `heights`: `Empty` when no block is solid,
/// otherwise a loaded chunk holding exactly the generated blocks.
pub open spec fn generated_storage(world_x: int, heights: Seq<i64>, r: MapChunkStorage) -> bool {
    if all_air(world_x, heights) {
        r is Empty
    } else {
        r is Loaded && r->Loaded_0.data@ == generated_blocks(world_x, heights)
    }
}

proof fn lemma_all_air_iff(world_x: int, heights: Seq<i64>)
    requires
        heights.len() == 256,
    ensures
        all_air(world_x, heights) <==> forall|i: int|
            0 <= i < 4096 ==> (#[trigger] generated_block(world_x, heights, i)).id == 0,
{
    if all_air(world_x, heights) {
        assert forall|i: int| 0 <= i < 4096 implies (#[trigger] generated_block(
            world_x,
            heights,
            i,
        )).id == 0 by {
            assert(0 <= i % 256 < 256);
            assert(i / 256 >= 0);
        }
    } else {
        let c = choose|c: int| 0 <= c < 256 && !(#[trigger] heights[c] <= world_x);
        assert(c % 256 == c && c / 256 == 0) by (nonlinear_arith)
            requires
                0 <= c < 256,
        ;
        assert(generated_block(world_x, heights, c).id == 1);
    }
}

/// Fills a chunk from the heights of its 256 columns (`ny * 16 + nz`), for a chunk
/// whose first block lies at `world_x` along the height axis.
pub fn chunk_from_heights(world_x: i32, heights: &Vec<i64>) -> (r: MapChunkStorage)
    requires
        heights@.len() == 256,
    ensures
        generated_storage(world_x as int, heights@, r),
{
    let mut chunk = MapChunk::new();
    let mut empty = true;
    let mut i: usize = 0;
    while i < 4096
        invariant
            heights@.len() == 256,
            i <= 4096,
            forall|j: int| 0 <= j < i ==> #[trigger] chunk.data@[j] == generated_block(world_x as int, heights@, j),
            forall|j: int| i <= j < 4096 ==> (#[trigger] chunk.data@[j]).id == 0,
            empty <==> forall|j: int| 0 <= j < i ==> (#[trigger] generated_block(world_x as int, heights@, j)).id == 0,
        decreases 4096 - i,
    {
        let column = i % 256;
        let depth = i / 256;
        let height = heights[column];
        if height > depth as i64 + world_x as i64 {
            chunk.data[i] = MapBlock::new(SOLID);
            empty = false;
            assert(generated_block(world_x as int, heights@, i as int).id == 1);
        } else {
            chunk.data[i] = MapBlock::air();
            assert(generated_block(world_x as int, heights@, i as int).id == 0);
            assert(empty ==> forall|j: int|
                0 <= j < i + 1 ==> (#[trigger] generated_block(world_x as int, heights@, j)).id == 0);
        }
        i = i + 1;
    }
    proof {
        lemma_all_air_iff(world_x as int, heights@);
    }
    if empty {
        MapChunkStorage::Empty
    } else {
        proof {
            assert(chunk.data@ =~= generated_blocks(world_x as int, heights@));
        }
        MapChunkStorage::Loaded(Arc::new(chunk))
    }
}

/// Generation is deterministic: the same origin and heights give identical block grids.
pub proof fn lemma_generation_deterministic(
    world_x: int,
    heights: Seq<i64>,
    first: MapChunkStorage,
    second: MapChunkStorage,
)
    requires
        generated_storage(world_x, heights, first),
        generated_storage(world_x, heights, second),
    ensures
        first is Empty <==> second is Empty,
        first is Loaded ==> first->Loaded_0.data@ == second->Loaded_0.data@,
{
}

/// A chunk whose columns all stay at or below its first layer is `Empty`: it
/// reports not loaded and empty.
pub proof fn lemma_low_columns_give_empty(world_x: int, heights: Seq<i64>, r: MapChunkStorage)
    requires
        heights.len() == 256,
        forall|c: int| 0 <= c < 256 ==> #[trigger] heights[c] <= world_x,
        generated_storage(world_x, heights, r),
    ensures
        r is Empty,
        !(r is Loaded),
{
}

} // verus!
