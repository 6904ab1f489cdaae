//! The generation scheduler: turns load requests into generated chunks in the
//! world store and reports each generated coordinate.

use vstd::prelude::*;
use crate::observation::{ObservationLoadEvent, key};
use crate::pos::{MapChunkCoordinate, MapCoordinate};
use crate::world::{MapChunkStorage, World, add_absent};

verus! {

/// A source of chunk contents, called with the chunk's first block in block space.
pub trait MapGenerator {
    /// What this generator produces for the chunk whose first block is `(x, y, z)`.
    spec fn generated(&self, x: i32, y: i32, z: i32) -> MapChunkStorage;

    fn generate_chunk(&self, x: i32, y: i32, z: i32) -> (r: MapChunkStorage)
        ensures
            r == self.generated(x, y, z),
    ;
}

/// What `g` produces for chunk `c`, generated at its first block `16 * c`.
pub open spec fn origin_storage<G: MapGenerator>(g: G, c: MapChunkCoordinate) -> MapChunkStorage {
    g.generated((16 * c.x) as i32, (16 * c.y) as i32, (16 * c.z) as i32)
}

/// The store `m` after generating and adding each requested chunk in turn.
pub open spec fn batch_after<G: MapGenerator>(
    m: Map<(i32, i32, i32), MapChunkStorage>,
    g: G,
    s: Seq<ObservationLoadEvent>,
) -> Map<(i32, i32, i32), MapChunkStorage>
    decreases s.len(),
{
    if s.len() == 0 {
        m
    } else {
        add_absent(
            batch_after(m, g, s.drop_last()),
            key(s.last().chunk_pos),
            origin_storage(g, s.last().chunk_pos),
        )
    }
}

/// A request to generate the chunk at `(x, y, z)`.
#[derive(Clone, Copy, Debug, PartialEq, Eq, Structural)]
pub struct GenerateWorldSignal {
    pub x: i32,
    pub y: i32,
    pub z: i32,
}

/// The chunk at `(x, y, z)` changed.
#[derive(Clone, Copy, Debug, PartialEq, Eq, Structural)]
pub struct ChunkUpdatedEvent {
    pub x: i32,
    pub y: i32,
    pub z: i32,
}

/// The chunk at `(x, y, z)` was loaded.
#[derive(Clone, Copy, Debug, PartialEq, Eq, Structural)]
pub struct ChunkLoadedEvent {
    pub x: i32,
    pub y: i32,
    pub z: i32,
}

/// The chunk at `(x, y, z)` was generated and written to the store.
#[derive(Clone, Copy, Debug, PartialEq, Eq, Structural)]
pub struct ChunkGeneratedEvent {
    pub x: i32,
    pub y: i32,
    pub z: i32,
}

/// The chunk at `(x, y, z)` was dropped.
#[derive(Clone, Copy, Debug, PartialEq, Eq, Structural)]
pub struct ChunkDroppedEvent {
    pub x: i32,
    pub y: i32,
    pub z: i32,
}

/// The first block of chunk `c`, `16 * c` on each axis, fits in an `i32`.
pub open spec fn origin_fits(c: MapChunkCoordinate) -> bool {
    &&& i32::MIN <= 16 * c.x <= i32::MAX
    &&& i32::MIN <= 16 * c.y <= i32::MAX
    &&& i32::MIN <= 16 * c.z <= i32::MAX
}

/// The first block of chunk `c`, in block space.
pub fn chunk_origin(c: MapChunkCoordinate) -> (r: MapCoordinate)
    requires
        origin_fits(c),
    ensures
        r.x == 16 * c.x && r.y == 16 * c.y && r.z == 16 * c.z,
{
    MapCoordinate::new(16 * c.x, 16 * c.y, 16 * c.z)
}

/// The coordinates that a list of generated signals names.
pub open spec fn generated_coords(s: Seq<ChunkGeneratedEvent>) -> Seq<(i32, i32, i32)> {
    s.map_values(|e: ChunkGeneratedEvent| (e.x, e.y, e.z))
}

/// The coordinates that a list of load requests names.
pub open spec fn requested_coords(s: Seq<ObservationLoadEvent>) -> Seq<(i32, i32, i32)> {
    s.map_values(|e: ObservationLoadEvent| key(e.chunk_pos))
}

/// The store `m` after adding each generated result in turn.
pub open spec fn stored_after(
    m: Map<(i32, i32, i32), MapChunkStorage>,
    s: Seq<(MapChunkCoordinate, MapChunkStorage)>,
) -> Map<(i32, i32, i32), MapChunkStorage>
    decreases s.len(),
{
    if s.len() == 0 {
        m
    } else {
        add_absent(stored_after(m, s.drop_last()), key(s.last().0), s.last().1)
    }
}

/// Generates chunk `c` at its first block and adds it to the store. A chunk that is
/// already stored stays as it was.
pub fn task_generate_chunk<W: World, G: MapGenerator>(
    world: &mut W,
    generator: &G,
    c: MapChunkCoordinate,
)
    requires
        old(world).inv(),
        origin_fits(c),
    ensures
        final(world).inv(),
        final(world).chunks().contains_key(key(c)),
        final(world).chunks() == add_absent(old(world).chunks(), key(c), origin_storage(*generator, c)),
{
    let origin = chunk_origin(c);
    let chunk = generator.generate_chunk(origin.x, origin.y, origin.z);
    world.add_chunk(chunk, c.x, c.y, c.z);
}

/// Adds chunks generated elsewhere to the store, in order, and reports one
/// generated signal per result.
pub fn store_generated<W: World>(
    world: &mut W,
    results: Vec<(MapChunkCoordinate, MapChunkStorage)>,
) -> (r: Vec<ChunkGeneratedEvent>)
    requires
        old(world).inv(),
    ensures
        final(world).inv(),
        final(world).chunks() == stored_after(old(world).chunks(), results@),
        generated_coords(r@) == results@.map_values(
            |p: (MapChunkCoordinate, MapChunkStorage)| key(p.0),
        ),
{
    let ghost start = world.chunks();
    let ghost all = results@;
    let mut events: Vec<ChunkGeneratedEvent> = Vec::new();
    let mut rest = results;
    let n = rest.len();
    let mut i: usize = 0;
    while rest.len() > 0
        invariant
            world.inv(),
            all.len() == n,
            i + rest@.len() == all.len(),
            rest@ == all.subrange(i as int, all.len() as int),
            world.chunks() == stored_after(start, all.subrange(0, i as int)),
            events@.len() == i,
            forall|j: int| 0 <= j < i ==> (#[trigger] events@[j].x, events@[j].y, events@[j].z) == key(all[j].0),
        decreases rest@.len(),
    {
        let (c, chunk) = rest.remove(0);
        proof {
            assert(all.subrange(0, i + 1).drop_last() =~= all.subrange(0, i as int));
        }
        world.add_chunk(chunk, c.x, c.y, c.z);
        events.push(ChunkGeneratedEvent { x: c.x, y: c.y, z: c.z });
        i = i + 1;
    }
    proof {
        assert(all.subrange(0, i as int) =~= all);
        assert(generated_coords(events@) =~= all.map_values(
            |p: (MapChunkCoordinate, MapChunkStorage)| key(p.0),
        ));
    }
    events
}

/// Generates every requested chunk at its first block and adds it to the store,
/// then reports one generated signal per request, in request order. Requests for
/// chunks that are already stored leave those entries as they were.
pub fn generate_batch<W: World, G: MapGenerator>(
    world: &mut W,
    generator: &G,
    requests: &Vec<ObservationLoadEvent>,
) -> (r: Vec<ChunkGeneratedEvent>)
    requires
        old(world).inv(),
        forall|i: int| 0 <= i < requests@.len() ==> origin_fits(#[trigger] requests@[i].chunk_pos),
    ensures
        final(world).inv(),
        final(world).chunks() == batch_after(old(world).chunks(), *generator, requests@),
        generated_coords(r@) == requested_coords(requests@),
        forall|i: int|
            0 <= i < requests@.len() ==> final(world).chunks().contains_key(
                key(#[trigger] requests@[i].chunk_pos),
            ),
        forall|k: (i32, i32, i32)|
            old(world).chunks().contains_key(k) ==> #[trigger] final(world).chunks().contains_key(k)
                && final(world).chunks()[k] == old(world).chunks()[k],
        forall|k: (i32, i32, i32)|
            #[trigger] final(world).chunks().contains_key(k) ==> old(world).chunks().contains_key(k)
                || requested_coords(requests@).contains(k),
{
    let ghost start = world.chunks();
    let mut events: Vec<ChunkGeneratedEvent> = Vec::new();
    let mut i: usize = 0;
    while i < requests.len()
        invariant
            world.inv(),
            i <= requests@.len(),
            world.chunks() == batch_after(start, *generator, requests@.subrange(0, i as int)),
            forall|j: int| 0 <= j < requests@.len() ==> origin_fits(#[trigger] requests@[j].chunk_pos),
            events@.len() == i,
            forall|j: int| 0 <= j < i ==> (#[trigger] events@[j].x, events@[j].y, events@[j].z) == key(requests@[j].chunk_pos),
            forall|j: int| 0 <= j < i ==> world.chunks().contains_key(key(#[trigger] requests@[j].chunk_pos)),
            forall|k: (i32, i32, i32)|
                start.contains_key(k) ==> #[trigger] world.chunks().contains_key(k) && world.chunks()[k] == start[k],
            forall|k: (i32, i32, i32)|
                #[trigger] world.chunks().contains_key(k) ==> start.contains_key(k)
                    || exists|j: int| 0 <= j < i && key(#[trigger] requests@[j].chunk_pos) == k,
        decreases requests@.len() - i,
    {
        let c = requests[i].chunk_pos;
        proof {
            assert(requests@.subrange(0, i + 1).drop_last() =~= requests@.subrange(0, i as int));
        }
        task_generate_chunk(world, generator, c);
        events.push(ChunkGeneratedEvent { x: c.x, y: c.y, z: c.z });
        i = i + 1;
    }
    proof {
        assert(requests@.subrange(0, i as int) =~= requests@);
        assert(generated_coords(events@) =~= requested_coords(requests@));
        assert forall|k: (i32, i32, i32)|
            #[trigger] world.chunks().contains_key(k) implies start.contains_key(k)
                || requested_coords(requests@).contains(k) by {
            if !start.contains_key(k) {
                let j = choose|j: int| 0 <= j < i && key(#[trigger] requests@[j].chunk_pos) == k;
                assert(requested_coords(requests@)[j] == k);
            }
        }
    }
    events
}

} // verus!
