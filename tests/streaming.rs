use starlight::generation::{
    chunk_origin, generate_batch, store_generated, task_generate_chunk, ChunkGeneratedEvent,
    MapGenerator,
};
use starlight::observation::{
    MapObserver, MapObserverData, ObservationLoadEvent, WorldObservationPluginState,
    WorldObserverStatus,
};
use starlight::pos::{
    MapArea, MapChunkArea, MapChunkCoordinate, MapCoordinate, WorldDirection,
};
use starlight::terrain::chunk_from_heights;
use starlight::world::{
    MapBlock, MapChunk, MapChunkStatus, MapChunkStorage, MemoryWorld, MemoryWorldData, SaveError,
    World,
};

fn chunk(x: i32, y: i32, z: i32) -> MapChunkCoordinate {
    MapChunkCoordinate::new(x, y, z)
}

fn block(x: i32, y: i32, z: i32) -> MapCoordinate {
    MapCoordinate::new(x, y, z)
}

/// Column heights that put `solid_depth` solid blocks in every column of a chunk at height origin 0.
fn flat_heights(solid_depth: i64) -> Vec<i64> {
    vec![solid_depth; 256]
}

struct FlatGenerator {
    surface: i64,
}

impl MapGenerator for FlatGenerator {
    fn generated(&self, x: i32, y: i32, z: i32) -> MapChunkStorage {
        self.generate_chunk(x, y, z)
    }

    fn generate_chunk(&self, x: i32, _y: i32, _z: i32) -> MapChunkStorage {
        chunk_from_heights(x, &vec![self.surface; 256])
    }
}

#[test]
fn chunk_of_negative_block_floors() {
    assert_eq!(block(-1, -1, -1).get_chunk(), chunk(-1, -1, -1));
    assert_eq!(block(0, 0, 0).get_chunk(), chunk(0, 0, 0));
    assert_eq!(block(15, 16, -16).get_chunk(), chunk(0, 1, -1));
    assert_eq!(block(-17, 31, -15).get_chunk(), chunk(-2, 1, -1));
    assert_eq!(block(i32::MIN, i32::MAX, 0).get_chunk(), chunk(-134217728, 134217727, 0));
}

#[test]
fn coordinate_constructors_and_arithmetic() {
    assert_eq!(MapCoordinate::from_tuple((1, 2, 3)).as_tuple(), (1, 2, 3));
    assert_eq!(MapCoordinate::zero(), block(0, 0, 0));
    assert_eq!(MapCoordinate::one(), block(1, 1, 1));
    assert_eq!(WorldDirection::North.as_coordinate(), block(0, 0, 1));
    assert_eq!(WorldDirection::South.as_coordinate(), block(0, 0, -1));
    assert_eq!(WorldDirection::East.as_coordinate(), block(1, 0, 0));
    assert_eq!(WorldDirection::West.as_coordinate(), block(-1, 0, 0));
    assert_eq!(WorldDirection::Up.as_coordinate(), block(0, 1, 0));
    assert_eq!(WorldDirection::Down.as_coordinate(), block(0, -1, 0));
    assert_eq!(block(1, 2, 3).add(block(4, -5, 6)), block(5, -3, 9));
    assert_eq!(block(1, 2, 3).sub(block(4, -5, 6)), block(-3, 7, -3));
    assert_eq!(chunk(1, 2, 3).add(chunk(1, 1, 1)), chunk(2, 3, 4));
    assert_eq!(chunk(1, 2, 3).sub(chunk(1, 1, 1)), chunk(0, 1, 2));
    assert_eq!(MapChunkCoordinate::zero().as_tuple(), (0, 0, 0));
}

#[test]
fn area_containment_and_corners() {
    let area = MapArea::new(block(-3, 0, 2), block(4, 10, 6));
    assert!(area.contains(block(-3, 0, 2)));
    assert!(area.contains(block(4, 10, 6)));
    assert!(!area.contains(block(5, 10, 6)));
    assert_eq!(area.center(), block(0, 5, 4));
    assert_eq!(area.left(), block(-3, 0, 2));
    assert_eq!(area.right(), block(4, 10, 6));
    assert_eq!(area.top(), block(-3, 10, 2));
    assert_eq!(area.bottom(), block(4, 0, 6));
    assert_eq!(area.front(), block(-3, 0, 6));
    assert_eq!(area.back(), block(4, 10, 2));
    assert_eq!(area.front_left_top(), block(-3, 10, 6));
    assert_eq!(area.back_right_bottom(), block(4, 0, 2));
    assert_eq!(area.volume(), 7 * 10 * 4);
    assert_eq!(area.chunk_volume(), 7 * 10 * 4);
    // Blocks -3..4 lie in chunks -1 and 0.
    assert!(area.contains_chunk(chunk(-1, 0, 0)));
    assert!(!area.contains_chunk(chunk(1, 0, 0)));
}

#[test]
fn chunk_area_containment() {
    let area = MapChunkArea::new(chunk(-1, -1, -1), chunk(1, 1, 1));
    assert!(area.contains(chunk(0, 0, 0)));
    assert!(!area.contains(chunk(2, 0, 0)));
    assert!(area.contains_chunk_area(MapChunkArea::new(chunk(0, 0, 0), chunk(1, 1, 1))));
    assert!(!area.contains_chunk_area(MapChunkArea::new(chunk(0, 0, 0), chunk(2, 1, 1))));
    assert!(area.contains_area(MapArea::new(block(-16, -1, 0), block(31, 31, 31))));
    assert!(!area.contains_area(MapArea::new(block(-17, 0, 0), block(0, 0, 0))));
    assert_eq!(area.center(), chunk(0, 0, 0));
    assert_eq!(MapChunkArea::new(chunk(-3, -3, 1), chunk(0, 2, 2)).center(), chunk(-1, 0, 1));
    assert_eq!(area.volume(), 8);
    assert_eq!(area.front_right_top(), chunk(1, 1, 1));
    assert_eq!(area.back_left_bottom(), chunk(-1, -1, -1));
}

#[test]
fn block_grid_indexing() {
    let mut c = MapChunk::new();
    assert_eq!(*c.node_at(3, 4, 5), MapBlock::air());
    *c.node_at_mut(3, 4, 5) = MapBlock::new(7);
    assert_eq!(c.node_at(3, 4, 5).id, 7);
    assert_eq!(c.data()[3 * 256 + 4 * 16 + 5].id, 7);
    assert_eq!(MapChunk::SIZE, 16);
    assert_eq!(MapChunk::VOLUME, 4096);
}

#[test]
fn low_columns_give_empty_chunk() {
    let storage = chunk_from_heights(0, &flat_heights(0));
    assert!(!storage.is_loaded());
    assert!(storage.is_empty());
    // Heights at or below the chunk's first layer stay empty wherever the chunk is.
    let storage = chunk_from_heights(32, &flat_heights(32));
    assert!(storage.is_empty());
}

#[test]
fn column_height_sets_solid_depth() {
    let mut heights = flat_heights(0);
    heights[2 * 16 + 3] = 5;
    let storage = chunk_from_heights(0, &heights);
    assert!(storage.is_loaded());
    assert!(!storage.is_empty());
    let c = storage.unwrap();
    for nx in 0..5 {
        assert_eq!(c.node_at(nx, 2, 3).id, 1);
    }
    assert_eq!(c.node_at(5, 2, 3).id, 0);
    assert_eq!(c.node_at(0, 3, 2).id, 0);
    // With the chunk's first block at 16, the same heights reach nothing.
    assert!(chunk_from_heights(16, &heights).is_empty());
    // Below the origin, every block up to height 5 counts.
    let deep = chunk_from_heights(-16, &heights);
    let d = deep.unwrap();
    assert_eq!(d.node_at(15, 0, 0).id, 1);
    assert_eq!(d.node_at(15, 2, 3).id, 1);
}

#[test]
fn generation_is_deterministic() {
    let heights: Vec<i64> = (0..256).map(|i| (i % 17) as i64 - 3).collect();
    let a = chunk_from_heights(-2, &heights).unwrap();
    let b = chunk_from_heights(-2, &heights).unwrap();
    assert!(a.data().iter().zip(b.data().iter()).all(|(p, q)| p == q));
}

#[test]
fn store_refuses_duplicate_coordinate() {
    let mut world = MemoryWorld::new();
    world.add_chunk(MapChunkStorage::Empty, 1, 2, 3);
    world.add_chunk(chunk_from_heights(0, &flat_heights(4)), 1, 2, 3);
    assert_eq!(world.entry_count(1, 2, 3), 1);
    match world.chunk_at(1, 2, 3) {
        MapChunkStatus::Stored(h) => assert!(h.is_empty()),
        MapChunkStatus::Unloaded => panic!("chunk should be stored"),
    }
}

#[test]
fn store_lookup_and_unload() {
    let mut world = MemoryWorld::new();
    assert!(!world.chunk_loaded(0, 0, 0));
    assert!(matches!(world.chunk_at(0, 0, 0), MapChunkStatus::Unloaded));
    world.add_chunk(chunk_from_heights(0, &flat_heights(1)), 0, 0, 0);
    world.add_chunk(MapChunkStorage::Empty, -1, 0, 0);
    assert!(world.chunk_loaded(0, 0, 0));
    assert!(world.chunk_loaded(-1, 0, 0));
    assert!(!world.chunk_loaded(0, -1, 0));
    let handle = match world.chunk_at(0, 0, 0) {
        MapChunkStatus::Stored(h) => h,
        MapChunkStatus::Unloaded => panic!("chunk should be stored"),
    };
    world.unload_chunk(0, 0, 0);
    assert!(!world.chunk_loaded(0, 0, 0));
    assert_eq!(world.entry_count(0, 0, 0), 0);
    assert!(world.chunk_loaded(-1, 0, 0));
    // The handle outlives the store entry.
    assert!(handle.is_loaded());
    assert_eq!(handle.unwrap().node_at(0, 0, 0).id, 1);
    world.unload_chunk(5, 5, 5);
    assert!(world.chunk_loaded(-1, 0, 0));
    assert_eq!(world.save("world.bin"), Err(SaveError::NotSupported));
}

#[test]
fn raw_entries_append() {
    let mut data = MemoryWorldData::new();
    data.add_chunk(MapChunkStorage::Empty, 1, 1, 1);
    data.add_chunk(MapChunkStorage::Empty, 1, 1, 1);
    assert_eq!(data.chunks.len(), 2);
    assert_eq!((data.chunks[1].0, data.chunks[1].1, data.chunks[1].2), (1, 1, 1));
}

fn sorted(mut v: Vec<(i32, i32, i32)>) -> Vec<(i32, i32, i32)> {
    v.sort();
    v
}

fn load_list(obs: &[ObservationLoadEvent]) -> Vec<(i32, i32, i32)> {
    sorted(obs.iter().map(|e| e.chunk_pos.as_tuple()).collect())
}

#[test]
fn move_one_chunk_emits_only_shells() {
    let world = MemoryWorld::new();
    let mut observer = MapObserverData::new(2, block(0, 0, 0));
    let first = observer.observe(&world);
    assert_eq!(first.loads.len(), 125);
    assert_eq!(observer.status, WorldObserverStatus::FromPosition(chunk(0, 0, 0)));
    observer.position = block(16, 0, 0);
    let second = observer.observe(&world);
    let mut want_loads = Vec::new();
    let mut want_unloads = Vec::new();
    for y in -2..=2 {
        for z in -2..=2 {
            want_loads.push((3, y, z));
            want_unloads.push((-2, y, z));
        }
    }
    assert_eq!(load_list(&second.loads), sorted(want_loads));
    let unloads = sorted(second.unloads.iter().map(|e| e.chunk_pos.as_tuple()).collect());
    assert_eq!(unloads, sorted(want_unloads));
    assert_eq!(observer.status, WorldObserverStatus::FromPosition(chunk(1, 0, 0)));
}

#[test]
fn moving_inside_a_chunk_emits_nothing() {
    let world = MemoryWorld::new();
    let mut observer = MapObserverData::new(3, block(1, 1, 1));
    observer.observe(&world);
    observer.position = block(15, 0, 14);
    let signals = observer.observe(&world);
    assert_eq!(signals.loads.len(), 0);
    assert_eq!(signals.unloads.len(), 0);
}

#[test]
fn refresh_requests_each_unloaded_cube_chunk_once() {
    let mut world = MemoryWorld::new();
    let mut observer = MapObserverData::new(1, block(-1, 0, 0));
    let signals = observer.observe(&MemoryWorld::new());
    assert_eq!(signals.loads.len(), 27);
    assert_eq!(signals.unloads.len(), 0);
    let mut all = load_list(&signals.loads);
    all.dedup();
    assert_eq!(all.len(), 27);
    assert!(all.iter().all(|&(x, y, z)| (-2..=0).contains(&x) && (-1..=1).contains(&y) && (-1..=1).contains(&z)));

    world.add_chunk(MapChunkStorage::Empty, -1, 0, 0);
    world.add_chunk(MapChunkStorage::Empty, -2, 1, 1);
    world.add_chunk(MapChunkStorage::Empty, 9, 9, 9);
    let mut fresh = MapObserverData::new(1, block(-1, 0, 0));
    let signals = fresh.observe(&world);
    assert_eq!(signals.loads.len(), 25);
    let got = load_list(&signals.loads);
    assert!(!got.contains(&(-1, 0, 0)));
    assert!(!got.contains(&(-2, 1, 1)));
}

#[test]
fn zero_view_distance_requests_own_chunk() {
    let world = MemoryWorld::new();
    let mut observer = MapObserverData::new(0, block(-40, 17, 3));
    let signals = observer.observe(&world);
    assert_eq!(load_list(&signals.loads), vec![(-3, 1, 0)]);
}

#[test]
fn entering_chunks_already_stored_are_not_requested() {
    let mut world = MemoryWorld::new();
    world.add_chunk(MapChunkStorage::Empty, 2, 0, 0);
    let mut observer = MapObserverData::new(1, block(0, 0, 0));
    observer.observe(&world);
    observer.position = block(16, 0, 0);
    let signals = observer.observe(&world);
    let got = load_list(&signals.loads);
    assert_eq!(got.len(), 8);
    assert!(!got.contains(&(2, 0, 0)));
    assert_eq!(signals.unloads.len(), 9);
}

#[test]
fn diagonal_move_emits_box_difference() {
    let world = MemoryWorld::new();
    let mut observer = MapObserverData::new(1, block(0, 0, 0));
    observer.observe(&world);
    observer.position = block(16, 16, 0);
    let signals = observer.observe(&world);
    // 27 - 2 * 2 * 3 cubes overlap = 15 on each side.
    assert_eq!(signals.loads.len(), 15);
    assert_eq!(signals.unloads.len(), 15);
}

#[test]
fn batch_generation_stores_each_request() {
    let mut world = MemoryWorld::new();
    world.add_chunk(MapChunkStorage::Empty, 0, 0, 0);
    let generator = FlatGenerator { surface: 8 };
    let requests = vec![
        ObservationLoadEvent { chunk_pos: chunk(0, 0, 0) },
        ObservationLoadEvent { chunk_pos: chunk(-1, 4, 2) },
        ObservationLoadEvent { chunk_pos: chunk(1, 0, 0) },
    ];
    let events = generate_batch(&mut world, &generator, &requests);
    assert_eq!(
        events,
        vec![
            ChunkGeneratedEvent { x: 0, y: 0, z: 0 },
            ChunkGeneratedEvent { x: -1, y: 4, z: 2 },
            ChunkGeneratedEvent { x: 1, y: 0, z: 0 },
        ]
    );
    // The chunk stored first stays.
    match world.chunk_at(0, 0, 0) {
        MapChunkStatus::Stored(h) => assert!(h.is_empty()),
        MapChunkStatus::Unloaded => panic!("chunk should be stored"),
    }
    // Chunk -1 starts at block -16: its whole height column lies below 8.
    match world.chunk_at(-1, 4, 2) {
        MapChunkStatus::Stored(h) => assert_eq!(h.unwrap().node_at(15, 0, 0).id, 1),
        MapChunkStatus::Unloaded => panic!("chunk should be stored"),
    }
    // Chunk 1 starts at block 16, above the surface.
    match world.chunk_at(1, 0, 0) {
        MapChunkStatus::Stored(h) => assert!(h.is_empty()),
        MapChunkStatus::Unloaded => panic!("chunk should be stored"),
    }
}

#[test]
fn single_task_uses_block_origin() {
    let mut world = MemoryWorld::new();
    assert_eq!(chunk_origin(chunk(-2, 3, 0)), block(-32, 48, 0));
    task_generate_chunk(&mut world, &FlatGenerator { surface: 3 }, chunk(0, 7, 7));
    match world.chunk_at(0, 7, 7) {
        MapChunkStatus::Stored(h) => {
            let c = h.unwrap();
            assert_eq!(c.node_at(2, 0, 0).id, 1);
            assert_eq!(c.node_at(3, 0, 0).id, 0);
        }
        MapChunkStatus::Unloaded => panic!("chunk should be stored"),
    }
}

#[test]
fn parallel_results_are_stored_in_order() {
    let mut world = MemoryWorld::new();
    let results = vec![
        (chunk(5, 5, 5), MapChunkStorage::Empty),
        (chunk(5, 5, 5), chunk_from_heights(0, &flat_heights(2))),
        (chunk(6, 5, 5), chunk_from_heights(0, &flat_heights(2))),
    ];
    let events = store_generated(&mut world, results);
    assert_eq!(events.len(), 3);
    assert_eq!(events[2], ChunkGeneratedEvent { x: 6, y: 5, z: 5 });
    assert_eq!(world.entry_count(5, 5, 5), 1);
    assert!(world.chunk_loaded(6, 5, 5));
    match world.chunk_at(5, 5, 5) {
        MapChunkStatus::Stored(h) => assert!(h.is_empty()),
        MapChunkStatus::Unloaded => panic!("chunk should be stored"),
    }
}

#[test]
fn registry_reuses_smallest_free_id() {
    let mut state = WorldObservationPluginState::new();
    assert_eq!(state.create_observer(4), 0);
    assert_eq!(state.create_observer(4), 1);
    assert_eq!(state.create_observer(2), 2);
    state.remove_observer(1);
    assert!(state.get_observer(1).is_none());
    assert_eq!(state.create_observer(3), 1);
    assert_eq!(state.get_observer(1).unwrap().view_distance, 3);
    assert_eq!(state.create_observer(3), 3);
    // New observers are appended in registration order.
    assert_eq!(state.observers.iter().map(|o| o.0).collect::<Vec<_>>(), vec![0, 2, 1, 3]);
    assert_eq!(MapObserver::new().id, 0);
}

#[test]
fn registry_update_runs_each_observer() {
    let world = MemoryWorld::new();
    let mut state = WorldObservationPluginState::new();
    let a = state.create_observer(1);
    let b = state.create_observer(0);
    assert!(state.set_position(b, block(32, 0, 0)));
    assert!(!state.set_position(9, block(0, 0, 0)));
    let signals = state.update_observers(&world);
    assert_eq!(signals.len(), 2);
    assert_eq!(signals[0].0, a);
    assert_eq!(signals[0].1.loads.len(), 27);
    assert_eq!(signals[1].0, b);
    assert_eq!(load_list(&signals[1].1.loads), vec![(2, 0, 0)]);
    let again = state.update_observers(&world);
    assert!(again.iter().all(|(_, s)| s.loads.is_empty() && s.unloads.is_empty()));
    assert_eq!(
        state.get_observer(b).unwrap().status,
        WorldObserverStatus::FromPosition(chunk(2, 0, 0))
    );
}

#[test]
fn registry_accepts_unsorted_ids() {
    let mut state = WorldObservationPluginState::new();
    let data = MapObserverData::new(1, block(0, 0, 0));
    state.observers.push((1, data));
    state.observers.push((0, data));
    assert_eq!(state.create_observer(2), 2);
    assert_eq!(state.observers.iter().map(|o| o.0).collect::<Vec<_>>(), vec![1, 0, 2]);
    state.remove_observer(0);
    assert_eq!(state.create_observer(2), 0);
    assert_eq!(state.observers.last().unwrap().0, 0);
}

#[test]
fn inverted_volume_contains_itself() {
    let inverted = MapChunkArea::new(chunk(1, 0, 0), chunk(0, 0, 0));
    assert!(inverted.contains_chunk_area(inverted));
    assert!(!inverted.contains(chunk(0, 0, 0)));
    let blocks = MapArea::new(block(16, 0, 0), block(0, 0, 0));
    assert!(inverted.contains_area(blocks));
    assert!(!MapChunkArea::new(chunk(2, 0, 0), chunk(0, 0, 0)).contains_area(blocks));
}
