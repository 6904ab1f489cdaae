//! Blocks, chunks, chunk storage, and the world store that maps chunk
//! coordinates to shared storage handles.

use std::sync::Arc;
use vstd::prelude::*;

verus! {

/// Type id of a block; `0` is air.
pub type WorldNodeId = u8;

/// Number of blocks in a chunk: 16 on each axis.
pub const CHUNK_VOLUME: usize = 4096;

/// Position of block `(x, y, z)` of a chunk in its flat block array.
pub open spec fn node_index(x: int, y: int, z: int) -> int {
    x * 256 + y * 16 + z
}

/// Whether `(x, y, z)` is a block offset inside a chunk.
pub open spec fn in_chunk(x: int, y: int, z: int) -> bool {
    0 <= x < 16 && 0 <= y < 16 && 0 <= z < 16
}

/// A single block: a small type id, `0` meaning air.
#[derive(Clone, Copy, Debug, PartialEq, Eq, Structural)]
pub struct MapBlock {
    pub id: WorldNodeId,
}

impl MapBlock {
    pub fn new(id: WorldNodeId) -> (r: Self)
        ensures
            r.id == id,
    {
        Self { id }
    }

    pub fn air() -> (r: Self)
        ensures
            r.id == 0,
    {
        Self { id: 0 }
    }
}

/// A 16 x 16 x 16 cube of blocks, stored flat at `x * 256 + y * 16 + z`.
pub struct MapChunk {
    pub data: [MapBlock; CHUNK_VOLUME],
}

impl MapChunk {
    pub const SIZE: usize = 16;

    pub const VOLUME: usize = 4096;

    /// A chunk of air.
    pub fn new() -> (r: Self)
        ensures
            forall|i: int| 0 <= i < 4096 ==> (#[trigger] r.data@[i]).id == 0,
    {
        Self { data: [MapBlock::air(); CHUNK_VOLUME] }
    }

    pub fn node_at(&self, x: usize, y: usize, z: usize) -> (r: &MapBlock)
        requires
            in_chunk(x as int, y as int, z as int),
        ensures
            *r == self.data@[node_index(x as int, y as int, z as int)],
    {
        &self.data[x * 256 + y * 16 + z]
    }

    pub fn node_at_mut(&mut self, x: usize, y: usize, z: usize) -> (r: &mut MapBlock)
        requires
            in_chunk(x as int, y as int, z as int),
        ensures
            *r == old(self).data@[node_index(x as int, y as int, z as int)],
            final(self).data@ == old(self).data@.update(
                node_index(x as int, y as int, z as int),
                *final(r),
            ),
    {
        &mut self.data[x * 256 + y * 16 + z]
    }

    pub fn data(&self) -> (r: &[MapBlock; CHUNK_VOLUME])
        ensures
            r@ == self.data@,
    {
        &self.data
    }
}


/// Relies on `Arc::clone`: the new handle points at the same value as the old one.
#[verifier::external_body]
fn share<T>(handle: &Arc<T>) -> (r: Arc<T>)
    ensures
        r == *handle,
{
    Arc::clone(handle)
}

/// `m` with `v` added at `k`, unless `k` is already stored.
pub open spec fn add_absent<V>(m: Map<(i32, i32, i32), V>, k: (i32, i32, i32), v: V) -> Map<
    (i32, i32, i32),
    V,
> {
    if m.contains_key(k) {
        m
    } else {
        m.insert(k, v)
    }
}

/// The contents of a generated chunk.
pub enum MapChunkStorage {
    /// The chunk holds at least one solid block.
    Loaded(Arc<MapChunk>),
    /// The chunk was generated and holds only air; no block array is kept.
    Empty,
}

impl MapChunkStorage {
    /// The shared block array of a loaded chunk.
    pub fn unwrap(&self) -> (r: Arc<MapChunk>)
        requires
            self is Loaded,
        ensures
            *self == MapChunkStorage::Loaded(r),
    {
        match self {
            MapChunkStorage::Loaded(chunk) => share(chunk),
            MapChunkStorage::Empty => unreached(),
        }
    }

    pub fn is_loaded(&self) -> (r: bool)
        ensures
            r == (*self is Loaded),
    {
        match self {
            MapChunkStorage::Loaded(_) => true,
            MapChunkStorage::Empty => false,
        }
    }

    pub fn is_empty(&self) -> (r: bool)
        ensures
            r == (*self is Empty),
    {
        match self {
            MapChunkStorage::Loaded(_) => false,
            MapChunkStorage::Empty => true,
        }
    }
}

/// The result of looking a chunk up in a world store.
pub enum MapChunkStatus {
    /// The chunk is stored; the handle stays valid after the store drops the entry.
    Stored(Arc<MapChunkStorage>),
    /// No entry exists for the coordinate.
    Unloaded,
}

/// Why saving a world failed.
#[derive(Clone, Copy, Debug, PartialEq, Eq, Structural)]
pub enum SaveError {
    /// Durable storage is not supported.
    NotSupported,
}

/// A queryable collection of chunks keyed by chunk coordinate.
pub trait World {
    /// What the store holds: one storage value per chunk coordinate.
    spec fn chunks(&self) -> Map<(i32, i32, i32), MapChunkStorage>;

    /// The store's internal consistency.
    spec fn inv(&self) -> bool;

    /// Adds `data` at `(x, y, z)`. A second insertion at a stored coordinate is
    /// refused: the first entry stays and the store is unchanged.
    fn add_chunk(&mut self, data: MapChunkStorage, x: i32, y: i32, z: i32)
        requires
            old(self).inv(),
        ensures
            final(self).inv(),
            final(self).chunks() == add_absent(old(self).chunks(), (x, y, z), data),
    ;

    /// Drops the entry at `(x, y, z)`, if there is one.
    fn unload_chunk(&mut self, x: i32, y: i32, z: i32)
        requires
            old(self).inv(),
        ensures
            final(self).inv(),
            final(self).chunks() == old(self).chunks().remove((x, y, z)),
    ;

    /// Looks up `(x, y, z)`: a shared handle to its storage, or `Unloaded`.
    fn chunk_at(&self, x: i32, y: i32, z: i32) -> (r: MapChunkStatus)
        requires
            self.inv(),
        ensures
            match r {
                MapChunkStatus::Stored(h) => self.chunks().contains_key((x, y, z))
                    && self.chunks()[(x, y, z)] == *h,
                MapChunkStatus::Unloaded => !self.chunks().contains_key((x, y, z)),
            },
    ;

    /// Whether an entry exists at `(x, y, z)`.
    fn chunk_loaded(&self, x: i32, y: i32, z: i32) -> (r: bool)
        requires
            self.inv(),
        ensures
            r == self.chunks().contains_key((x, y, z)),
    {
        match self.chunk_at(x, y, z) {
            MapChunkStatus::Stored(_) => true,
            MapChunkStatus::Unloaded => false,
        }
    }

    /// Durable storage is not supported: this always fails.
    fn save(&self, path: &str) -> (r: Result<(), SaveError>)
        ensures
            r == Err::<(), SaveError>(SaveError::NotSupported),
    ;
}

/// One entry of a world store: chunk coordinate and shared storage.
pub type ChunkEntry = (i32, i32, i32, Arc<MapChunkStorage>);

/// The chunk coordinate of an entry.
pub open spec fn entry_key(e: ChunkEntry) -> (i32, i32, i32) {
    (e.0, e.1, e.2)
}

/// The raw entries of a world store, in insertion order.
pub struct MemoryWorldData {
    pub chunks: Vec<ChunkEntry>,
}

impl MemoryWorldData {
    pub fn new() -> (r: Self)
        ensures
            r.chunks@.len() == 0,
    {
        Self { chunks: Vec::new() }
    }

    /// Appends an entry for `(x, y, z)`.
    pub fn add_chunk(&mut self, data: MapChunkStorage, x: i32, y: i32, z: i32)
        ensures
            final(self).chunks@.len() == old(self).chunks@.len() + 1,
            final(self).chunks@.drop_last() == old(self).chunks@,
            entry_key(final(self).chunks@.last()) == (x, y, z),
            *final(self).chunks@.last().3 == data,
    {
        let chunk = Arc::new(data);
        self.chunks.push((x, y, z, chunk));
        proof {
            assert(self.chunks@.drop_last() =~= old(self).chunks@);
        }
    }
}

/// An in-memory world store holding at most one entry per chunk coordinate.
pub struct MemoryWorld {
    data: MemoryWorldData,
    stored: Ghost<Map<(i32, i32, i32), MapChunkStorage>>,
}

/// Entries whose coordinates are pairwise distinct and which agree with `m`.
pub open spec fn entries_match(s: Seq<ChunkEntry>, m: Map<(i32, i32, i32), MapChunkStorage>) -> bool {
    &&& forall|i: int, j: int|
        0 <= i < j < s.len() ==> entry_key(#[trigger] s[i]) != entry_key(#[trigger] s[j])
    &&& forall|i: int|
        0 <= i < s.len() ==> m.contains_key(entry_key(#[trigger] s[i])) && m[entry_key(s[i])]
            == *s[i].3
    &&& forall|k: (i32, i32, i32)|
        m.contains_key(k) ==> exists|i: int| 0 <= i < s.len() && entry_key(#[trigger] s[i]) == k
}

impl MemoryWorld {
    pub fn new() -> (r: Self)
        ensures
            r.inv(),
            r.chunks() == Map::<(i32, i32, i32), MapChunkStorage>::empty(),
    {
        Self { data: MemoryWorldData::new(), stored: Ghost(Map::empty()) }
    }

    /// Number of raw entries kept for `(x, y, z)`: one if it is stored, else none.
    pub fn entry_count(&self, x: i32, y: i32, z: i32) -> (r: usize)
        requires
            self.inv(),
        ensures
            r == (if self.chunks().contains_key((x, y, z)) { 1usize } else { 0usize }),
    {
        let n = self.data.chunks.len();
        let mut count: usize = 0;
        let mut i: usize = 0;
        while i < n
            invariant
                n == self.data.chunks@.len(),
                i <= n,
                entries_match(self.data.chunks@, self.stored@),
                count == (if exists|j: int| 0 <= j < i && entry_key(#[trigger] self.data.chunks@[j]) == (x, y, z) { 1usize } else { 0usize }),
            decreases n - i,
        {
            let e = &self.data.chunks[i];
            if e.0 == x && e.1 == y && e.2 == z {
                proof {
                    assert forall|j: int| 0 <= j < i implies entry_key(#[trigger] self.data.chunks@[j]) != (x, y, z) by {
                        assert(entry_key(self.data.chunks@[j]) != entry_key(self.data.chunks@[i as int]));
                    }
                }
                count = count + 1;
            }
            i = i + 1;
        }
        count
    }

    /// Position of the entry for `(x, y, z)`, if any.
    fn find(&self, x: i32, y: i32, z: i32) -> (r: Option<usize>)
        requires
            self.inv(),
        ensures
            match r {
                Some(i) => i < self.data.chunks@.len() && entry_key(self.data.chunks@[i as int])
                    == (x, y, z),
                None => !self.chunks().contains_key((x, y, z)),
            },
    {
        let n = self.data.chunks.len();
        let mut i: usize = 0;
        while i < n
            invariant
                n == self.data.chunks@.len(),
                i <= n,
                forall|j: int| 0 <= j < i ==> entry_key(#[trigger] self.data.chunks@[j]) != (x, y, z),
            decreases n - i,
        {
            let e = &self.data.chunks[i];
            if e.0 == x && e.1 == y && e.2 == z {
                return Some(i);
            }
            i = i + 1;
        }
        None
    }
}

impl World for MemoryWorld {
    closed spec fn chunks(&self) -> Map<(i32, i32, i32), MapChunkStorage> {
        self.stored@
    }

    closed spec fn inv(&self) -> bool {
        entries_match(self.data.chunks@, self.stored@)
    }

    fn add_chunk(&mut self, data: MapChunkStorage, x: i32, y: i32, z: i32) {
        if self.find(x, y, z).is_some() {
            return;
        }
        assert(!self.stored@.contains_key((x, y, z)));
        let ghost prev = self.data.chunks@;
        self.stored = Ghost(self.stored@.insert((x, y, z), data));
        self.data.add_chunk(data, x, y, z);
        proof {
            let s = self.data.chunks@;
            assert(s.drop_last() == prev);
            assert forall|i: int| 0 <= i < prev.len() implies s[i] == prev[i] by {
                assert(s.drop_last()[i] == s[i]);
            }
            assert forall|k: (i32, i32, i32)| self.stored@.contains_key(k) implies exists|i: int|
                0 <= i < s.len() && entry_key(#[trigger] s[i]) == k by {
                if k == (x, y, z) {
                    assert(entry_key(s[prev.len() as int]) == k);
                } else {
                    let i = choose|i: int| 0 <= i < prev.len() && entry_key(#[trigger] prev[i]) == k;
                    assert(entry_key(s[i]) == k);
                }
            }
        }
    }

    fn unload_chunk(&mut self, x: i32, y: i32, z: i32) {
        match self.find(x, y, z) {
            None => {
                proof {
                    assert(self.stored@.remove((x, y, z)) =~= self.stored@);
                }
            },
            Some(i) => {
                let ghost prev = self.data.chunks@;
                let ghost m = self.stored@;
                self.data.chunks.remove(i);
                self.stored = Ghost(self.stored@.remove((x, y, z)));
                proof {
                    let s = self.data.chunks@;
                    assert(s == prev.remove(i as int));
                    assert forall|a: int, b: int|
                        0 <= a < b < s.len() implies entry_key(#[trigger] s[a]) != entry_key(
                            #[trigger] s[b],
                        ) by {
                        let pa = if a < i { a } else { a + 1 };
                        let pb = if b < i { b } else { b + 1 };
                        assert(s[a] == prev[pa]);
                        assert(s[b] == prev[pb]);
                    }
                    assert forall|a: int| 0 <= a < s.len() implies self.stored@.contains_key(
                        entry_key(#[trigger] s[a]),
                    ) && self.stored@[entry_key(s[a])] == *s[a].3 by {
                        let pa = if a < i { a } else { a + 1 };
                        assert(s[a] == prev[pa]);
                        assert(entry_key(prev[pa]) != entry_key(prev[i as int]));
                    }
                    assert forall|k: (i32, i32, i32)| self.stored@.contains_key(k) implies exists|
                        a: int,
                    | 0 <= a < s.len() && entry_key(#[trigger] s[a]) == k by {
                        let p = choose|p: int| 0 <= p < prev.len() && entry_key(#[trigger] prev[p]) == k;
                        assert(p != i);
                        let a = if p < i { p } else { p - 1 };
                        assert(s[a] == prev[p]);
                    }
                }
            },
        }
    }

    fn chunk_at(&self, x: i32, y: i32, z: i32) -> (r: MapChunkStatus) {
        match self.find(x, y, z) {
            Some(i) => MapChunkStatus::Stored(share(&self.data.chunks[i].3)),
            None => MapChunkStatus::Unloaded,
        }
    }

    fn save(&self, path: &str) -> (r: Result<(), SaveError>) {
        Err(SaveError::NotSupported)
    }
}

/// Adding a chunk at a coordinate that is already stored changes nothing: the
/// first entry stays, so a store never holds two entries for one coordinate.
pub proof fn lemma_second_add_keeps_first<V>(m: Map<(i32, i32, i32), V>, k: (i32, i32, i32), first: V, second: V)
    ensures
        add_absent(add_absent(m, k, first), k, second) == add_absent(m, k, first),
        add_absent(add_absent(m, k, first), k, second).contains_key(k),
        !m.contains_key(k) ==> add_absent(add_absent(m, k, first), k, second)[k] == first,
{
}

/// A lookup whose result meets `chunk_at`'s contract on the store before an insertion
/// or on the store after it finds either nothing (and then it read the store before)
/// or the whole inserted value.
pub proof fn lemma_lookup_sees_whole_insert(
    before: Map<(i32, i32, i32), MapChunkStorage>,
    k: (i32, i32, i32),
    data: MapChunkStorage,
    seen: Map<(i32, i32, i32), MapChunkStorage>,
    found: MapChunkStatus,
)
    requires
        !before.contains_key(k),
        seen == before || seen == add_absent(before, k, data),
        match found {
            MapChunkStatus::Stored(h) => seen.contains_key(k) && seen[k] == *h,
            MapChunkStatus::Unloaded => !seen.contains_key(k),
        },
    ensures
        match found {
            MapChunkStatus::Stored(h) => *h == data,
            MapChunkStatus::Unloaded => seen == before,
        },
{
}

} // verus!
