//! Per-observer visibility diffing: which chunks enter and leave an observer's
//! view cube as it moves, emitted as load and unload signals.

use vstd::prelude::*;
use vstd::set_lib::{lemma_int_range, lemma_len_subset, set_int_range};
use vstd::seq_lib::seq_to_set_is_finite;
use crate::pos::{MapChunkCoordinate, MapCoordinate, chunk_of};
use crate::world::{MapChunkStorage, World};

verus! {

/// Whether chunk `c` lies in the cube of radius `d` (inclusive) around `center`.
pub open spec fn in_view(c: MapChunkCoordinate, center: MapChunkCoordinate, d: int) -> bool {
    &&& center.x - d <= c.x <= center.x + d
    &&& center.y - d <= c.y <= center.y + d
    &&& center.z - d <= c.z <= center.z + d
}

/// The cube of radius `d` around `center` holds only coordinates that fit in an `i32`.
pub open spec fn cube_fits(center: MapChunkCoordinate, d: int) -> bool {
    &&& i32::MIN <= center.x - d && center.x + d <= i32::MAX
    &&& i32::MIN <= center.y - d && center.y + d <= i32::MAX
    &&& i32::MIN <= center.z - d && center.z + d <= i32::MAX
}

/// The map key of a chunk coordinate.
pub open spec fn key(c: MapChunkCoordinate) -> (i32, i32, i32) {
    (c.x, c.y, c.z)
}

/// `c` comes strictly before the point `(x, y, z)` in x-major, then y, then z order.
pub open spec fn before(c: MapChunkCoordinate, x: int, y: int, z: int) -> bool {
    c.x < x || (c.x == x && (c.y < y || (c.y == y && c.z < z)))
}

/// Whether a scan of the cube around `center` emits `c`: inside that cube, outside
/// the cube around `exclude` (if any), and, when `skip_loaded` holds, not stored.
pub open spec fn wanted<K>(
    c: MapChunkCoordinate,
    center: MapChunkCoordinate,
    d: int,
    exclude: Option<MapChunkCoordinate>,
    stored: Map<(i32, i32, i32), K>,
    skip_loaded: bool,
) -> bool {
    &&& in_view(c, center, d)
    &&& match exclude {
        Some(o) => !in_view(c, o, d),
        None => true,
    }
    &&& skip_loaded ==> !stored.contains_key(key(c))
}

/// `s` lists each wanted coordinate before `(x, y, z)` exactly once, in scan order.
pub open spec fn scanned_upto<K>(
    s: Seq<MapChunkCoordinate>,
    center: MapChunkCoordinate,
    d: int,
    exclude: Option<MapChunkCoordinate>,
    stored: Map<(i32, i32, i32), K>,
    skip_loaded: bool,
    x: int,
    y: int,
    z: int,
) -> bool {
    &&& forall|i: int|
        0 <= i < s.len() ==> wanted(#[trigger] s[i], center, d, exclude, stored, skip_loaded)
            && before(s[i], x, y, z)
    &&& forall|c: MapChunkCoordinate|
        wanted(c, center, d, exclude, stored, skip_loaded) && before(c, x, y, z)
            ==> #[trigger] s.contains(c)
    &&& forall|i: int, j: int|
        0 <= i < j < s.len() ==> before(#[trigger] s[i], (#[trigger] s[j]).x as int, s[j].y as int, s[j].z as int)
}

/// Every coordinate of the cube around `center` is wanted: nothing is filtered out.
pub open spec fn nothing_filtered<K>(
    center: MapChunkCoordinate,
    d: int,
    exclude: Option<MapChunkCoordinate>,
    stored: Map<(i32, i32, i32), K>,
    skip_loaded: bool,
) -> bool {
    forall|c: MapChunkCoordinate|
        in_view(c, center, d) ==> #[trigger] wanted(c, center, d, exclude, stored, skip_loaded)
}

/// Number of coordinates in a cube of radius `d`.
pub open spec fn cube_size(d: int) -> int {
    (2 * d + 1) * (2 * d + 1) * (2 * d + 1)
}

/// `s` lists each wanted coordinate exactly once.
pub open spec fn scanned<K>(
    s: Seq<MapChunkCoordinate>,
    center: MapChunkCoordinate,
    d: int,
    exclude: Option<MapChunkCoordinate>,
    stored: Map<(i32, i32, i32), K>,
    skip_loaded: bool,
) -> bool {
    &&& forall|c: MapChunkCoordinate|
        #[trigger] s.contains(c) <==> wanted(c, center, d, exclude, stored, skip_loaded)
    &&& s.no_duplicates()
}

fn in_view_exec(c: MapChunkCoordinate, center: MapChunkCoordinate, d: i32) -> (r: bool)
    ensures
        r == in_view(c, center, d as int),
{
    let (cx, cy, cz) = (center.x as i64, center.y as i64, center.z as i64);
    let d = d as i64;
    cx - d <= c.x as i64 && c.x as i64 <= cx + d && cy - d <= c.y as i64 && c.y as i64 <= cy + d
        && cz - d <= c.z as i64 && c.z as i64 <= cz + d
}

/// Walks the cube of radius `d` around `center` and lists the wanted coordinates.
fn scan_view<W: World>(
    world: &W,
    center: MapChunkCoordinate,
    d: i32,
    exclude: Option<MapChunkCoordinate>,
    skip_loaded: bool,
) -> (out: Vec<MapChunkCoordinate>)
    requires
        world.inv(),
        d >= 0,
        cube_fits(center, d as int),
    ensures
        scanned(out@, center, d as int, exclude, world.chunks(), skip_loaded),
        nothing_filtered(center, d as int, exclude, world.chunks(), skip_loaded) ==> out@.len()
            == cube_size(d as int),
{
    let ghost stored = world.chunks();
    let ghost dd = d as int;
    let lo_x = center.x as i64 - d as i64;
    let hi_x = center.x as i64 + d as i64;
    let lo_y = center.y as i64 - d as i64;
    let hi_y = center.y as i64 + d as i64;
    let lo_z = center.z as i64 - d as i64;
    let hi_z = center.z as i64 + d as i64;
    let mut out: Vec<MapChunkCoordinate> = Vec::new();
    let mut x: i64 = lo_x;
    while x <= hi_x
        invariant
            world.inv(),
            stored == world.chunks(),
            dd == d as int,
            lo_x == center.x - dd && hi_x == center.x + dd,
            lo_y == center.y - dd && hi_y == center.y + dd,
            lo_z == center.z - dd && hi_z == center.z + dd,
            cube_fits(center, dd),
            lo_x <= x <= hi_x + 1,
            scanned_upto(out@, center, dd, exclude, stored, skip_loaded, x as int, lo_y as int, lo_z as int),
            nothing_filtered(center, dd, exclude, stored, skip_loaded) ==> out@.len() == (x - lo_x) * (2 * dd + 1) * (2 * dd + 1),
        decreases hi_x + 1 - x,
    {
        let mut y: i64 = lo_y;
        while y <= hi_y
            invariant
                world.inv(),
                stored == world.chunks(),
                dd == d as int,
                lo_x == center.x - dd && hi_x == center.x + dd,
                lo_y == center.y - dd && hi_y == center.y + dd,
                lo_z == center.z - dd && hi_z == center.z + dd,
                cube_fits(center, dd),
                lo_x <= x <= hi_x,
                lo_y <= y <= hi_y + 1,
                scanned_upto(out@, center, dd, exclude, stored, skip_loaded, x as int, y as int, lo_z as int),
                nothing_filtered(center, dd, exclude, stored, skip_loaded) ==> out@.len() == (x - lo_x) * (2 * dd + 1) * (2 * dd + 1) + (y - lo_y) * (2 * dd + 1),
            decreases hi_y + 1 - y,
        {
            let mut z: i64 = lo_z;
            while z <= hi_z
                invariant
                    world.inv(),
                    stored == world.chunks(),
                    dd == d as int,
                    lo_x == center.x - dd && hi_x == center.x + dd,
                    lo_y == center.y - dd && hi_y == center.y + dd,
                    lo_z == center.z - dd && hi_z == center.z + dd,
                    cube_fits(center, dd),
                    lo_x <= x <= hi_x,
                    lo_y <= y <= hi_y,
                    lo_z <= z <= hi_z + 1,
                    scanned_upto(out@, center, dd, exclude, stored, skip_loaded, x as int, y as int, z as int),
                    nothing_filtered(center, dd, exclude, stored, skip_loaded) ==> out@.len() == (x - lo_x) * (2 * dd + 1) * (2 * dd + 1) + (y - lo_y) * (2 * dd + 1) + (z - lo_z),
                decreases hi_z + 1 - z,
            {
                let c = MapChunkCoordinate::new(x as i32, y as i32, z as i32);
                let mut keep = match exclude {
                    Some(o) => !in_view_exec(c, o, d),
                    None => true,
                };
                if keep && skip_loaded {
                    keep = !world.chunk_loaded(c.x, c.y, c.z);
                }
                let ghost prev = out@;
                if keep {
                    out.push(c);
                }
                proof {
                    let s = out@;
                    assert(keep == wanted(c, center, dd, exclude, stored, skip_loaded));
                    if nothing_filtered(center, dd, exclude, stored, skip_loaded) {
                        assert(in_view(c, center, dd));
                    }
                    assert forall|cc: MapChunkCoordinate|
                        wanted(cc, center, dd, exclude, stored, skip_loaded) && before(
                            cc,
                            x as int,
                            y as int,
                            z + 1,
                        ) implies #[trigger] s.contains(cc) by {
                        if cc == c {
                            assert(s[s.len() - 1] == c);
                        } else {
                            assert(prev.contains(cc));
                            let i = choose|i: int| 0 <= i < prev.len() && prev[i] == cc;
                            assert(s[i] == cc);
                        }
                    }
                }
                z = z + 1;
            }
            proof {
                let side = 2 * dd + 1;
                assert((y - lo_y) * side + side == (y + 1 - lo_y) * side) by (nonlinear_arith);
            }
            y = y + 1;
        }
        proof {
            let side = 2 * dd + 1;
            assert((x - lo_x) * side * side + side * side == (x + 1 - lo_x) * side * side)
                by (nonlinear_arith);
        }
        x = x + 1;
    }
    proof {
        let s = out@;
        assert forall|cc: MapChunkCoordinate|
            wanted(cc, center, dd, exclude, stored, skip_loaded) implies #[trigger] s.contains(cc) by {
            assert(before(cc, x as int, lo_y as int, lo_z as int));
        }
        assert forall|i: int, j: int| 0 <= i < s.len() && 0 <= j < s.len() && i != j implies s[i]
            != s[j] by {
            if i < j {
                assert(before(s[i], s[j].x as int, s[j].y as int, s[j].z as int));
            } else {
                assert(before(s[j], s[i].x as int, s[i].y as int, s[i].z as int));
            }
        }
    }
    out
}


/// Where an observer's view stood at its last diff pass.
#[derive(Clone, Copy, Debug, PartialEq, Eq, Structural)]
pub enum WorldObserverStatus {
    /// No pass yet: the whole view cube is to be requested.
    NeedsRefresh,
    /// The chunk the observer stood in at its last pass.
    FromPosition(MapChunkCoordinate),
}

/// A signal that a chunk should be loaded or generated.
#[derive(Clone, Copy, Debug, PartialEq, Eq, Structural)]
pub struct ObservationLoadEvent {
    pub chunk_pos: MapChunkCoordinate,
}

/// A signal that a chunk should be unloaded.
#[derive(Clone, Copy, Debug, PartialEq, Eq, Structural)]
pub struct ObservationUnloadEvent {
    pub chunk_pos: MapChunkCoordinate,
}

/// After a step of one chunk along +x, the chunks that enter the view cube are
/// exactly its far face `x == current.x + d`, and those that leave it are exactly the
/// old near face `x == last.x - d`; nothing in the overlap is signalled.
pub proof fn lemma_step_east_shells<K>(
    last: MapChunkCoordinate,
    current: MapChunkCoordinate,
    d: int,
    c: MapChunkCoordinate,
    stored: Map<(i32, i32, i32), K>,
)
    requires
        d >= 0,
        current.x == last.x + 1,
        current.y == last.y,
        current.z == last.z,
    ensures
        wanted(c, current, d, Some(last), stored, false) <==> (c.x == current.x + d
            && current.y - d <= c.y <= current.y + d && current.z - d <= c.z <= current.z + d),
        wanted(c, last, d, Some(current), stored, false) <==> (c.x == last.x - d
            && last.y - d <= c.y <= last.y + d && last.z - d <= c.z <= last.z + d),
{
}

/// The signals of one diff pass.
pub struct ObservationSignals {
    pub loads: Vec<ObservationLoadEvent>,
    pub unloads: Vec<ObservationUnloadEvent>,
}

/// The chunk coordinates that a list of load signals names.
pub open spec fn load_coords(s: Seq<ObservationLoadEvent>) -> Seq<MapChunkCoordinate> {
    s.map_values(|e: ObservationLoadEvent| e.chunk_pos)
}

/// The chunk coordinates that a list of unload signals names.
pub open spec fn unload_coords(s: Seq<ObservationUnloadEvent>) -> Seq<MapChunkCoordinate> {
    s.map_values(|e: ObservationUnloadEvent| e.chunk_pos)
}

fn load_events(v: Vec<MapChunkCoordinate>) -> (r: Vec<ObservationLoadEvent>)
    ensures
        load_coords(r@) == v@,
{
    let mut r: Vec<ObservationLoadEvent> = Vec::new();
    let mut i: usize = 0;
    while i < v.len()
        invariant
            i <= v@.len(),
            r@.len() == i,
            forall|j: int| 0 <= j < i ==> (#[trigger] r@[j]).chunk_pos == v@[j],
        decreases v@.len() - i,
    {
        r.push(ObservationLoadEvent { chunk_pos: v[i] });
        i = i + 1;
    }
    assert(load_coords(r@) =~= v@);
    r
}

fn unload_events(v: Vec<MapChunkCoordinate>) -> (r: Vec<ObservationUnloadEvent>)
    ensures
        unload_coords(r@) == v@,
{
    let mut r: Vec<ObservationUnloadEvent> = Vec::new();
    let mut i: usize = 0;
    while i < v.len()
        invariant
            i <= v@.len(),
            r@.len() == i,
            forall|j: int| 0 <= j < i ==> (#[trigger] r@[j]).chunk_pos == v@[j],
        decreases v@.len() - i,
    {
        r.push(ObservationUnloadEvent { chunk_pos: v[i] });
        i = i + 1;
    }
    assert(unload_coords(r@) =~= v@);
    r
}

/// `after`, `loads` and `unloads` are what one diff pass makes of `before`.
///
/// On the first pass every chunk of the view cube that is not stored is requested
/// (one request per cube coordinate when none is stored). Later, when the observer
/// has changed chunk, the chunks that entered the view cube and are not stored are
/// requested, and those that left it are dropped; chunks in both cubes get no
/// signal. Within the same chunk nothing is emitted. Each coordinate is signalled at
/// most once per list. The state then records the observer's current chunk.
pub open spec fn diff_pass(
    before: MapObserverData,
    after: MapObserverData,
    stored: Map<(i32, i32, i32), MapChunkStorage>,
    loads: Seq<ObservationLoadEvent>,
    unloads: Seq<ObservationUnloadEvent>,
) -> bool {
    &&& after.view_distance == before.view_distance
    &&& after.position == before.position
    &&& after.status == WorldObserverStatus::FromPosition(before.current_chunk())
    &&& match before.status {
        WorldObserverStatus::NeedsRefresh => {
            &&& scanned(
                load_coords(loads),
                before.current_chunk(),
                before.view_distance as int,
                None,
                stored,
                true,
            )
            &&& nothing_filtered(
                before.current_chunk(),
                before.view_distance as int,
                None,
                stored,
                true,
            ) ==> loads.len() == cube_size(before.view_distance as int)
            &&& unloads.len() == 0
        },
        WorldObserverStatus::FromPosition(last) => if last == before.current_chunk() {
            loads.len() == 0 && unloads.len() == 0
        } else {
            &&& scanned(
                load_coords(loads),
                before.current_chunk(),
                before.view_distance as int,
                Some(last),
                stored,
                true,
            )
            &&& scanned(
                unload_coords(unloads),
                last,
                before.view_distance as int,
                Some(before.current_chunk()),
                stored,
                false,
            )
        },
    }
}

/// The diffing state of one observer.
#[derive(Clone, Copy, Debug, PartialEq, Eq, Structural)]
pub struct MapObserverData {
    pub status: WorldObserverStatus,
    /// Radius, in chunks, of the view cube.
    pub view_distance: i32,
    /// The observer's block position.
    pub position: MapCoordinate,
}

impl MapObserverData {
    /// A fresh observer, waiting for its first full refresh.
    pub fn new(view_distance: i32, position: MapCoordinate) -> (r: Self)
        ensures
            r.status == WorldObserverStatus::NeedsRefresh,
            r.view_distance == view_distance,
            r.position == position,
    {
        Self { status: WorldObserverStatus::NeedsRefresh, view_distance, position }
    }

    /// The chunk the observer stands in.
    pub open spec fn current_chunk(self) -> MapChunkCoordinate {
        chunk_of(self.position)
    }

    /// The view distance is not negative and every view cube the next pass walks
    /// holds only coordinates that fit in an `i32`.
    pub open spec fn can_observe(self) -> bool {
        &&& self.view_distance >= 0
        &&& cube_fits(self.current_chunk(), self.view_distance as int)
        &&& match self.status {
            WorldObserverStatus::FromPosition(last) => cube_fits(last, self.view_distance as int),
            WorldObserverStatus::NeedsRefresh => true,
        }
    }

    /// One diff pass against `world` (see `diff_pass`).
    pub fn observe<W: World>(&mut self, world: &W) -> (r: ObservationSignals)
        requires
            world.inv(),
            old(self).can_observe(),
        ensures
            diff_pass(*old(self), *final(self), world.chunks(), r.loads@, r.unloads@),
    {
        let d = self.view_distance;
        let current = self.position.get_chunk();
        let signals = match self.status {
            WorldObserverStatus::NeedsRefresh => {
                let loads = scan_view(world, current, d, None, true);
                ObservationSignals { loads: load_events(loads), unloads: Vec::new() }
            },
            WorldObserverStatus::FromPosition(last) => {
                if last == current {
                    ObservationSignals { loads: Vec::new(), unloads: Vec::new() }
                } else {
                    let loads = scan_view(world, current, d, Some(last), true);
                    let unloads = scan_view(world, last, d, Some(current), false);
                    ObservationSignals { loads: load_events(loads), unloads: unload_events(unloads) }
                }
            },
        };
        self.status = WorldObserverStatus::FromPosition(current);
        signals
    }
}


/// Marks an entity as an observer; `id` is its registry id, `0` until registered.
#[derive(Clone, Copy, Debug, PartialEq, Eq, Structural)]
pub struct MapObserver {
    pub id: u32,
}

impl MapObserver {
    pub fn new() -> (r: Self)
        ensures
            r.id == 0,
    {
        Self { id: 0 }
    }
}

/// Whether some entry of `s` has id `id`.
pub open spec fn has_id(s: Seq<(u32, MapObserverData)>, id: u32) -> bool {
    exists|i: int| 0 <= i < s.len() && (#[trigger] s[i]).0 == id
}

/// No two entries of `s` share an id.
pub open spec fn ids_distinct(s: Seq<(u32, MapObserverData)>) -> bool {
    forall|i: int, j: int| 0 <= i < j < s.len() ==> (#[trigger] s[i]).0 != (#[trigger] s[j]).0
}

/// `n` entries cannot hold all of the `n + 1` ids `0..=n`: one of them is free.
proof fn lemma_some_id_free(s: Seq<(u32, MapObserverData)>)
    requires
        s.len() < u32::MAX,
    ensures
        exists|v: u32| v <= s.len() && !has_id(s, v),
{
    if forall|v: u32| v <= s.len() ==> has_id(s, v) {
        let ids = s.map_values(|e: (u32, MapObserverData)| e.0 as int);
        let range = set_int_range(0, s.len() as int + 1);
        lemma_int_range(0, s.len() as int + 1);
        ids.lemma_cardinality_of_set();
        seq_to_set_is_finite(ids);
        assert forall|v: int| range.contains(v) implies ids.to_set().contains(v) by {
            assert(has_id(s, v as u32));
            let i = choose|i: int| 0 <= i < s.len() && (#[trigger] s[i]).0 == v as u32;
            assert(ids[i] == v);
        }
        lemma_len_subset(range, ids.to_set());
    }
}

/// The observers that the observation component tracks, in registration order.
pub struct WorldObservationPluginState {
    pub observers: Vec<(u32, MapObserverData)>,
    /// Whether a debug overlay should be shown for the observers.
    pub debug_menu: bool,
}

impl WorldObservationPluginState {
    /// Each id appears once.
    pub open spec fn wf(&self) -> bool {
        ids_distinct(self.observers@)
    }

    /// Every tracked observer can take its next diff pass.
    pub open spec fn all_can_observe(&self) -> bool {
        forall|i: int| 0 <= i < self.observers@.len() ==> (#[trigger] self.observers@[i]).1.can_observe()
    }

    pub fn new() -> (r: Self)
        ensures
            r.wf(),
            r.observers@.len() == 0,
            r.debug_menu,
    {
        Self { observers: Vec::new(), debug_menu: true }
    }

    /// Registers an observer under the smallest id not in use, waiting for its first
    /// refresh at block `(0, 0, 0)`, appends it, and returns that id.
    pub fn create_observer(&mut self, view_distance: i32) -> (r: u32)
        requires
            old(self).wf(),
            old(self).observers@.len() < u32::MAX,
        ensures
            final(self).wf(),
            !has_id(old(self).observers@, r),
            forall|id: u32| id < r ==> has_id(old(self).observers@, id),
            final(self).observers@ == old(self).observers@.push(
                (
                    r,
                    MapObserverData {
                        status: WorldObserverStatus::NeedsRefresh,
                        view_distance,
                        position: MapCoordinate { x: 0, y: 0, z: 0 },
                    },
                ),
            ),
            final(self).debug_menu == old(self).debug_menu,
    {
        let n = self.observers.len();
        let mut id: usize = 0;
        loop
            invariant
                n == self.observers@.len(),
                n < u32::MAX,
                self.wf(),
                id <= n,
                forall|v: u32| v < id ==> has_id(self.observers@, v),
            ensures
                id <= n,
                forall|v: u32| v < id ==> has_id(self.observers@, v),
                !has_id(self.observers@, id as u32),
            decreases n - id,
        {
            match self.position_of(id as u32) {
                None => break,
                Some(_) => {
                    proof {
                        if id == n {
                            lemma_some_id_free(self.observers@);
                            let v = choose|v: u32| v <= n && !has_id(self.observers@, v);
                            if v < id {
                            } else {
                                assert(v == id as u32);
                            }
                        }
                    }
                    id = id + 1;
                },
            }
        }
        let data = MapObserverData::new(view_distance, MapCoordinate::new(0, 0, 0));
        let ghost prev = self.observers@;
        self.observers.push((id as u32, data));
        proof {
            let s = self.observers@;
            assert forall|a: int, b: int| 0 <= a < b < s.len() implies (#[trigger] s[a]).0 != (
            #[trigger] s[b]).0 by {
                assert(s[a] == prev[a]);
                if b < prev.len() {
                    assert(s[b] == prev[b]);
                }
            }
        }
        id as u32
    }

    /// Stops tracking the observer with id `id`, if there is one.
    pub fn remove_observer(&mut self, id: u32)
        requires
            old(self).wf(),
        ensures
            final(self).wf(),
            !has_id(final(self).observers@, id),
            has_id(old(self).observers@, id) ==> exists|i: int|
                0 <= i < old(self).observers@.len() && (#[trigger] old(self).observers@[i]).0 == id
                    && final(self).observers@ == old(self).observers@.remove(i),
            !has_id(old(self).observers@, id) ==> final(self).observers@ == old(self).observers@,
            final(self).debug_menu == old(self).debug_menu,
    {
        match self.position_of(id) {
            Some(i) => {
                let ghost prev = self.observers@;
                self.observers.remove(i);
                proof {
                    let s = self.observers@;
                    assert(s == prev.remove(i as int));
                    assert forall|a: int, b: int| 0 <= a < b < s.len() implies (#[trigger] s[a]).0 != (#[trigger] s[b]).0 by {
                        let pa = if a < i { a } else { a + 1 };
                        let pb = if b < i { b } else { b + 1 };
                        assert(s[a] == prev[pa] && s[b] == prev[pb]);
                    }
                    assert forall|j: int| 0 <= j < s.len() implies (#[trigger] s[j]).0 != id by {
                        let pj = if j < i { j } else { j + 1 };
                        assert(s[j] == prev[pj]);
                        assert(pj != i);
                    }
                    assert(prev[i as int].0 == id);
                }
            },
            None => {},
        }
    }

    /// Position of the entry with id `id`, if any.
    fn position_of(&self, id: u32) -> (r: Option<usize>)
        requires
            self.wf(),
        ensures
            match r {
                Some(i) => i < self.observers@.len() && self.observers@[i as int].0 == id,
                None => !has_id(self.observers@, id),
            },
    {
        let n = self.observers.len();
        let mut i: usize = 0;
        while i < n
            invariant
                n == self.observers@.len(),
                i <= n,
                forall|j: int| 0 <= j < i ==> (#[trigger] self.observers@[j]).0 != id,
            decreases n - i,
        {
            if self.observers[i].0 == id {
                return Some(i);
            }
            i = i + 1;
        }
        None
    }

    /// The diffing state of observer `id`, if it is tracked.
    pub fn get_observer(&self, id: u32) -> (r: Option<&MapObserverData>)
        requires
            self.wf(),
        ensures
            match r {
                Some(d) => exists|i: int|
                    0 <= i < self.observers@.len() && #[trigger] self.observers@[i] == (id, *d),
                None => !has_id(self.observers@, id),
            },
    {
        match self.position_of(id) {
            Some(i) => Some(&self.observers[i].1),
            None => None,
        }
    }

    /// Moves observer `id` to block `position`; false when no such observer is tracked.
    pub fn set_position(&mut self, id: u32, position: MapCoordinate) -> (r: bool)
        requires
            old(self).wf(),
        ensures
            final(self).wf(),
            r == has_id(old(self).observers@, id),
            r ==> exists|i: int|
                0 <= i < old(self).observers@.len() && (#[trigger] old(self).observers@[i]).0 == id
                    && final(self).observers@ == old(self).observers@.update(
                    i,
                    (id, MapObserverData { position, ..old(self).observers@[i].1 }),
                ),
            !r ==> final(self).observers@ == old(self).observers@,
            final(self).debug_menu == old(self).debug_menu,
    {
        match self.position_of(id) {
            Some(i) => {
                let mut data = self.observers[i].1;
                data.position = position;
                self.observers.set(i, (id, data));
                true
            },
            None => false,
        }
    }

    /// One diff pass for every tracked observer, in id order; returns each
    /// observer's id with its signals.
    pub fn update_observers<W: World>(&mut self, world: &W) -> (r: Vec<(u32, ObservationSignals)>)
        requires
            world.inv(),
            old(self).wf(),
            old(self).all_can_observe(),
        ensures
            final(self).wf(),
            final(self).observers@.len() == old(self).observers@.len(),
            r@.len() == old(self).observers@.len(),
            forall|i: int|
                0 <= i < r@.len() ==> {
                    &&& (#[trigger] r@[i]).0 == old(self).observers@[i].0
                    &&& final(self).observers@[i].0 == old(self).observers@[i].0
                    &&& diff_pass(
                        old(self).observers@[i].1,
                        final(self).observers@[i].1,
                        world.chunks(),
                        r@[i].1.loads@,
                        r@[i].1.unloads@,
                    )
                },
            final(self).debug_menu == old(self).debug_menu,
    {
        let ghost start = self.observers@;
        let mut out: Vec<(u32, ObservationSignals)> = Vec::new();
        let n = self.observers.len();
        let mut i: usize = 0;
        while i < n
            invariant
                world.inv(),
                n == self.observers@.len(),
                n == start.len(),
                i <= n,
                out@.len() == i,
                forall|j: int| i <= j < n ==> #[trigger] self.observers@[j] == start[j],
                forall|j: int| 0 <= j < n ==> (#[trigger] self.observers@[j]).0 == start[j].0,
                forall|j: int| 0 <= j < n ==> (#[trigger] start[j]).1.can_observe(),
                forall|j: int|
                    0 <= j < i ==> {
                        &&& (#[trigger] out@[j]).0 == start[j].0
                        &&& diff_pass(start[j].1, self.observers@[j].1, world.chunks(), out@[j].1.loads@, out@[j].1.unloads@)
                    },
                ids_distinct(start),
                self.debug_menu == old(self).debug_menu,
            decreases n - i,
        {
            let (id, mut data) = self.observers[i];
            assert(data == start[i as int].1);
            let signals = data.observe(world);
            self.observers.set(i, (id, data));
            out.push((id, signals));
            i = i + 1;
        }
        out
    }
}

} // verus!
