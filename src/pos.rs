//! Block and chunk coordinates, and axis-aligned volumes of them.

use vstd::prelude::*;

verus! {

/// Edge length of a chunk, in blocks.
pub const CHUNK_EDGE: i32 = 16;

/// The chunk that holds a block coordinate along one axis: `floor(b / 16)`.
pub open spec fn chunk_axis(b: int) -> int {
    b / 16
}

/// Integer division by two, rounding toward zero.
pub open spec fn half_toward_zero(s: int) -> int {
    if s >= 0 {
        s / 2
    } else {
        -((-s) / 2)
    }
}

/// A direction in the world.
#[derive(Clone, Copy, Debug, PartialEq, Eq, Structural)]
pub enum WorldDirection {
    North,
    South,
    East,
    West,
    Up,
    Down,
}

impl WorldDirection {
    /// The unit offset of this direction, as `(x, y, z)`.
    pub open spec fn offset(self) -> (int, int, int) {
        match self {
            WorldDirection::North => (0, 0, 1),
            WorldDirection::South => (0, 0, -1),
            WorldDirection::East => (1, 0, 0),
            WorldDirection::West => (-1, 0, 0),
            WorldDirection::Up => (0, 1, 0),
            WorldDirection::Down => (0, -1, 0),
        }
    }

    pub fn as_coordinate(&self) -> (r: MapCoordinate)
        ensures
            (r.x as int, r.y as int, r.z as int) == self.offset(),
    {
        match self {
            WorldDirection::North => MapCoordinate::north(),
            WorldDirection::South => MapCoordinate::south(),
            WorldDirection::East => MapCoordinate::east(),
            WorldDirection::West => MapCoordinate::west(),
            WorldDirection::Up => MapCoordinate::up(),
            WorldDirection::Down => MapCoordinate::down(),
        }
    }
}

/// A global block coordinate.
#[derive(Clone, Copy, Debug, PartialEq, Eq, Structural, Hash)]
pub struct MapCoordinate {
    pub x: i32,
    pub y: i32,
    pub z: i32,
}

/// A global chunk coordinate: chunk `(1, 1, 1)` holds blocks 16 to 31 on each axis.
#[derive(Clone, Copy, Debug, PartialEq, Eq, Structural, Hash)]
pub struct MapChunkCoordinate {
    pub x: i32,
    pub y: i32,
    pub z: i32,
}

/// The chunk that holds a block, axis by axis.
pub open spec fn chunk_of(b: MapCoordinate) -> MapChunkCoordinate {
    MapChunkCoordinate {
        x: chunk_axis(b.x as int) as i32,
        y: chunk_axis(b.y as int) as i32,
        z: chunk_axis(b.z as int) as i32,
    }
}

fn floor_div_chunk(v: i32) -> (r: i32)
    ensures
        r as int == chunk_axis(v as int),
{
    match v.checked_div_euclid(CHUNK_EDGE) {
        Some(q) => q,
        None => 0,
    }
}

impl MapCoordinate {
    pub fn new(x: i32, y: i32, z: i32) -> (r: Self)
        ensures
            r.x == x && r.y == y && r.z == z,
    {
        Self { x, y, z }
    }

    /// The chunk that holds this block.
    pub fn get_chunk(&self) -> (r: MapChunkCoordinate)
        ensures
            r == chunk_of(*self),
    {
        MapChunkCoordinate::new(
            floor_div_chunk(self.x),
            floor_div_chunk(self.y),
            floor_div_chunk(self.z),
        )
    }

    pub fn as_tuple(&self) -> (r: (i32, i32, i32))
        ensures
            r == (self.x, self.y, self.z),
    {
        (self.x, self.y, self.z)
    }

    pub fn from_tuple(tuple: (i32, i32, i32)) -> (r: Self)
        ensures
            r.x == tuple.0 && r.y == tuple.1 && r.z == tuple.2,
    {
        Self { x: tuple.0, y: tuple.1, z: tuple.2 }
    }

    pub fn zero() -> (r: Self)
        ensures
            r.x == 0 && r.y == 0 && r.z == 0,
    {
        Self { x: 0, y: 0, z: 0 }
    }

    pub fn one() -> (r: Self)
        ensures
            r.x == 1 && r.y == 1 && r.z == 1,
    {
        Self { x: 1, y: 1, z: 1 }
    }

    pub fn north() -> (r: Self)
        ensures
            r.x == 0 && r.y == 0 && r.z == 1,
    {
        Self { x: 0, y: 0, z: 1 }
    }

    pub fn south() -> (r: Self)
        ensures
            r.x == 0 && r.y == 0 && r.z == -1,
    {
        Self { x: 0, y: 0, z: -1 }
    }

    pub fn east() -> (r: Self)
        ensures
            r.x == 1 && r.y == 0 && r.z == 0,
    {
        Self { x: 1, y: 0, z: 0 }
    }

    pub fn west() -> (r: Self)
        ensures
            r.x == -1 && r.y == 0 && r.z == 0,
    {
        Self { x: -1, y: 0, z: 0 }
    }

    pub fn up() -> (r: Self)
        ensures
            r.x == 0 && r.y == 1 && r.z == 0,
    {
        Self { x: 0, y: 1, z: 0 }
    }

    pub fn down() -> (r: Self)
        ensures
            r.x == 0 && r.y == -1 && r.z == 0,
    {
        Self { x: 0, y: -1, z: 0 }
    }

    /// Componentwise sum.
    pub fn add(self, rhs: Self) -> (r: Self)
        requires
            i32::MIN <= self.x + rhs.x <= i32::MAX,
            i32::MIN <= self.y + rhs.y <= i32::MAX,
            i32::MIN <= self.z + rhs.z <= i32::MAX,
        ensures
            r.x == self.x + rhs.x && r.y == self.y + rhs.y && r.z == self.z + rhs.z,
    {
        Self { x: self.x + rhs.x, y: self.y + rhs.y, z: self.z + rhs.z }
    }

    /// Componentwise difference.
    pub fn sub(self, rhs: Self) -> (r: Self)
        requires
            i32::MIN <= self.x - rhs.x <= i32::MAX,
            i32::MIN <= self.y - rhs.y <= i32::MAX,
            i32::MIN <= self.z - rhs.z <= i32::MAX,
        ensures
            r.x == self.x - rhs.x && r.y == self.y - rhs.y && r.z == self.z - rhs.z,
    {
        Self { x: self.x - rhs.x, y: self.y - rhs.y, z: self.z - rhs.z }
    }
}

/// Every block coordinate lies in the chunk `floor(b / 16)` on each axis:
/// the chunk's first block is at or below it, and the next chunk's first block is above it.
pub proof fn lemma_chunk_of_is_floor(b: MapCoordinate)
    ensures
        16 * chunk_of(b).x <= b.x < 16 * chunk_of(b).x + 16,
        16 * chunk_of(b).y <= b.y < 16 * chunk_of(b).y + 16,
        16 * chunk_of(b).z <= b.z < 16 * chunk_of(b).z + 16,
{
}

impl MapChunkCoordinate {
    pub fn new(x: i32, y: i32, z: i32) -> (r: Self)
        ensures
            r.x == x && r.y == y && r.z == z,
    {
        Self { x, y, z }
    }

    pub fn as_tuple(&self) -> (r: (i32, i32, i32))
        ensures
            r == (self.x, self.y, self.z),
    {
        (self.x, self.y, self.z)
    }

    pub fn zero() -> (r: Self)
        ensures
            r.x == 0 && r.y == 0 && r.z == 0,
    {
        Self { x: 0, y: 0, z: 0 }
    }

    /// Componentwise sum.
    pub fn add(self, rhs: Self) -> (r: Self)
        requires
            i32::MIN <= self.x + rhs.x <= i32::MAX,
            i32::MIN <= self.y + rhs.y <= i32::MAX,
            i32::MIN <= self.z + rhs.z <= i32::MAX,
        ensures
            r.x == self.x + rhs.x && r.y == self.y + rhs.y && r.z == self.z + rhs.z,
    {
        Self { x: self.x + rhs.x, y: self.y + rhs.y, z: self.z + rhs.z }
    }

    /// Componentwise difference.
    pub fn sub(self, rhs: Self) -> (r: Self)
        requires
            i32::MIN <= self.x - rhs.x <= i32::MAX,
            i32::MIN <= self.y - rhs.y <= i32::MAX,
            i32::MIN <= self.z - rhs.z <= i32::MAX,
        ensures
            r.x == self.x - rhs.x && r.y == self.y - rhs.y && r.z == self.z - rhs.z,
    {
        Self { x: self.x - rhs.x, y: self.y - rhs.y, z: self.z - rhs.z }
    }
}



/// Product of the extents of a box given by its two corners.
pub open spec fn extent_product(x0: int, y0: int, z0: int, x1: int, y1: int, z1: int) -> int {
    (x1 - x0) * (y1 - y0) * (z1 - z0)
}

/// The extents of a box, their partial product and their full product all fit in an `i32`.
pub open spec fn extents_fit(x0: int, y0: int, z0: int, x1: int, y1: int, z1: int) -> bool {
    &&& i32::MIN <= x1 - x0 <= i32::MAX
    &&& i32::MIN <= y1 - y0 <= i32::MAX
    &&& i32::MIN <= z1 - z0 <= i32::MAX
    &&& i32::MIN <= (x1 - x0) * (y1 - y0) <= i32::MAX
    &&& i32::MIN <= extent_product(x0, y0, z0, x1, y1, z1) <= i32::MAX
}

proof fn lemma_extent_product_parts(x0: int, y0: int, z0: int, x1: int, y1: int, z1: int)
    ensures
        extent_product(x0, y0, z0, x1, y1, z1) == ((x1 - x0) * (y1 - y0)) * (z1 - z0),
{
}

/// Whether a box with inclusive corners `lo` and `hi` holds the point `(x, y, z)`.
pub open spec fn box_holds(lo: (int, int, int), hi: (int, int, int), x: int, y: int, z: int) -> bool {
    &&& lo.0 <= x <= hi.0
    &&& lo.1 <= y <= hi.1
    &&& lo.2 <= z <= hi.2
}

/// A block-space volume, with inclusive corners `min` and `max`.
#[derive(Clone, Copy, Debug, PartialEq, Eq, Structural)]
pub struct MapArea {
    pub min: MapCoordinate,
    pub max: MapCoordinate,
}

impl MapArea {
    pub open spec fn lo(self) -> (int, int, int) {
        (self.min.x as int, self.min.y as int, self.min.z as int)
    }

    pub open spec fn hi(self) -> (int, int, int) {
        (self.max.x as int, self.max.y as int, self.max.z as int)
    }

    /// The chunks that hold the two corners of this volume.
    pub open spec fn chunk_lo(self) -> (int, int, int) {
        (chunk_axis(self.min.x as int), chunk_axis(self.min.y as int), chunk_axis(self.min.z as int))
    }

    pub open spec fn chunk_hi(self) -> (int, int, int) {
        (chunk_axis(self.max.x as int), chunk_axis(self.max.y as int), chunk_axis(self.max.z as int))
    }

    pub fn new(min: MapCoordinate, max: MapCoordinate) -> (r: Self)
        ensures
            r.min == min && r.max == max,
    {
        Self { min, max }
    }

    pub fn contains(&self, coord: MapCoordinate) -> (r: bool)
        ensures
            r == box_holds(self.lo(), self.hi(), coord.x as int, coord.y as int, coord.z as int),
    {
        coord.x >= self.min.x && coord.x <= self.max.x && coord.y >= self.min.y && coord.y
            <= self.max.y && coord.z >= self.min.z && coord.z <= self.max.z
    }

    /// Whether a chunk lies between the chunks of the two corners.
    pub fn contains_chunk(&self, coord: MapChunkCoordinate) -> (r: bool)
        ensures
            r == box_holds(self.chunk_lo(), self.chunk_hi(), coord.x as int, coord.y as int, coord.z as int),
    {
        let lo = self.min.get_chunk();
        let hi = self.max.get_chunk();
        coord.x >= lo.x && coord.x <= hi.x && coord.y >= lo.y && coord.y <= hi.y && coord.z >= lo.z
            && coord.z <= hi.z
    }

    /// The midpoint of the two corners on each axis, rounded toward zero.
    pub fn center(&self) -> (r: MapCoordinate)
        ensures
            r.x == half_toward_zero(self.min.x + self.max.x),
            r.y == half_toward_zero(self.min.y + self.max.y),
            r.z == half_toward_zero(self.min.z + self.max.z),
    {
        MapCoordinate::new(
            midpoint(self.min.x, self.max.x),
            midpoint(self.min.y, self.max.y),
            midpoint(self.min.z, self.max.z),
        )
    }

    pub fn left(&self) -> (r: MapCoordinate)
        ensures
            r.x == self.min.x && r.y == self.min.y && r.z == self.min.z,
    {
        MapCoordinate::new(self.min.x, self.min.y, self.min.z)
    }

    pub fn right(&self) -> (r: MapCoordinate)
        ensures
            r.x == self.max.x && r.y == self.max.y && r.z == self.max.z,
    {
        MapCoordinate::new(self.max.x, self.max.y, self.max.z)
    }

    pub fn top(&self) -> (r: MapCoordinate)
        ensures
            r.x == self.min.x && r.y == self.max.y && r.z == self.min.z,
    {
        MapCoordinate::new(self.min.x, self.max.y, self.min.z)
    }

    pub fn bottom(&self) -> (r: MapCoordinate)
        ensures
            r.x == self.max.x && r.y == self.min.y && r.z == self.max.z,
    {
        MapCoordinate::new(self.max.x, self.min.y, self.max.z)
    }

    pub fn front(&self) -> (r: MapCoordinate)
        ensures
            r.x == self.min.x && r.y == self.min.y && r.z == self.max.z,
    {
        MapCoordinate::new(self.min.x, self.min.y, self.max.z)
    }

    pub fn back(&self) -> (r: MapCoordinate)
        ensures
            r.x == self.max.x && r.y == self.max.y && r.z == self.min.z,
    {
        MapCoordinate::new(self.max.x, self.max.y, self.min.z)
    }

    pub fn front_left_top(&self) -> (r: MapCoordinate)
        ensures
            r.x == self.min.x && r.y == self.max.y && r.z == self.max.z,
    {
        MapCoordinate::new(self.min.x, self.max.y, self.max.z)
    }

    pub fn front_right_top(&self) -> (r: MapCoordinate)
        ensures
            r.x == self.max.x && r.y == self.max.y && r.z == self.max.z,
    {
        MapCoordinate::new(self.max.x, self.max.y, self.max.z)
    }

    pub fn front_left_bottom(&self) -> (r: MapCoordinate)
        ensures
            r.x == self.min.x && r.y == self.min.y && r.z == self.max.z,
    {
        MapCoordinate::new(self.min.x, self.min.y, self.max.z)
    }

    pub fn front_right_bottom(&self) -> (r: MapCoordinate)
        ensures
            r.x == self.max.x && r.y == self.min.y && r.z == self.max.z,
    {
        MapCoordinate::new(self.max.x, self.min.y, self.max.z)
    }

    pub fn back_left_top(&self) -> (r: MapCoordinate)
        ensures
            r.x == self.min.x && r.y == self.max.y && r.z == self.min.z,
    {
        MapCoordinate::new(self.min.x, self.max.y, self.min.z)
    }

    pub fn back_right_top(&self) -> (r: MapCoordinate)
        ensures
            r.x == self.max.x && r.y == self.max.y && r.z == self.min.z,
    {
        MapCoordinate::new(self.max.x, self.max.y, self.min.z)
    }

    pub fn back_left_bottom(&self) -> (r: MapCoordinate)
        ensures
            r.x == self.min.x && r.y == self.min.y && r.z == self.min.z,
    {
        MapCoordinate::new(self.min.x, self.min.y, self.min.z)
    }

    pub fn back_right_bottom(&self) -> (r: MapCoordinate)
        ensures
            r.x == self.max.x && r.y == self.min.y && r.z == self.min.z,
    {
        MapCoordinate::new(self.max.x, self.min.y, self.min.z)
    }

    /// Product of the extents `max - min` along the three axes.
    pub fn volume(&self) -> (r: i32)
        requires
            extents_fit(self.min.x as int, self.min.y as int, self.min.z as int, self.max.x as int, self.max.y as int, self.max.z as int),
        ensures
            r as int == extent_product(self.min.x as int, self.min.y as int, self.min.z as int, self.max.x as int, self.max.y as int, self.max.z as int),
    {
        let dx = self.max.x - self.min.x;
        let dy = self.max.y - self.min.y;
        let dz = self.max.z - self.min.z;
        proof {
            lemma_extent_product_parts(self.min.x as int, self.min.y as int, self.min.z as int, self.max.x as int, self.max.y as int, self.max.z as int);
        }
        dx * dy * dz
    }

    /// Product of the extents `max - min` along the three axes.
    pub fn chunk_volume(&self) -> (r: i32)
        requires
            extents_fit(self.min.x as int, self.min.y as int, self.min.z as int, self.max.x as int, self.max.y as int, self.max.z as int),
        ensures
            r as int == extent_product(self.min.x as int, self.min.y as int, self.min.z as int, self.max.x as int, self.max.y as int, self.max.z as int),
    {
        let dx = self.max.x - self.min.x;
        let dy = self.max.y - self.min.y;
        let dz = self.max.z - self.min.z;
        proof {
            lemma_extent_product_parts(self.min.x as int, self.min.y as int, self.min.z as int, self.max.x as int, self.max.y as int, self.max.z as int);
        }
        dx * dy * dz
    }

}

/// The midpoint of two values, rounded toward zero.
fn midpoint(a: i32, b: i32) -> (r: i32)
    ensures
        r == half_toward_zero(a + b),
{
    let s: i64 = a as i64 + b as i64;
    if s >= 0 {
        (s / 2) as i32
    } else {
        (-((-s) / 2)) as i32
    }
}

/// A chunk-space volume, with inclusive corners `min` and `max`.
#[derive(Clone, Copy, Debug, PartialEq, Eq, Structural)]
pub struct MapChunkArea {
    pub min: MapChunkCoordinate,
    pub max: MapChunkCoordinate,
}

impl MapChunkArea {
    pub open spec fn lo(self) -> (int, int, int) {
        (self.min.x as int, self.min.y as int, self.min.z as int)
    }

    pub open spec fn hi(self) -> (int, int, int) {
        (self.max.x as int, self.max.y as int, self.max.z as int)
    }

    pub fn new(min: MapChunkCoordinate, max: MapChunkCoordinate) -> (r: Self)
        ensures
            r.min == min && r.max == max,
    {
        Self { min, max }
    }

    pub fn contains(&self, coord: MapChunkCoordinate) -> (r: bool)
        ensures
            r == box_holds(self.lo(), self.hi(), coord.x as int, coord.y as int, coord.z as int),
    {
        coord.x >= self.min.x && coord.x <= self.max.x && coord.y >= self.min.y && coord.y
            <= self.max.y && coord.z >= self.min.z && coord.z <= self.max.z
    }

    /// Whether the chunk range of a block volume lies within this volume on each axis:
    /// its lower corner's chunk is at or above `min` and its upper corner's chunk at
    /// or below `max`.
    pub fn contains_area(&self, area: MapArea) -> (r: bool)
        ensures
            r == (self.min.x <= area.chunk_lo().0 && area.chunk_hi().0 <= self.max.x
                && self.min.y <= area.chunk_lo().1 && area.chunk_hi().1 <= self.max.y
                && self.min.z <= area.chunk_lo().2 && area.chunk_hi().2 <= self.max.z),
    {
        let lo = area.min.get_chunk();
        let hi = area.max.get_chunk();
        lo.x >= self.min.x && hi.x <= self.max.x && lo.y >= self.min.y && hi.y <= self.max.y
            && lo.z >= self.min.z && hi.z <= self.max.z
    }

    /// Whether another chunk volume lies within this one on each axis: its `min` is
    /// at or above this `min` and its `max` at or below this `max`.
    pub fn contains_chunk_area(&self, area: MapChunkArea) -> (r: bool)
        ensures
            r == (self.min.x <= area.min.x && area.max.x <= self.max.x && self.min.y <= area.min.y
                && area.max.y <= self.max.y && self.min.z <= area.min.z && area.max.z <= self.max.z),
    {
        area.min.x >= self.min.x && area.max.x <= self.max.x && area.min.y >= self.min.y
            && area.max.y <= self.max.y && area.min.z >= self.min.z && area.max.z <= self.max.z
    }

    /// The midpoint of the two corners on each axis, rounded toward zero.
    pub fn center(&self) -> (r: MapChunkCoordinate)
        ensures
            r.x == half_toward_zero(self.min.x + self.max.x),
            r.y == half_toward_zero(self.min.y + self.max.y),
            r.z == half_toward_zero(self.min.z + self.max.z),
    {
        MapChunkCoordinate::new(
            midpoint(self.min.x, self.max.x),
            midpoint(self.min.y, self.max.y),
            midpoint(self.min.z, self.max.z),
        )
    }

    pub fn left(&self) -> (r: MapChunkCoordinate)
        ensures
            r.x == self.min.x && r.y == self.min.y && r.z == self.min.z,
    {
        MapChunkCoordinate::new(self.min.x, self.min.y, self.min.z)
    }

    pub fn right(&self) -> (r: MapChunkCoordinate)
        ensures
            r.x == self.max.x && r.y == self.max.y && r.z == self.max.z,
    {
        MapChunkCoordinate::new(self.max.x, self.max.y, self.max.z)
    }

    pub fn top(&self) -> (r: MapChunkCoordinate)
        ensures
            r.x == self.min.x && r.y == self.max.y && r.z == self.min.z,
    {
        MapChunkCoordinate::new(self.min.x, self.max.y, self.min.z)
    }

    pub fn bottom(&self) -> (r: MapChunkCoordinate)
        ensures
            r.x == self.max.x && r.y == self.min.y && r.z == self.max.z,
    {
        MapChunkCoordinate::new(self.max.x, self.min.y, self.max.z)
    }

    pub fn front(&self) -> (r: MapChunkCoordinate)
        ensures
            r.x == self.min.x && r.y == self.min.y && r.z == self.max.z,
    {
        MapChunkCoordinate::new(self.min.x, self.min.y, self.max.z)
    }

    pub fn back(&self) -> (r: MapChunkCoordinate)
        ensures
            r.x == self.max.x && r.y == self.max.y && r.z == self.min.z,
    {
        MapChunkCoordinate::new(self.max.x, self.max.y, self.min.z)
    }

    pub fn front_left_top(&self) -> (r: MapChunkCoordinate)
        ensures
            r.x == self.min.x && r.y == self.max.y && r.z == self.max.z,
    {
        MapChunkCoordinate::new(self.min.x, self.max.y, self.max.z)
    }

    pub fn front_right_top(&self) -> (r: MapChunkCoordinate)
        ensures
            r.x == self.max.x && r.y == self.max.y && r.z == self.max.z,
    {
        MapChunkCoordinate::new(self.max.x, self.max.y, self.max.z)
    }

    pub fn front_left_bottom(&self) -> (r: MapChunkCoordinate)
        ensures
            r.x == self.min.x && r.y == self.min.y && r.z == self.max.z,
    {
        MapChunkCoordinate::new(self.min.x, self.min.y, self.max.z)
    }

    pub fn front_right_bottom(&self) -> (r: MapChunkCoordinate)
        ensures
            r.x == self.max.x && r.y == self.min.y && r.z == self.max.z,
    {
        MapChunkCoordinate::new(self.max.x, self.min.y, self.max.z)
    }

    pub fn back_left_top(&self) -> (r: MapChunkCoordinate)
        ensures
            r.x == self.min.x && r.y == self.max.y && r.z == self.min.z,
    {
        MapChunkCoordinate::new(self.min.x, self.max.y, self.min.z)
    }

    pub fn back_right_top(&self) -> (r: MapChunkCoordinate)
        ensures
            r.x == self.max.x && r.y == self.max.y && r.z == self.min.z,
    {
        MapChunkCoordinate::new(self.max.x, self.max.y, self.min.z)
    }

    pub fn back_left_bottom(&self) -> (r: MapChunkCoordinate)
        ensures
            r.x == self.min.x && r.y == self.min.y && r.z == self.min.z,
    {
        MapChunkCoordinate::new(self.min.x, self.min.y, self.min.z)
    }

    pub fn back_right_bottom(&self) -> (r: MapChunkCoordinate)
        ensures
            r.x == self.max.x && r.y == self.min.y && r.z == self.min.z,
    {
        MapChunkCoordinate::new(self.max.x, self.min.y, self.min.z)
    }

    /// Product of the extents `max - min` along the three axes.
    pub fn volume(&self) -> (r: i32)
        requires
            extents_fit(self.min.x as int, self.min.y as int, self.min.z as int, self.max.x as int, self.max.y as int, self.max.z as int),
        ensures
            r as int == extent_product(self.min.x as int, self.min.y as int, self.min.z as int, self.max.x as int, self.max.y as int, self.max.z as int),
    {
        let dx = self.max.x - self.min.x;
        let dy = self.max.y - self.min.y;
        let dz = self.max.z - self.min.z;
        proof {
            lemma_extent_product_parts(self.min.x as int, self.min.y as int, self.min.z as int, self.max.x as int, self.max.y as int, self.max.z as int);
        }
        dx * dy * dz
    }

    /// Product of the extents `max - min` along the three axes.
    pub fn chunk_volume(&self) -> (r: i32)
        requires
            extents_fit(self.min.x as int, self.min.y as int, self.min.z as int, self.max.x as int, self.max.y as int, self.max.z as int),
        ensures
            r as int == extent_product(self.min.x as int, self.min.y as int, self.min.z as int, self.max.x as int, self.max.y as int, self.max.z as int),
    {
        let dx = self.max.x - self.min.x;
        let dy = self.max.y - self.min.y;
        let dz = self.max.z - self.min.z;
        proof {
            lemma_extent_product_parts(self.min.x as int, self.min.y as int, self.min.z as int, self.max.x as int, self.max.y as int, self.max.z as int);
        }
        dx * dy * dz
    }

}

} // verus!
