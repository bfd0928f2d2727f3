//! Spatial primitives: 3-D integer positions and the zones (fixed-size cubic
//! chunks) they fall into.

use vstd::prelude::*;

verus! {

/// Size of a zone along each axis.
pub const ZONE_SIZE: i32 = 16;

/// How far a scan can see in Chebyshev distance (voxels).
pub const SCAN_RANGE: i32 = 8;

/// How close an agent must be to harvest from an ore source.
pub const HARVEST_RANGE: i32 = 1;

/// Maximum movement radius per action (Chebyshev distance).
pub const MAX_MOVE_RADIUS: i32 = 3;

/// Absolute value of a mathematical integer.
pub open spec fn iabs(v: int) -> int {
    if v < 0 {
        -v
    } else {
        v
    }
}

/// Reduce `v` into the `i32` range by adding or subtracting one full turn of
/// 2^32, for `v` within one turn of the range. This is the value a wrapping
/// 32-bit addition of two `i32` values produces.
pub open spec fn wrap_i32(v: int) -> int {
    if v > i32::MAX {
        v - 0x1_0000_0000
    } else if v < i32::MIN {
        v + 0x1_0000_0000
    } else {
        v
    }
}

/// 32-bit wrapping addition.
pub fn wrap_add_i32(a: i32, b: i32) -> (r: i32)
    ensures
        r as int == wrap_i32(a as int + b as int),
{
    let s: i64 = a as i64 + b as i64;
    let w: i64 = if s > i32::MAX as i64 {
        s - 0x1_0000_0000i64
    } else if s < i32::MIN as i64 {
        s + 0x1_0000_0000i64
    } else {
        s
    };
    w as i32
}

/// A world coordinate. Immutable value type.
#[derive(Clone, Copy, Debug, PartialEq, Eq, Hash, Structural)]
pub struct Position {
    pub x: i32,
    pub y: i32,
    pub z: i32,
}

/// A fixed-size cubic chunk of the coordinate space, used for locality checks.
#[derive(Clone, Copy, Debug, PartialEq, Eq, Hash, Structural)]
pub struct Zone {
    pub x: i32,
    pub y: i32,
    pub z: i32,
}

/// Floor division of a coordinate by the zone size.
pub open spec fn zone_coord(v: int) -> int {
    v / (ZONE_SIZE as int)
}

/// Zone coordinate of `v`: floor division by `ZONE_SIZE`.
pub fn zone_coord_exec(v: i32) -> (r: i32)
    ensures
        r as int == zone_coord(v as int),
{
    let w: i64 = v as i64;
    if w >= 0 {
        let q: i64 = w / 16;
        q as i32
    } else {
        let y: i64 = -w;
        let k: i64 = (y + 15) / 16;
        assert(16 * ((y + 15) / 16) + ((y + 15) % 16) == y + 15);
        assert(-k as int == zone_coord(v as int)) by {
            assert(16 * (v as int / 16) + (v as int % 16) == v as int);
        };
        (-k) as i32
    }
}

impl Position {
    /// Chebyshev proximity: every axis within `range`.
    pub open spec fn spec_within_range(self, other: Position, range: int) -> bool {
        &&& iabs(self.x - other.x) <= range
        &&& iabs(self.y - other.y) <= range
        &&& iabs(self.z - other.z) <= range
    }

    /// The position offset by `(dx, dy, dz)` with 32-bit wrapping.
    pub open spec fn spec_offset(self, dx: int, dy: int, dz: int) -> Position {
        Position {
            x: wrap_i32(self.x + dx) as i32,
            y: wrap_i32(self.y + dy) as i32,
            z: wrap_i32(self.z + dz) as i32,
        }
    }

    /// The zone this position belongs to: floor division of each coordinate.
    pub open spec fn spec_zone(self) -> Zone {
        Zone {
            x: zone_coord(self.x as int) as i32,
            y: zone_coord(self.y as int) as i32,
            z: zone_coord(self.z as int) as i32,
        }
    }

    pub fn origin() -> (r: Self)
        ensures
            r == (Position { x: 0, y: 0, z: 0 }),
    {
        Self { x: 0, y: 0, z: 0 }
    }

    pub fn offset(self, dx: i32, dy: i32, dz: i32) -> (r: Self)
        ensures
            r == self.spec_offset(dx as int, dy as int, dz as int),
    {
        Self {
            x: wrap_add_i32(self.x, dx),
            y: wrap_add_i32(self.y, dy),
            z: wrap_add_i32(self.z, dz),
        }
    }

    pub fn zone(self) -> (r: Zone)
        ensures
            r == self.spec_zone(),
    {
        Zone {
            x: zone_coord_exec(self.x),
            y: zone_coord_exec(self.y),
            z: zone_coord_exec(self.z),
        }
    }

    pub fn within_range(self, other: Position, range: i32) -> (r: bool)
        ensures
            r == self.spec_within_range(other, range as int),
    {
        let dx: i64 = self.x as i64 - other.x as i64;
        let dy: i64 = self.y as i64 - other.y as i64;
        let dz: i64 = self.z as i64 - other.z as i64;
        let ax: i64 = if dx < 0 {
            -dx
        } else {
            dx
        };
        let ay: i64 = if dy < 0 {
            -dy
        } else {
            dy
        };
        let az: i64 = if dz < 0 {
            -dz
        } else {
            dz
        };
        ax <= range as i64 && ay <= range as i64 && az <= range as i64
    }

    /// Manhattan distance to `other`, as a mathematical integer.
    pub open spec fn spec_manhattan(self, other: Position) -> int {
        iabs(self.x - other.x) + iabs(self.y - other.y) + iabs(self.z - other.z)
    }

    /// Manhattan distance, computed exactly in 64-bit arithmetic.
    pub fn manhattan(self, other: Position) -> (r: i64)
        ensures
            r as int == self.spec_manhattan(other),
    {
        let dx: i64 = self.x as i64 - other.x as i64;
        let dy: i64 = self.y as i64 - other.y as i64;
        let dz: i64 = self.z as i64 - other.z as i64;
        let ax: i64 = if dx < 0 {
            -dx
        } else {
            dx
        };
        let ay: i64 = if dy < 0 {
            -dy
        } else {
            dy
        };
        let az: i64 = if dz < 0 {
            -dz
        } else {
            dz
        };
        ax + ay + az
    }
}

} // verus!
