//! The grid of regions and the boxes that regions occupy.
//!
//! The world is cut into equally sized cells. A cell is named by three
//! signed indices; each cell is owned by at most one server at a time.
//!
//! Positions in the world are double-precision numbers, which this library
//! does not compute with. What it decides about positions depends on their
//! order alone, so a coordinate is held here as its *rank*: an integer that
//! orders exactly as the coordinates do. In the 64-bit pattern of a number
//! the top bit is the sign and the other 63 bits, read as an integer, grow
//! with the magnitude. The rank of a number is that integer, negated where
//! the sign bit is set; both zeros have rank zero. A pattern above that of
//! infinity is no number and has no rank.

use vstd::prelude::*;
use crate::decimal;

verus! {

/// Name of the environment setting that holds the x index of a server's
/// region.
pub const REGION_X_SETTING: &'static str = "HORIZON_REGION_X";

/// Name of the setting that holds the y index.
pub const REGION_Y_SETTING: &'static str = "HORIZON_REGION_Y";

/// Name of the setting that holds the z index.
pub const REGION_Z_SETTING: &'static str = "HORIZON_REGION_Z";

/// The index that a setting gives: the number it spells, and zero where the
/// setting is absent or is no numeral.
pub open spec fn setting_index(setting: Option<&str>) -> i64 {
    match setting {
        Some(text) => match decimal::value(text@) {
            Some(number) => number,
            None => 0,
        },
        None => 0,
    }
}

/// Reads one index from its setting.
fn index_from_setting(setting: Option<&str>) -> (index: i64)
    ensures
        index == setting_index(setting),
{
    match setting {
        Some(text) => match decimal::parse(text) {
            Ok(number) => number,
            Err(_) => 0,
        },
        None => 0,
    }
}

/// Index of one cell of the region grid.
#[derive(Debug, Clone, Copy, PartialEq, Eq, Hash, Structural)]
pub struct RegionCoordinate {
    pub x: i64,
    pub y: i64,
    pub z: i64,
}

/// Distance between two integers.
pub open spec fn abs_diff(a: int, b: int) -> int {
    if a >= b {
        a - b
    } else {
        b - a
    }
}

impl RegionCoordinate {
    /// Manhattan distance between two cells, as a mathematical integer.
    pub open spec fn manhattan(self, other: RegionCoordinate) -> int {
        abs_diff(self.x as int, other.x as int) + abs_diff(self.y as int, other.y as int)
            + abs_diff(self.z as int, other.z as int)
    }

    /// Whether all six neighbours of this cell have indices that fit the
    /// index type.
    pub open spec fn has_all_neighbours(self) -> bool {
        &&& i64::MIN < self.x < i64::MAX
        &&& i64::MIN < self.y < i64::MAX
        &&& i64::MIN < self.z < i64::MAX
    }

    /// The six cells that share a face with this one, in the order
    /// +x, -x, +y, -y, +z, -z.
    pub open spec fn neighbours(self) -> Seq<RegionCoordinate>
        recommends
            self.has_all_neighbours(),
    {
        seq![
            RegionCoordinate { x: (self.x + 1) as i64, y: self.y, z: self.z },
            RegionCoordinate { x: (self.x - 1) as i64, y: self.y, z: self.z },
            RegionCoordinate { x: self.x, y: (self.y + 1) as i64, z: self.z },
            RegionCoordinate { x: self.x, y: (self.y - 1) as i64, z: self.z },
            RegionCoordinate { x: self.x, y: self.y, z: (self.z + 1) as i64 },
            RegionCoordinate { x: self.x, y: self.y, z: (self.z - 1) as i64 },
        ]
    }

    /// Creates the coordinate of the cell `(x, y, z)`.
    pub fn new(x: i64, y: i64, z: i64) -> (r: Self)
        ensures
            r.x == x,
            r.y == y,
            r.z == z,
    {
        Self { x, y, z }
    }

    /// The cell at the origin of the grid.
    pub fn center() -> (r: Self)
        ensures
            r.x == 0,
            r.y == 0,
            r.z == 0,
    {
        Self::new(0, 0, 0)
    }

    /// The cell that the three region settings name. A setting that is
    /// absent, or whose value is no numeral, counts as zero.
    pub fn from_env_values(x: Option<&str>, y: Option<&str>, z: Option<&str>) -> (r: Self)
        ensures
            r.x == setting_index(x),
            r.y == setting_index(y),
            r.z == setting_index(z),
    {
        Self { x: index_from_setting(x), y: index_from_setting(y), z: index_from_setting(z) }
    }

    /// Manhattan distance to another cell.
    ///
    /// The distance has to fit the index type.
    pub fn manhattan_distance(&self, other: &RegionCoordinate) -> (d: i64)
        requires
            self.manhattan(*other) <= i64::MAX,
        ensures
            d == self.manhattan(*other),
    {
        let dx: i64 = if self.x >= other.x { self.x - other.x } else { other.x - self.x };
        let dy: i64 = if self.y >= other.y { self.y - other.y } else { other.y - self.y };
        let dz: i64 = if self.z >= other.z { self.z - other.z } else { other.z - self.z };
        dx + dy + dz
    }

    /// The six face-adjacent cells. Diagonal cells are not adjacent.
    pub fn adjacent_regions(&self) -> (cells: Vec<RegionCoordinate>)
        requires
            self.has_all_neighbours(),
        ensures
            cells@ == self.neighbours(),
    {
        let mut cells: Vec<RegionCoordinate> = Vec::new();
        cells.push(RegionCoordinate::new(self.x + 1, self.y, self.z));
        cells.push(RegionCoordinate::new(self.x - 1, self.y, self.z));
        cells.push(RegionCoordinate::new(self.x, self.y + 1, self.z));
        cells.push(RegionCoordinate::new(self.x, self.y - 1, self.z));
        cells.push(RegionCoordinate::new(self.x, self.y, self.z + 1));
        cells.push(RegionCoordinate::new(self.x, self.y, self.z - 1));
        assert(cells@ =~= self.neighbours());
        cells
    }
}

impl Default for RegionCoordinate {
    /// The origin cell.
    fn default() -> (r: Self)
        ensures
            r == (RegionCoordinate { x: 0, y: 0, z: 0 }),
    {
        RegionCoordinate { x: 0, y: 0, z: 0 }
    }
}

/// Adjacency law: a cell has exactly six neighbours, each at Manhattan
/// distance one, none of them the cell itself and no two of them equal; and
/// every cell at Manhattan distance one is among them.
pub proof fn lemma_adjacent_regions(r: RegionCoordinate)
    requires
        r.has_all_neighbours(),
    ensures
        r.neighbours().len() == 6,
        forall|i: int| 0 <= i < 6 ==> (#[trigger] r.neighbours()[i]).manhattan(r) == 1,
        forall|i: int| 0 <= i < 6 ==> r.manhattan(#[trigger] r.neighbours()[i]) == 1,
        forall|i: int| 0 <= i < 6 ==> #[trigger] r.neighbours()[i] != r,
        forall|i: int, j: int|
            0 <= i < j < 6 ==> #[trigger] r.neighbours()[i] != #[trigger] r.neighbours()[j],
        forall|c: RegionCoordinate| r.manhattan(c) == 1 <==> r.neighbours().contains(c),
{
    let n = r.neighbours();
    assert forall|c: RegionCoordinate| r.manhattan(c) == 1 implies n.contains(c) by {
        if c.x == r.x + 1 {
            assert(n[0] == c);
        } else if c.x == r.x - 1 {
            assert(n[1] == c);
        } else if c.y == r.y + 1 {
            assert(n[2] == c);
        } else if c.y == r.y - 1 {
            assert(n[3] == c);
        } else if c.z == r.z + 1 {
            assert(n[4] == c);
        } else {
            assert(n[5] == c);
        }
    }
}

/// The sign bit of a 64-bit pattern.
pub const SIGN_BIT: u64 = 0x8000_0000_0000_0000;

/// The magnitude bits of infinity, the largest magnitude that is a number.
pub const INFINITY_MAGNITUDE: u64 = 0x7FF0_0000_0000_0000;

/// The rank of the number with the given bit pattern, where the pattern is
/// a number.
pub open spec fn rank_of(bits: u64) -> Option<i64> {
    let negative = bits >= SIGN_BIT;
    let magnitude: int = if negative {
        bits - SIGN_BIT
    } else {
        bits as int
    };
    if magnitude > INFINITY_MAGNITUDE {
        None
    } else if negative {
        Some((-magnitude) as i64)
    } else {
        Some(magnitude as i64)
    }
}

/// Computes the rank of the number with the given bit pattern.
pub fn rank(bits: u64) -> (r: Option<i64>)
    ensures
        r == rank_of(bits),
{
    let negative: bool = bits >= SIGN_BIT;
    let magnitude: u64 = if negative {
        bits - SIGN_BIT
    } else {
        bits
    };
    if magnitude > INFINITY_MAGNITUDE {
        None
    } else if negative {
        Some(-(magnitude as i64))
    } else {
        Some(magnitude as i64)
    }
}

/// The bit pattern of the number with the given rank; of the two zeros,
/// the positive one. Nothing where the integer is the rank of no number.
pub open spec fn bits_of(rank: i64) -> Option<u64> {
    if rank < -(INFINITY_MAGNITUDE as int) || rank > INFINITY_MAGNITUDE {
        None
    } else if rank < 0 {
        Some((SIGN_BIT - rank) as u64)
    } else {
        Some(rank as u64)
    }
}

/// Computes the bit pattern of the number with the given rank.
pub fn bits(rank: i64) -> (r: Option<u64>)
    ensures
        r == bits_of(rank),
{
    if rank < -(INFINITY_MAGNITUDE as i64) || rank > INFINITY_MAGNITUDE as i64 {
        None
    } else if rank < 0 {
        Some(SIGN_BIT + ((-rank) as u64))
    } else {
        Some(rank as u64)
    }
}

/// Rank and bit pattern determine each other: the pattern of a rank has
/// that rank, and the rank of a pattern leads back to the pattern, but for
/// the negative zero, which comes back as the positive one.
pub proof fn lemma_rank_round_trip(rank: i64, pattern: u64)
    ensures
        bits_of(rank) matches Some(b) ==> rank_of(b) == Some(rank),
        rank_of(pattern) matches Some(r) ==> bits_of(r) == Some(
            if pattern == SIGN_BIT {
                0u64
            } else {
                pattern
            },
        ),
        bits_of(rank) is Some <==> -(INFINITY_MAGNITUDE as int) <= rank <= INFINITY_MAGNITUDE,
{
}

/// What holds of ranks: flipping the sign bit negates the rank, both zeros
/// have rank zero, a rank lies between those of the two infinities, and
/// two patterns with the same rank are the same pattern or the two zeros.
pub proof fn lemma_rank(a: u64, b: u64)
    ensures
        rank_of(0) == Some(0i64),
        rank_of(SIGN_BIT) == Some(0i64),
        a < SIGN_BIT ==> (rank_of(a) matches Some(r) ==> rank_of((a + SIGN_BIT) as u64) == Some(
            (-r) as i64,
        )),
        rank_of(a) matches Some(r) ==> -(INFINITY_MAGNITUDE as int) <= r <= INFINITY_MAGNITUDE,
        rank_of(a) is Some && rank_of(a) == rank_of(b) ==> a == b || (rank_of(a) == Some(0i64) && (
        a == 0 || a == SIGN_BIT) && (b == 0 || b == SIGN_BIT)),
{
}

/// Rank of the number one thousand, the half-extent of the default box.
pub const DEFAULT_HALF_EXTENT: i64 = 0x408F_4000_0000_0000;

/// A position in the world, each coordinate given by its rank.
#[derive(Debug, Clone, Copy, PartialEq, Eq, Hash, Structural)]
pub struct WorldCoordinate {
    pub x: i64,
    pub y: i64,
    pub z: i64,
}

impl WorldCoordinate {
    /// The position with the given ranks.
    pub fn new(x: i64, y: i64, z: i64) -> (p: Self)
        ensures
            p.x == x,
            p.y == y,
            p.z == z,
    {
        Self { x, y, z }
    }

    /// The position whose coordinates have the given bit patterns; nothing
    /// where one of them is no number.
    pub fn from_bits(x: u64, y: u64, z: u64) -> (p: Option<Self>)
        ensures
            p == match (rank_of(x), rank_of(y), rank_of(z)) {
                (Some(rx), Some(ry), Some(rz)) => Some(WorldCoordinate { x: rx, y: ry, z: rz }),
                _ => None,
            },
    {
        match (rank(x), rank(y), rank(z)) {
            (Some(rx), Some(ry), Some(rz)) => Some(WorldCoordinate { x: rx, y: ry, z: rz }),
            _ => None,
        }
    }

    /// The bit patterns of the three coordinates; nothing where one of them
    /// is the rank of no number.
    pub fn to_bits(&self) -> (r: Option<(u64, u64, u64)>)
        ensures
            r == match (bits_of(self.x), bits_of(self.y), bits_of(self.z)) {
                (Some(x), Some(y), Some(z)) => Some((x, y, z)),
                _ => None,
            },
    {
        match (bits(self.x), bits(self.y), bits(self.z)) {
            (Some(x), Some(y), Some(z)) => Some((x, y, z)),
            _ => None,
        }
    }

    /// The origin.
    pub fn zero() -> (p: Self)
        ensures
            p.x == 0,
            p.y == 0,
            p.z == 0,
    {
        Self::new(0, 0, 0)
    }
}

impl Default for WorldCoordinate {
    /// The origin.
    fn default() -> (p: Self)
        ensures
            p == (WorldCoordinate { x: 0, y: 0, z: 0 }),
    {
        WorldCoordinate { x: 0, y: 0, z: 0 }
    }
}

/// The axis-aligned box that a region occupies, each face given by the
/// rank of its coordinate.
#[derive(Debug, Clone, Copy, PartialEq, Eq, Structural)]
pub struct RegionBounds {
    /// Western face.
    pub min_x: i64,
    /// Eastern face.
    pub max_x: i64,
    /// Bottom face.
    pub min_y: i64,
    /// Top face.
    pub max_y: i64,
    /// Southern face.
    pub min_z: i64,
    /// Northern face.
    pub max_z: i64,
}

impl RegionBounds {
    /// On every axis the lower face does not lie above the upper one.
    pub open spec fn well_formed(self) -> bool {
        &&& self.min_x <= self.max_x
        &&& self.min_y <= self.max_y
        &&& self.min_z <= self.max_z
    }

    /// The position lies in the box. The six faces belong to the box.
    pub open spec fn holds(self, p: WorldCoordinate) -> bool {
        &&& self.min_x <= p.x <= self.max_x
        &&& self.min_y <= p.y <= self.max_y
        &&& self.min_z <= p.z <= self.max_z
    }

    /// On every axis the two boxes' ranges meet. Ranges that only touch
    /// meet.
    pub open spec fn meets(self, other: RegionBounds) -> bool {
        &&& self.min_x <= other.max_x && self.max_x >= other.min_x
        &&& self.min_y <= other.max_y && self.max_y >= other.min_y
        &&& self.min_z <= other.max_z && self.max_z >= other.min_z
    }

    /// `other` lies against the eastern face of `self`: it begins where
    /// `self` ends on the x axis and has the same extent on the other two.
    pub open spec fn shares_eastern_face_with(self, other: RegionBounds) -> bool {
        &&& other.min_x == self.max_x
        &&& other.min_y == self.min_y
        &&& other.max_y == self.max_y
        &&& other.min_z == self.min_z
        &&& other.max_z == self.max_z
    }

    /// The box with the given faces. The faces are taken as they are; see
    /// [`RegionBounds::is_valid`].
    pub fn new(min_x: i64, max_x: i64, min_y: i64, max_y: i64, min_z: i64, max_z: i64) -> (b: Self)
        ensures
            b == (RegionBounds { min_x, max_x, min_y, max_y, min_z, max_z }),
    {
        Self { min_x, max_x, min_y, max_y, min_z, max_z }
    }

    /// The box whose faces have the given bit patterns; nothing where one
    /// of them is no number.
    pub fn from_bits(min_x: u64, max_x: u64, min_y: u64, max_y: u64, min_z: u64, max_z: u64) -> (b:
        Option<Self>)
        ensures
            b == match (
                rank_of(min_x),
                rank_of(max_x),
                rank_of(min_y),
                rank_of(max_y),
                rank_of(min_z),
                rank_of(max_z),
            ) {
                (Some(x0), Some(x1), Some(y0), Some(y1), Some(z0), Some(z1)) => Some(
                    RegionBounds {
                        min_x: x0,
                        max_x: x1,
                        min_y: y0,
                        max_y: y1,
                        min_z: z0,
                        max_z: z1,
                    },
                ),
                _ => None,
            },
    {
        match (rank(min_x), rank(max_x), rank(min_y), rank(max_y), rank(min_z), rank(max_z)) {
            (Some(x0), Some(x1), Some(y0), Some(y1), Some(z0), Some(z1)) => Some(
                RegionBounds { min_x: x0, max_x: x1, min_y: y0, max_y: y1, min_z: z0, max_z: z1 },
            ),
            _ => None,
        }
    }

    /// Whether the box is well formed: no lower face above its upper one.
    pub fn is_valid(&self) -> (b: bool)
        ensures
            b == self.well_formed(),
    {
        self.min_x <= self.max_x && self.min_y <= self.max_y && self.min_z <= self.max_z
    }

    /// Whether a position lies in the box. A position on a face lies in
    /// the box, so a position on a face that two boxes share lies in both.
    pub fn contains(&self, coord: &WorldCoordinate) -> (b: bool)
        ensures
            b == self.holds(*coord),
    {
        coord.x >= self.min_x && coord.x <= self.max_x && coord.y >= self.min_y && coord.y
            <= self.max_y && coord.z >= self.min_z && coord.z <= self.max_z
    }

    /// Whether two boxes have a position in common. Boxes that share no
    /// more than a face overlap.
    pub fn overlaps(&self, other: &RegionBounds) -> (b: bool)
        ensures
            b == self.meets(*other),
    {
        self.min_x <= other.max_x && self.max_x >= other.min_x && self.min_y <= other.max_y
            && self.max_y >= other.min_y && self.min_z <= other.max_z && self.max_z
            >= other.min_z
    }
}

impl Default for RegionBounds {
    /// The cube that reaches one thousand from the origin in every
    /// direction.
    fn default() -> (b: Self)
        ensures
            b.min_x == -DEFAULT_HALF_EXTENT,
            b.max_x == DEFAULT_HALF_EXTENT,
            b.min_y == -DEFAULT_HALF_EXTENT,
            b.max_y == DEFAULT_HALF_EXTENT,
            b.min_z == -DEFAULT_HALF_EXTENT,
            b.max_z == DEFAULT_HALF_EXTENT,
            b.well_formed(),
    {
        RegionBounds {
            min_x: -DEFAULT_HALF_EXTENT,
            max_x: DEFAULT_HALF_EXTENT,
            min_y: -DEFAULT_HALF_EXTENT,
            max_y: DEFAULT_HALF_EXTENT,
            min_z: -DEFAULT_HALF_EXTENT,
            max_z: DEFAULT_HALF_EXTENT,
        }
    }
}

/// The overlap test is the intersection test: two well-formed boxes overlap
/// exactly where some position lies in both. The test is symmetric.
pub proof fn lemma_overlap_is_common_position(a: RegionBounds, b: RegionBounds)
    requires
        a.well_formed(),
        b.well_formed(),
    ensures
        a.meets(b) <==> exists|p: WorldCoordinate| a.holds(p) && b.holds(p),
        a.meets(b) == b.meets(a),
{
    if a.meets(b) {
        let p = WorldCoordinate {
            x: if a.min_x >= b.min_x { a.min_x } else { b.min_x },
            y: if a.min_y >= b.min_y { a.min_y } else { b.min_y },
            z: if a.min_z >= b.min_z { a.min_z } else { b.min_z },
        };
        assert(a.holds(p) && b.holds(p));
    }
}

/// Shared face: two well-formed boxes of which one lies against the eastern
/// face of the other overlap, and every position on the shared face lies in
/// both; there is such a position.
pub proof fn lemma_shared_face(a: RegionBounds, b: RegionBounds)
    requires
        a.well_formed(),
        b.well_formed(),
        a.shares_eastern_face_with(b),
    ensures
        a.meets(b),
        b.meets(a),
        forall|p: WorldCoordinate|
            p.x == a.max_x && a.min_y <= p.y <= a.max_y && a.min_z <= p.z <= a.max_z ==> a.holds(
                p,
            ) && b.holds(p),
        a.holds(WorldCoordinate { x: a.max_x, y: a.min_y, z: a.min_z }),
        b.holds(WorldCoordinate { x: a.max_x, y: a.min_y, z: a.min_z }),
{
}

} // verus!
