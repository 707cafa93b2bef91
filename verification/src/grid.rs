//! Integer grid vectors, entity handles, rotations and part-grid coordinates.

use vstd::prelude::*;

verus! {

/// A two dimensional vector of signed 32-bit integers.
#[derive(Debug, Clone, Copy, PartialEq, Eq, Structural, Hash, Default, PartialOrd, Ord)]
pub struct IVec2 {
    pub x: i32,
    pub y: i32,
}

impl IVec2 {
    /// Constructs a vector from its two components.
    pub fn new(x: i32, y: i32) -> (v: Self)
        ensures
            v.x == x,
            v.y == y,
    {
        IVec2 { x, y }
    }
}

/// A two dimensional vector of unsigned 32-bit integers.
#[derive(Debug, Clone, Copy, PartialEq, Eq, Structural, Hash, Default)]
pub struct UVec2 {
    pub x: u32,
    pub y: u32,
}

impl UVec2 {
    /// Constructs a vector from its two components.
    pub fn new(x: u32, y: u32) -> (v: Self)
        ensures
            v.x == x,
            v.y == y,
    {
        UVec2 { x, y }
    }
}

/// A handle naming one entity of the world.
#[derive(Debug, Clone, Copy, PartialEq, Eq, Structural, Hash, PartialOrd, Ord, Default)]
pub struct Ent(pub u64);

/// One of the four axis-aligned orientations of a part.
#[derive(Debug, Clone, Copy, PartialEq, Eq, Structural, Hash)]
pub enum Rotation {
    East,
    North,
    West,
    South,
}

/// A part grid coordinate. Can represent either the corner of
/// a grid cell, or the grid cell itself.
#[derive(Debug, Clone, Copy, PartialEq, Eq, Structural, Hash, Default, PartialOrd, Ord)]
pub struct PartCoord(pub IVec2);

/// The cell reached from `(x, y)` by one counterclockwise quarter turn
/// about the corner shared by the four cells around the origin.
pub open spec fn rotated_ccw_spec(p: PartCoord) -> PartCoord {
    PartCoord(IVec2 { x: -(p.0.y + 1) as i32, y: p.0.x })
}

impl PartCoord {
    /// Constructs a new PartCoord from an integer vector.
    pub fn new(p: IVec2) -> (c: Self)
        ensures
            c.0 == p,
    {
        PartCoord(p)
    }

    /// The coordinate (0, 0).
    pub fn zero() -> (c: Self)
        ensures
            c.0.x == 0 && c.0.y == 0,
    {
        PartCoord(IVec2 { x: 0, y: 0 })
    }

    /// The coordinate (1, 1).
    pub fn one() -> (c: Self)
        ensures
            c.0.x == 1 && c.0.y == 1,
    {
        PartCoord(IVec2 { x: 1, y: 1 })
    }

    /// Convert this PartCoord into a tuple.
    pub fn to_tuple(&self) -> (t: (i32, i32))
        ensures
            t == (self.0.x, self.0.y),
    {
        (self.0.x, self.0.y)
    }

    /// Gets the inner value of this PartCoord.
    pub fn inner(&self) -> (v: IVec2)
        ensures
            v == self.0,
    {
        self.0
    }

    /// Componentwise sum of two coordinates.
    pub fn plus(&self, rhs: PartCoord) -> (c: PartCoord)
        requires
            i32::MIN <= self.0.x + rhs.0.x <= i32::MAX,
            i32::MIN <= self.0.y + rhs.0.y <= i32::MAX,
        ensures
            c.0.x == self.0.x + rhs.0.x,
            c.0.y == self.0.y + rhs.0.y,
    {
        PartCoord(IVec2 { x: self.0.x + rhs.0.x, y: self.0.y + rhs.0.y })
    }

    /// Componentwise difference of two coordinates.
    pub fn minus(&self, rhs: PartCoord) -> (c: PartCoord)
        requires
            i32::MIN <= self.0.x - rhs.0.x <= i32::MAX,
            i32::MIN <= self.0.y - rhs.0.y <= i32::MAX,
        ensures
            c.0.x == self.0.x - rhs.0.x,
            c.0.y == self.0.y - rhs.0.y,
    {
        PartCoord(IVec2 { x: self.0.x - rhs.0.x, y: self.0.y - rhs.0.y })
    }

    /// Rotate this PartCoord counterclockwise: the cell `(x, y)` goes to
    /// `(-(y + 1), x)`.
    pub fn rotated_ccw(&self) -> (c: Self)
        requires
            self.0.y < i32::MAX,
        ensures
            c == rotated_ccw_spec(*self),
    {
        let vy = self.0.y + 1;
        PartCoord(IVec2 { x: -vy, y: self.0.x })
    }

    /// Remaps this coordinate according to a rotation: the origin corner of a
    /// cell as seen from a part facing `rot`.
    pub fn origin_with(&self, rot: Rotation) -> (c: Self)
        requires
            self.0.x < i32::MAX,
            self.0.y < i32::MAX,
        ensures
            c.0.x == self.0.x + match rot {
                Rotation::East | Rotation::South => 0int,
                Rotation::North | Rotation::West => 1int,
            },
            c.0.y == self.0.y + match rot {
                Rotation::East | Rotation::North => 0int,
                Rotation::West | Rotation::South => 1int,
            },
    {
        match rot {
            Rotation::East => *self,
            Rotation::North => PartCoord(IVec2 { x: self.0.x + 1, y: self.0.y }),
            Rotation::West => PartCoord(IVec2 { x: self.0.x + 1, y: self.0.y + 1 }),
            Rotation::South => PartCoord(IVec2 { x: self.0.x, y: self.0.y + 1 }),
        }
    }
}

/// Four counterclockwise quarter turns bring every cell back to itself.
pub proof fn lemma_rotated_ccw_four_times_is_identity(p: PartCoord)
    requires
        i32::MIN < p.0.x < i32::MAX,
        i32::MIN < p.0.y < i32::MAX,
    ensures
        rotated_ccw_spec(rotated_ccw_spec(rotated_ccw_spec(rotated_ccw_spec(p)))) == p,
{
}

/// A location on a grid: the grid entity and the cell within it.
#[derive(Debug, Clone, Copy, PartialEq, Eq, Structural)]
pub struct GridLocation {
    pub grid_id: Ent,
    pub coord: PartCoord,
}

impl GridLocation {
    /// Constructs a grid location.
    pub fn new(grid_id: Ent, coord: PartCoord) -> (l: Self)
        ensures
            l.grid_id == grid_id,
            l.coord == coord,
    {
        GridLocation { grid_id, coord }
    }
}

} // verus!
