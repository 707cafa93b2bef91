//! Parts placed on a grid: a rectangle of cells with an orientation, in
//! one layer.

use vstd::prelude::*;
use crate::grid::{IVec2, PartCoord, Rotation, UVec2};
use crate::part_layer::PartLayer;

verus! {

/// Whether a rotation turns a part on its side, swapping width and height.
pub open spec fn is_quarter_turned(rot: Rotation) -> bool {
    rot == Rotation::North || rot == Rotation::South
}

/// The next orientation counterclockwise: East, North, West, South, East.
pub open spec fn next_rotation(rot: Rotation) -> Rotation {
    match rot {
        Rotation::East => Rotation::North,
        Rotation::North => Rotation::West,
        Rotation::West => Rotation::South,
        Rotation::South => Rotation::East,
    }
}

/// The rectangle of cells a part covers: its bottom left corner, its
/// orientation, and its width and height when facing East.
#[derive(Debug, Clone, Copy, PartialEq, Eq, Structural)]
pub struct GridRegion {
    pub bottom_left: PartCoord,
    pub rot: Rotation,
    pub dims: UVec2,
}

/// The width and height of a region as laid on the grid.
pub open spec fn aligned_dims(r: GridRegion) -> (nat, nat) {
    if is_quarter_turned(r.rot) {
        (r.dims.y as nat, r.dims.x as nat)
    } else {
        (r.dims.x as nat, r.dims.y as nat)
    }
}

/// The region turned a quarter counterclockwise about the grid origin: its
/// new bottom left corner is the image of its old top left corner.
pub open spec fn rotated_region(r: GridRegion) -> GridRegion {
    let top = r.bottom_left.0.y + aligned_dims(r).1;
    GridRegion {
        bottom_left: PartCoord(IVec2 { x: (-top) as i32, y: r.bottom_left.0.x }),
        rot: next_rotation(r.rot),
        dims: r.dims,
    }
}

impl GridRegion {
    /// A region with the given corner, orientation and unrotated size.
    pub fn new(bottom_left: PartCoord, rot: Rotation, dims: UVec2) -> (r: Self)
        ensures
            r == (GridRegion { bottom_left, rot, dims }),
    {
        GridRegion { bottom_left, rot, dims }
    }

    /// The width and height of the region as laid on the grid.
    pub fn grid_aligned_dims(&self) -> (d: PartCoord)
        requires
            self.dims.x <= i32::MAX,
            self.dims.y <= i32::MAX,
        ensures
            d.0.x == aligned_dims(*self).0,
            d.0.y == aligned_dims(*self).1,
    {
        let w = self.dims.x as i32;
        let h = self.dims.y as i32;
        match self.rot {
            Rotation::North | Rotation::South => PartCoord(IVec2 { x: h, y: w }),
            Rotation::East | Rotation::West => PartCoord(IVec2 { x: w, y: h }),
        }
    }

    /// The bottom left corner.
    pub fn bottom_left(&self) -> (p: PartCoord)
        ensures
            p == self.bottom_left,
    {
        self.bottom_left
    }

    /// Moves the region so that its bottom left corner is `p`.
    pub fn set_bottom_left(&mut self, p: PartCoord)
        ensures
            *final(self) == (GridRegion { bottom_left: p, ..*old(self) }),
    {
        self.bottom_left = p;
    }

    /// The orientation.
    pub fn rot(&self) -> (r: Rotation)
        ensures
            r == self.rot,
    {
        self.rot
    }

    /// Turns the region to face `rot`, keeping its bottom left corner.
    pub fn set_rot(&mut self, rot: Rotation)
        ensures
            *final(self) == (GridRegion { rot, ..*old(self) }),
    {
        self.rot = rot;
    }
}

/// A part placed on a grid.
#[derive(Debug, Clone, PartialEq, Eq)]
pub struct PartInstance {
    pub name: String,
    pub layer: PartLayer,
    pub region: GridRegion,
}

impl PartInstance {
    /// A part with the given name, layer and region.
    pub fn new(name: &str, layer: PartLayer, region: GridRegion) -> (p: Self)
        ensures
            p.name@ == name@,
            p.layer == layer,
            p.region == region,
    {
        PartInstance { name: name.to_owned(), layer, region }
    }

    /// The layer this part is in.
    pub fn layer(&self) -> (l: PartLayer)
        ensures
            l == self.layer,
    {
        self.layer
    }

    /// The width and height of the part as laid on the grid, in cells.
    pub fn dims_grid(&self) -> (d: UVec2)
        requires
            self.region.dims.x <= i32::MAX,
            self.region.dims.y <= i32::MAX,
        ensures
            d.x == aligned_dims(self.region).0,
            d.y == aligned_dims(self.region).1,
    {
        let d = self.region.grid_aligned_dims();
        UVec2 { x: d.0.x as u32, y: d.0.y as u32 }
    }

    /// The bottom left corner of the part.
    pub fn origin(&self) -> (p: PartCoord)
        ensures
            p == self.region.bottom_left,
    {
        self.region.bottom_left()
    }

    /// Moves the part so that its bottom left corner is `p`.
    pub fn set_origin(&mut self, p: IVec2)
        ensures
            final(self).name == old(self).name,
            final(self).layer == old(self).layer,
            final(self).region == (GridRegion { bottom_left: PartCoord(p), ..old(self).region }),
    {
        self.region.set_bottom_left(PartCoord::new(p));
    }

    /// A copy of the part moved so that its bottom left corner is `p`.
    pub fn with_origin(&self, p: IVec2) -> (r: Self)
        ensures
            r.name@ == self.name@,
            r.layer == self.layer,
            r.region == (GridRegion { bottom_left: PartCoord(p), ..self.region }),
    {
        let mut ret = PartInstance { name: self.name.clone(), layer: self.layer, region: self.region };
        ret.set_origin(p);
        ret
    }

    /// The orientation of the part.
    pub fn rotation(&self) -> (r: Rotation)
        ensures
            r == self.region.rot,
    {
        self.region.rot()
    }

    /// Turns the part to face `rot`, keeping its bottom left corner.
    pub fn set_rotation(&mut self, rot: Rotation)
        ensures
            final(self).name == old(self).name,
            final(self).layer == old(self).layer,
            final(self).region == (GridRegion { rot, ..old(self).region }),
    {
        self.region.set_rot(rot);
    }

    /// The top left corner of the part.
    pub fn upper_left(&self) -> (p: PartCoord)
        requires
            self.region.dims.x <= i32::MAX,
            self.region.dims.y <= i32::MAX,
            self.region.bottom_left.0.y + aligned_dims(self.region).1 <= i32::MAX,
        ensures
            p.0.x == self.region.bottom_left.0.x,
            p.0.y == self.region.bottom_left.0.y + aligned_dims(self.region).1,
    {
        let dims = self.dims_grid();
        let o = self.origin();
        PartCoord(IVec2 { x: o.0.x, y: o.0.y + dims.y as i32 })
    }

    /// Turns the part a quarter counterclockwise about the grid origin.
    pub fn rotate_ccw(&mut self)
        requires
            old(self).region.dims.x <= i32::MAX,
            old(self).region.dims.y <= i32::MAX,
            i32::MIN < old(self).region.bottom_left.0.y + aligned_dims(old(self).region).1 <= i32::MAX,
        ensures
            final(self).name == old(self).name,
            final(self).layer == old(self).layer,
            final(self).region == rotated_region(old(self).region),
    {
        let upper_left = self.upper_left();
        let new_origin = IVec2 { x: -upper_left.0.y, y: upper_left.0.x };
        let next = match self.rotation() {
            Rotation::East => Rotation::North,
            Rotation::North => Rotation::West,
            Rotation::West => Rotation::South,
            Rotation::South => Rotation::East,
        };
        self.set_rotation(next);
        self.set_origin(new_origin);
    }
}

/// Four quarter turns bring a region back to where it was.
pub proof fn lemma_region_four_rotations_identity(r: GridRegion)
    requires
        r.dims.x <= i32::MAX,
        r.dims.y <= i32::MAX,
        i32::MIN / 2 < r.bottom_left.0.x < i32::MAX / 2,
        i32::MIN / 2 < r.bottom_left.0.y < i32::MAX / 2,
        r.dims.x < i32::MAX / 2,
        r.dims.y < i32::MAX / 2,
    ensures
        rotated_region(rotated_region(rotated_region(rotated_region(r)))) == r,
{
}

/// A quarter turn keeps the size of a region and swaps its width and height
/// as laid on the grid.
pub proof fn lemma_rotation_swaps_aligned_dims(r: GridRegion)
    ensures
        aligned_dims(rotated_region(r)) == (aligned_dims(r).1, aligned_dims(r).0),
{
}

} // verus!
