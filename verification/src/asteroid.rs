//! Asteroid surfaces made of square tiles, and level-of-detail sizes.

use vstd::prelude::*;
use vstd::arithmetic::power2::{pow2, lemma_pow2_unfold, lemma_pow2_strictly_increases};
use crate::grid::{Ent, IVec2};
use crate::rng::randint;

verus! {

/// What an asteroid tile is made of.
#[derive(Debug, Clone, Copy, PartialEq, Eq, Structural)]
pub enum TerrainMaterial {
    Dirt,
    Rock,
    Ice,
    Silicon,
    Iron,
    Nickel,
}

/// The material a draw of `n` from `0..6` stands for, one value each.
pub open spec fn material_for_draw(n: int) -> TerrainMaterial {
    if n == 0 {
        TerrainMaterial::Dirt
    } else if n == 1 {
        TerrainMaterial::Rock
    } else if n == 2 {
        TerrainMaterial::Ice
    } else if n == 3 {
        TerrainMaterial::Silicon
    } else if n == 4 {
        TerrainMaterial::Iron
    } else {
        TerrainMaterial::Nickel
    }
}

impl TerrainMaterial {
    /// The material for a draw `n` from `0..6`.
    pub fn from_draw(n: i32) -> (m: Self)
        requires
            0 <= n < 6,
        ensures
            m == material_for_draw(n as int),
    {
        if n == 0 {
            TerrainMaterial::Dirt
        } else if n == 1 {
            TerrainMaterial::Rock
        } else if n == 2 {
            TerrainMaterial::Ice
        } else if n == 3 {
            TerrainMaterial::Silicon
        } else if n == 4 {
            TerrainMaterial::Iron
        } else {
            TerrainMaterial::Nickel
        }
    }

    /// A random material, each equally likely.
    pub fn random() -> (m: Self)
        ensures
            exists|n: int| 0 <= n < 6 && m == material_for_draw(n),
    {
        let n = randint(0, 6);
        Self::from_draw(n)
    }
}

/// One square tile of an asteroid surface.
#[derive(Debug, Clone, Copy)]
pub struct TerrainTile {
    parent: Ent,
    index: IVec2,
    material: TerrainMaterial,
}

/// What an asteroid tile holds, as seen by contracts.
pub struct TileModel {
    pub parent: Ent,
    pub index: IVec2,
    pub material: TerrainMaterial,
}

impl View for TerrainTile {
    type V = TileModel;

    closed spec fn view(&self) -> TileModel {
        TileModel { parent: self.parent, index: self.index, material: self.material }
    }
}

impl TerrainTile {
    /// A tile of a random material at the given index of an asteroid.
    pub fn new(parent: Ent, index: IVec2) -> (t: Self)
        ensures
            t@.parent == parent,
            t@.index == index,
    {
        TerrainTile { parent, index, material: TerrainMaterial::random() }
    }

    /// The asteroid this tile belongs to.
    pub fn parent(&self) -> (p: Ent)
        ensures
            p == self@.parent,
    {
        self.parent
    }

    /// Where this tile lies on its asteroid.
    pub fn index(&self) -> (i: IVec2)
        ensures
            i == self@.index,
    {
        self.index
    }

    /// What this tile is made of.
    pub fn material(&self) -> (m: TerrainMaterial)
        ensures
            m == self@.material,
    {
        self.material
    }
}

/// The side length of a level-of-detail box: `2^lod`.
pub fn lod_to_length(lod: u32) -> (len: i32)
    requires
        lod < 31,
    ensures
        len == pow2(lod as nat),
{
    let mut len: i32 = 1;
    let mut i: u32 = 0;
    assert(pow2(0) == 1) by {
        vstd::arithmetic::power2::lemma2_to64();
    }
    while i < lod
        invariant
            i <= lod < 31,
            len == pow2(i as nat),
        decreases lod - i,
    {
        proof {
            lemma_pow2_unfold((i + 1) as nat);
            lemma_pow2_strictly_increases((i + 1) as nat, 31);
            vstd::arithmetic::power2::lemma2_to64();
        }
        len = len * 2;
        i = i + 1;
    }
    len
}

} // verus!
