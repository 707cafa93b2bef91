//! Terrain of asteroids: materials, tile and chunk indices, and tiles.

use vstd::prelude::*;
use std::collections::BTreeMap;
use crate::grid::{Ent, IVec2};
use crate::rng::randint;

verus! {

/// The width of a terrain tile, in pixels.
pub const PIXELS_IN_TERRAIN_TILE: u8 = 20;

/// The number of tiles along each side of a chunk.
pub const TILES_PER_CHUNK_SIDE: u8 = 32;

/// The number of drawing variants of each material.
pub const TERRAIN_VARIANTS: u8 = 8;

/// What a terrain tile is made of.
#[derive(Debug, Clone, Copy, PartialEq, Eq, Structural)]
pub enum TerrainMaterial {
    Rock,
    Dirt,
    Ice,
    Silicon,
    Iron,
}

/// The material a draw of `n` from `0..9` stands for: five of the nine
/// values give rock, one each the other materials.
pub open spec fn material_for_draw(n: int) -> TerrainMaterial {
    if n < 5 {
        TerrainMaterial::Rock
    } else if n == 5 {
        TerrainMaterial::Dirt
    } else if n == 6 {
        TerrainMaterial::Ice
    } else if n == 7 {
        TerrainMaterial::Silicon
    } else {
        TerrainMaterial::Iron
    }
}

impl TerrainMaterial {
    /// The material for a draw `n` from `0..9`.
    pub fn from_draw(n: i32) -> (m: Self)
        requires
            0 <= n < 9,
        ensures
            m == material_for_draw(n as int),
    {
        if n < 5 {
            TerrainMaterial::Rock
        } else if n == 5 {
            TerrainMaterial::Dirt
        } else if n == 6 {
            TerrainMaterial::Ice
        } else if n == 7 {
            TerrainMaterial::Silicon
        } else {
            TerrainMaterial::Iron
        }
    }

    /// A random material: rock five times in nine, each other material
    /// once in nine.
    pub fn random() -> (m: Self)
        ensures
            exists|n: int| 0 <= n < 9 && m == material_for_draw(n),
    {
        let n = randint(0, 9);
        Self::from_draw(n)
    }
}

/// A two dimensional vector of signed 8-bit integers.
#[derive(Debug, Clone, Copy, PartialEq, Eq, Structural, PartialOrd, Ord, Hash)]
pub struct I8Vec2 {
    pub x: i8,
    pub y: i8,
}

/// The index of a tile within its chunk.
#[derive(Debug, Clone, Copy, PartialEq, Eq, Structural, PartialOrd, Ord)]
pub struct LocalTileIndex(pub I8Vec2);

/// The index of a tile within its asteroid.
#[derive(Debug, Clone, Copy, PartialEq, Eq, Structural)]
pub struct GlobalTileIndex(pub IVec2);

/// The index of a chunk within its asteroid.
#[derive(Debug, Clone, Copy, PartialEq, Eq, Structural, PartialOrd, Ord)]
pub struct ChunkIndex(pub IVec2);

/// The index of a tile: its chunk and its place within the chunk.
#[derive(Debug, Clone, Copy, PartialEq, Eq, Structural)]
pub struct TerrainIndex(pub IVec2, pub I8Vec2);

/// A square of tiles of an asteroid.
#[derive(Debug, Clone)]
pub struct TerrainChunk {
    pub parent: Ent,
    pub index: ChunkIndex,
    pub tiles: BTreeMap<LocalTileIndex, Ent>,
    pub visible_count: usize,
}

/// One tile of terrain.
#[derive(Debug, Clone, Copy)]
pub struct TerrainTile {
    parent: Ent,
    material: TerrainMaterial,
    variant: usize,
    light_level: u8,
}

/// What a terrain tile holds, as seen by contracts.
pub struct TileModel {
    pub parent: Ent,
    pub material: TerrainMaterial,
    pub variant: usize,
    pub light_level: u8,
}

impl View for TerrainTile {
    type V = TileModel;

    closed spec fn view(&self) -> TileModel {
        TileModel {
            parent: self.parent,
            material: self.material,
            variant: self.variant,
            light_level: self.light_level,
        }
    }
}

impl TerrainTile {
    /// A dark tile of the given material, drawn with a random variant.
    /// Whether the tile lies on the edge of its asteroid does not change it.
    pub fn new(parent: Ent, material: TerrainMaterial, is_edge: bool) -> (t: Self)
        ensures
            t@.parent == parent,
            t@.material == material,
            t@.variant < TERRAIN_VARIANTS,
            t@.light_level == 0,
    {
        let v = randint(0, TERRAIN_VARIANTS as i32);
        TerrainTile { parent, material, variant: v as usize, light_level: 0 }
    }

    /// The asteroid this tile belongs to.
    pub fn parent(&self) -> (p: Ent)
        ensures
            p == self@.parent,
    {
        self.parent
    }

    /// What this tile is made of.
    pub fn material(&self) -> (m: TerrainMaterial)
        ensures
            m == self@.material,
    {
        self.material
    }

    /// Which drawing variant this tile uses.
    pub fn variant(&self) -> (v: usize)
        ensures
            v == self@.variant,
    {
        self.variant
    }

    /// How brightly this tile is lit; 0 is dark.
    pub fn light_level(&self) -> (l: u8)
        ensures
            l == self@.light_level,
    {
        self.light_level
    }

    /// A tile is visible when it is lit at all.
    pub fn is_visible(&self) -> (b: bool)
        ensures
            b == (self@.light_level > 0),
    {
        self.light_level > 0
    }
}

} // verus!
