//! Bit constants of surface, leaf and content flags.
use vstd::prelude::*;

verus! {

/// Number of light styles, and of lightmaps, of a face.
pub const LIGHTMAP_COUNT: usize = 4;

/// Flags of a texture surface (the `flags` of a `TextureInfo`).
#[derive(Clone, Copy, Debug, PartialEq, Eq, Hash)]
pub struct SurfaceFlags {}

impl SurfaceFlags {
    pub const LIGHT: u16 = 0x0001;
    pub const SKY2D: u16 = 0x0002;
    pub const SKY: u16 = 0x0004;
    pub const WARP: u16 = 0x0008;
    pub const TRANS: u16 = 0x0010;
    pub const NOPORTAL: u16 = 0x0020;
    pub const TRIGGER: u16 = 0x0040;
    pub const NODRAW: u16 = 0x0080;
    pub const HINT: u16 = 0x0100;
    pub const SKIP: u16 = 0x0200;
    pub const NOLIGHT: u16 = 0x0400;
    pub const BUMPLIGHT: u16 = 0x0800;
    pub const NOSHADOWS: u16 = 0x1000;
    pub const NODECALS: u16 = 0x2000;
    pub const NOCHOP: u16 = 0x4000;
    pub const HITBOX: u16 = 0x8000;
}

/// Flags of a leaf, as held by `AreaFlags`.
#[derive(Clone, Copy, Debug, PartialEq, Eq, Hash)]
pub struct LeafFlags {}

impl LeafFlags {
    pub const SKY: u8 = 0x01;
    pub const RADIAL: u8 = 0x02;
    pub const SKY2D: u8 = 0x04;
}

/// Content flags of brushes and leaves.
#[derive(Clone, Copy, Debug, PartialEq, Eq, Hash)]
pub struct Contents {}

impl Contents {
    pub const SOLID: i32 = 0x1;
    pub const WINDOW: i32 = 0x2;
    pub const AUX: i32 = 0x4;
    pub const GRATE: i32 = 0x8;
    pub const SLIME: i32 = 0x10;
    pub const WATER: i32 = 0x20;
    pub const MIST: i32 = 0x40;
    pub const OPAQUE: i32 = 0x80;
    pub const TESTFOGVOLUME: i32 = 0x100;
    pub const TEAM1: i32 = 0x800;
    pub const TEAM2: i32 = 0x1000;
    pub const IGNORE_NODRAW_OPAQUE: i32 = 0x2000;
    pub const MOVEABLE: i32 = 0x4000;
    pub const AREAPORTAL: i32 = 0x8000;
    pub const PLAYERCLIP: i32 = 0x10000;
    pub const MONSTERCLIP: i32 = 0x20000;
    pub const CURRENT_0: i32 = 0x40000;
    pub const CURRENT_90: i32 = 0x80000;
    pub const CURRENT_180: i32 = 0x100000;
    pub const CURRENT_270: i32 = 0x200000;
    pub const CURRENT_UP: i32 = 0x400000;
    pub const CURRENT_DOWN: i32 = 0x800000;
    pub const ORIGIN: i32 = 0x1000000;
    pub const MONSTER: i32 = 0x2000000;
    pub const DEBRIS: i32 = 0x4000000;
    pub const DETAIL: i32 = 0x8000000;
    pub const TRANSLUCENT: i32 = 0x10000000;
    pub const LADDER: i32 = 0x20000000;
    pub const HITBOX: i32 = 0x40000000;
}

/// Contents that block sight.
pub const MASK_OPAQUE: i32 = Contents::SOLID | Contents::MOVEABLE | Contents::OPAQUE;

} // verus!
