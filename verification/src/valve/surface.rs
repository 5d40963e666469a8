//! Records of the surface lumps: faces, their textures and lighting.
use vstd::prelude::*;
use crate::valve::record::{
    lemma_record_field_bytes, lemma_record_field_value, law_record_roundtrip, spec_record_from_bytes,
    spec_record_to_bytes, Record,
};
use crate::valve::scalar::{
    field_offset, kinds_of, lemma_field_offset_step, le_u16, le_u32, lemma_kinds_of, u16_le, u32_le, Scalar,
    ScalarKind,
};
use crate::valve::flags::LIGHTMAP_COUNT;
use crate::valve::primitive_count::PrimitiveCount;

verus! {

/// Compressed color format
#[derive(Clone, Copy, Debug, Default)]
pub struct ColorRGBExp32 {
    pub r: u8,
    pub g: u8,
    pub b: u8,
    pub exponent: i8,
}

impl Record for ColorRGBExp32 {
    open spec fn spec_layout() -> Seq<ScalarKind> {
        seq![
            ScalarKind::U8, ScalarKind::U8, ScalarKind::U8, ScalarKind::I8,
        ]
    }

    open spec fn spec_scalars(self) -> Seq<Scalar> {
        seq![
            Scalar::U8(self.r), Scalar::U8(self.g),
            Scalar::U8(self.b), Scalar::I8(self.exponent),
        ]
    }

    open spec fn spec_from_scalars(fs: Seq<Scalar>) -> Self {
        ColorRGBExp32 {
            r: fs[0].spec_u8(),
            g: fs[1].spec_u8(),
            b: fs[2].spec_u8(),
            exponent: fs[3].spec_i8(),
        }
    }

    open spec fn spec_size() -> nat {
        4
    }

    open spec fn spec_offsets() -> Seq<int> {
        seq![
            0, 1, 2, 3, 4,
        ]
    }

    proof fn lemma_layout_len() {
        let ks = Self::spec_layout();
        assert(ks.take(0) =~= Seq::<ScalarKind>::empty());
        lemma_field_offset_step(ks, 0);
        lemma_field_offset_step(ks, 1);
        lemma_field_offset_step(ks, 2);
        lemma_field_offset_step(ks, 3);
        assert(ks.take(4) =~= ks);
        assert forall|i: int| 0 <= i <= 4 implies #[trigger] field_offset(ks, i) == Self::spec_offsets()[i] by {
            assert(i == 0 || i == 1 || i == 2 || i == 3 || i == 4);
        }
    }

    proof fn lemma_scalars(self) {
        lemma_kinds_of(self.spec_scalars());
        assert(kinds_of(self.spec_scalars()) =~= Self::spec_layout());
        let r = Self::spec_from_scalars(self.spec_scalars());
        assert(r == self);
    }

    proof fn lemma_from_scalars(fs: Seq<Scalar>) {
        lemma_kinds_of(fs);
        assert(kinds_of(fs)[0] == ScalarKind::U8);
        assert(kinds_of(fs)[1] == ScalarKind::U8);
        assert(kinds_of(fs)[2] == ScalarKind::U8);
        assert(kinds_of(fs)[3] == ScalarKind::I8);
        assert(Self::spec_from_scalars(fs).spec_scalars() =~= fs);
    }

    fn layout() -> (kinds: Vec<ScalarKind>) {
        vec![
            ScalarKind::U8, ScalarKind::U8, ScalarKind::U8, ScalarKind::I8,
        ]
    }

    fn to_scalars(&self) -> (fs: Vec<Scalar>) {
        vec![
            Scalar::U8(self.r), Scalar::U8(self.g),
            Scalar::U8(self.b), Scalar::I8(self.exponent),
        ]
    }

    fn from_scalars(fs: &[Scalar]) -> (record: Self) {
        proof {
            lemma_kinds_of(fs@);
        }
        ColorRGBExp32 {
            r: fs[0].as_u8(),
            g: fs[1].as_u8(),
            b: fs[2].as_u8(),
            exponent: fs[3].as_i8(),
        }
    }
}

/// In the bytes of a compressed color, every field is stored, little-endian, at its
/// offset in the C layout of the record, and nothing else is stored.
#[verifier::spinoff_prover]
pub proof fn law_color_rgb_exp32_bytes(x: ColorRGBExp32)
    ensures
        spec_record_to_bytes(x).len() == 4,
        spec_record_to_bytes(x).subrange(0, 1) == seq![x.r],
        spec_record_to_bytes(x).subrange(1, 2) == seq![x.g],
        spec_record_to_bytes(x).subrange(2, 3) == seq![x.b],
        spec_record_to_bytes(x).subrange(3, 4) == seq![x.exponent as u8],
{
    law_record_roundtrip(x);
    lemma_record_field_bytes(x, 0);
    lemma_record_field_bytes(x, 1);
    lemma_record_field_bytes(x, 2);
    lemma_record_field_bytes(x, 3);
}

/// Reading a compressed color from bytes of its size, every field is read,
/// little-endian, from its offset in the C layout of the record.
#[verifier::spinoff_prover]
pub proof fn law_color_rgb_exp32_fields(bytes: Seq<u8>)
    requires
        bytes.len() == 4,
    ensures
        ({
            let r = spec_record_from_bytes::<ColorRGBExp32>(bytes);
            &&& r.r == bytes[0]
            &&& r.g == bytes[1]
            &&& r.b == bytes[2]
            &&& r.exponent == bytes[3] as i8
        }),
{
    lemma_record_field_value::<ColorRGBExp32>(bytes, 0);
    lemma_record_field_value::<ColorRGBExp32>(bytes, 1);
    lemma_record_field_value::<ColorRGBExp32>(bytes, 2);
    lemma_record_field_value::<ColorRGBExp32>(bytes, 3);
}

#[derive(Clone, Copy, Debug, Default)]
pub struct Lightmap {
    pub mins: [i32; 2],
    pub maxs: [i32; 2],
}

impl Record for Lightmap {
    open spec fn spec_layout() -> Seq<ScalarKind> {
        seq![
            ScalarKind::I32, ScalarKind::I32, ScalarKind::I32, ScalarKind::I32,
        ]
    }

    open spec fn spec_scalars(self) -> Seq<Scalar> {
        seq![
            Scalar::I32(self.mins[0]), Scalar::I32(self.mins[1]),
            Scalar::I32(self.maxs[0]), Scalar::I32(self.maxs[1]),
        ]
    }

    open spec fn spec_from_scalars(fs: Seq<Scalar>) -> Self {
        Lightmap {
            mins: [fs[0].spec_i32(), fs[1].spec_i32()],
            maxs: [fs[2].spec_i32(), fs[3].spec_i32()],
        }
    }

    open spec fn spec_size() -> nat {
        16
    }

    open spec fn spec_offsets() -> Seq<int> {
        seq![
            0, 4, 8, 12, 16,
        ]
    }

    proof fn lemma_layout_len() {
        let ks = Self::spec_layout();
        assert(ks.take(0) =~= Seq::<ScalarKind>::empty());
        lemma_field_offset_step(ks, 0);
        lemma_field_offset_step(ks, 1);
        lemma_field_offset_step(ks, 2);
        lemma_field_offset_step(ks, 3);
        assert(ks.take(4) =~= ks);
        assert forall|i: int| 0 <= i <= 4 implies #[trigger] field_offset(ks, i) == Self::spec_offsets()[i] by {
            assert(i == 0 || i == 1 || i == 2 || i == 3 || i == 4);
        }
    }

    proof fn lemma_scalars(self) {
        lemma_kinds_of(self.spec_scalars());
        assert(kinds_of(self.spec_scalars()) =~= Self::spec_layout());
        let r = Self::spec_from_scalars(self.spec_scalars());
        assert(r.mins =~= self.mins);
        assert(r.maxs =~= self.maxs);
        assert(r == self);
    }

    proof fn lemma_from_scalars(fs: Seq<Scalar>) {
        lemma_kinds_of(fs);
        assert(kinds_of(fs)[0] == ScalarKind::I32);
        assert(kinds_of(fs)[1] == ScalarKind::I32);
        assert(kinds_of(fs)[2] == ScalarKind::I32);
        assert(kinds_of(fs)[3] == ScalarKind::I32);
        assert(Self::spec_from_scalars(fs).spec_scalars() =~= fs);
    }

    fn layout() -> (kinds: Vec<ScalarKind>) {
        vec![
            ScalarKind::I32, ScalarKind::I32, ScalarKind::I32, ScalarKind::I32,
        ]
    }

    fn to_scalars(&self) -> (fs: Vec<Scalar>) {
        vec![
            Scalar::I32(self.mins[0]), Scalar::I32(self.mins[1]),
            Scalar::I32(self.maxs[0]), Scalar::I32(self.maxs[1]),
        ]
    }

    fn from_scalars(fs: &[Scalar]) -> (record: Self) {
        proof {
            lemma_kinds_of(fs@);
        }
        Lightmap {
            mins: [fs[0].as_i32(), fs[1].as_i32()],
            maxs: [fs[2].as_i32(), fs[3].as_i32()],
        }
    }
}

/// In the bytes of a lightmap extent, every field is stored, little-endian, at its
/// offset in the C layout of the record, and nothing else is stored.
#[verifier::spinoff_prover]
pub proof fn law_lightmap_bytes(x: Lightmap)
    ensures
        spec_record_to_bytes(x).len() == 16,
        spec_record_to_bytes(x).subrange(0, 4) == u32_le(x.mins[0] as u32),
        spec_record_to_bytes(x).subrange(4, 8) == u32_le(x.mins[1] as u32),
        spec_record_to_bytes(x).subrange(8, 12) == u32_le(x.maxs[0] as u32),
        spec_record_to_bytes(x).subrange(12, 16) == u32_le(x.maxs[1] as u32),
{
    law_record_roundtrip(x);
    lemma_record_field_bytes(x, 0);
    lemma_record_field_bytes(x, 1);
    lemma_record_field_bytes(x, 2);
    lemma_record_field_bytes(x, 3);
}

/// Reading a lightmap extent from bytes of its size, every field is read,
/// little-endian, from its offset in the C layout of the record.
#[verifier::spinoff_prover]
pub proof fn law_lightmap_fields(bytes: Seq<u8>)
    requires
        bytes.len() == 16,
    ensures
        ({
            let r = spec_record_from_bytes::<Lightmap>(bytes);
            &&& r.mins[0] == le_u32(bytes.subrange(0, 4)) as i32
            &&& r.mins[1] == le_u32(bytes.subrange(4, 8)) as i32
            &&& r.maxs[0] == le_u32(bytes.subrange(8, 12)) as i32
            &&& r.maxs[1] == le_u32(bytes.subrange(12, 16)) as i32
        }),
{
    lemma_record_field_value::<Lightmap>(bytes, 0);
    lemma_record_field_value::<Lightmap>(bytes, 1);
    lemma_record_field_value::<Lightmap>(bytes, 2);
    lemma_record_field_value::<Lightmap>(bytes, 3);
}

#[derive(Clone, Copy, Default)]
pub struct TextureMapping {
    /// IEEE-754 single-precision bits of each component.
    pub xyz: [u32; 3],
    /// IEEE-754 single-precision bits.
    pub offset: u32,
}

impl Record for TextureMapping {
    open spec fn spec_layout() -> Seq<ScalarKind> {
        seq![
            ScalarKind::U32, ScalarKind::U32, ScalarKind::U32, ScalarKind::U32,
        ]
    }

    open spec fn spec_scalars(self) -> Seq<Scalar> {
        seq![
            Scalar::U32(self.xyz[0]), Scalar::U32(self.xyz[1]),
            Scalar::U32(self.xyz[2]), Scalar::U32(self.offset),
        ]
    }

    open spec fn spec_from_scalars(fs: Seq<Scalar>) -> Self {
        TextureMapping {
            xyz: [fs[0].spec_u32(), fs[1].spec_u32(), fs[2].spec_u32()],
            offset: fs[3].spec_u32(),
        }
    }

    open spec fn spec_size() -> nat {
        16
    }

    open spec fn spec_offsets() -> Seq<int> {
        seq![
            0, 4, 8, 12, 16,
        ]
    }

    proof fn lemma_layout_len() {
        let ks = Self::spec_layout();
        assert(ks.take(0) =~= Seq::<ScalarKind>::empty());
        lemma_field_offset_step(ks, 0);
        lemma_field_offset_step(ks, 1);
        lemma_field_offset_step(ks, 2);
        lemma_field_offset_step(ks, 3);
        assert(ks.take(4) =~= ks);
        assert forall|i: int| 0 <= i <= 4 implies #[trigger] field_offset(ks, i) == Self::spec_offsets()[i] by {
            assert(i == 0 || i == 1 || i == 2 || i == 3 || i == 4);
        }
    }

    proof fn lemma_scalars(self) {
        lemma_kinds_of(self.spec_scalars());
        assert(kinds_of(self.spec_scalars()) =~= Self::spec_layout());
        let r = Self::spec_from_scalars(self.spec_scalars());
        assert(r.xyz =~= self.xyz);
        assert(r == self);
    }

    proof fn lemma_from_scalars(fs: Seq<Scalar>) {
        lemma_kinds_of(fs);
        assert(kinds_of(fs)[0] == ScalarKind::U32);
        assert(kinds_of(fs)[1] == ScalarKind::U32);
        assert(kinds_of(fs)[2] == ScalarKind::U32);
        assert(kinds_of(fs)[3] == ScalarKind::U32);
        assert(Self::spec_from_scalars(fs).spec_scalars() =~= fs);
    }

    fn layout() -> (kinds: Vec<ScalarKind>) {
        vec![
            ScalarKind::U32, ScalarKind::U32, ScalarKind::U32, ScalarKind::U32,
        ]
    }

    fn to_scalars(&self) -> (fs: Vec<Scalar>) {
        vec![
            Scalar::U32(self.xyz[0]), Scalar::U32(self.xyz[1]),
            Scalar::U32(self.xyz[2]), Scalar::U32(self.offset),
        ]
    }

    fn from_scalars(fs: &[Scalar]) -> (record: Self) {
        proof {
            lemma_kinds_of(fs@);
        }
        TextureMapping {
            xyz: [fs[0].as_u32(), fs[1].as_u32(), fs[2].as_u32()],
            offset: fs[3].as_u32(),
        }
    }
}

/// In the bytes of a texture mapping, every field is stored, little-endian, at its
/// offset in the C layout of the record, and nothing else is stored.
#[verifier::spinoff_prover]
pub proof fn law_texture_mapping_bytes(x: TextureMapping)
    ensures
        spec_record_to_bytes(x).len() == 16,
        spec_record_to_bytes(x).subrange(0, 4) == u32_le(x.xyz[0]),
        spec_record_to_bytes(x).subrange(4, 8) == u32_le(x.xyz[1]),
        spec_record_to_bytes(x).subrange(8, 12) == u32_le(x.xyz[2]),
        spec_record_to_bytes(x).subrange(12, 16) == u32_le(x.offset),
{
    law_record_roundtrip(x);
    lemma_record_field_bytes(x, 0);
    lemma_record_field_bytes(x, 1);
    lemma_record_field_bytes(x, 2);
    lemma_record_field_bytes(x, 3);
}

/// Reading a texture mapping from bytes of its size, every field is read,
/// little-endian, from its offset in the C layout of the record.
#[verifier::spinoff_prover]
pub proof fn law_texture_mapping_fields(bytes: Seq<u8>)
    requires
        bytes.len() == 16,
    ensures
        ({
            let r = spec_record_from_bytes::<TextureMapping>(bytes);
            &&& r.xyz[0] == le_u32(bytes.subrange(0, 4))
            &&& r.xyz[1] == le_u32(bytes.subrange(4, 8))
            &&& r.xyz[2] == le_u32(bytes.subrange(8, 12))
            &&& r.offset == le_u32(bytes.subrange(12, 16))
        }),
{
    lemma_record_field_value::<TextureMapping>(bytes, 0);
    lemma_record_field_value::<TextureMapping>(bytes, 1);
    lemma_record_field_value::<TextureMapping>(bytes, 2);
    lemma_record_field_value::<TextureMapping>(bytes, 3);
}

#[derive(Clone, Copy, Default)]
pub struct TextureInfo {
    /// [s/t][xyz offset]
    pub texels: [TextureMapping; 2],
    /// [s/t][xyz offset] - length is in units of texels/area
    pub luxels: [TextureMapping; 2],
    /// Miptex flags + overrides
    pub flags: i32,
    /// Index into texture data lump
    pub texture_data_index: i32,
}

impl Record for TextureInfo {
    open spec fn spec_layout() -> Seq<ScalarKind> {
        seq![
            ScalarKind::U32, ScalarKind::U32, ScalarKind::U32, ScalarKind::U32, ScalarKind::U32, ScalarKind::U32,
            ScalarKind::U32, ScalarKind::U32, ScalarKind::U32, ScalarKind::U32, ScalarKind::U32, ScalarKind::U32,
            ScalarKind::U32, ScalarKind::U32, ScalarKind::U32, ScalarKind::U32, ScalarKind::I32, ScalarKind::I32,
        ]
    }

    open spec fn spec_scalars(self) -> Seq<Scalar> {
        seq![
            Scalar::U32(self.texels[0].xyz[0]), Scalar::U32(self.texels[0].xyz[1]),
            Scalar::U32(self.texels[0].xyz[2]), Scalar::U32(self.texels[0].offset),
            Scalar::U32(self.texels[1].xyz[0]), Scalar::U32(self.texels[1].xyz[1]),
            Scalar::U32(self.texels[1].xyz[2]), Scalar::U32(self.texels[1].offset),
            Scalar::U32(self.luxels[0].xyz[0]), Scalar::U32(self.luxels[0].xyz[1]),
            Scalar::U32(self.luxels[0].xyz[2]), Scalar::U32(self.luxels[0].offset),
            Scalar::U32(self.luxels[1].xyz[0]), Scalar::U32(self.luxels[1].xyz[1]),
            Scalar::U32(self.luxels[1].xyz[2]), Scalar::U32(self.luxels[1].offset),
            Scalar::I32(self.flags), Scalar::I32(self.texture_data_index),
        ]
    }

    open spec fn spec_from_scalars(fs: Seq<Scalar>) -> Self {
        TextureInfo {
            texels: [
                TextureMapping {
                    xyz: [fs[0].spec_u32(), fs[1].spec_u32(), fs[2].spec_u32()],
                    offset: fs[3].spec_u32(),
                },
                TextureMapping {
                    xyz: [fs[4].spec_u32(), fs[5].spec_u32(), fs[6].spec_u32()],
                    offset: fs[7].spec_u32(),
                },
            ],
            luxels: [
                TextureMapping {
                    xyz: [fs[8].spec_u32(), fs[9].spec_u32(), fs[10].spec_u32()],
                    offset: fs[11].spec_u32(),
                },
                TextureMapping {
                    xyz: [fs[12].spec_u32(), fs[13].spec_u32(), fs[14].spec_u32()],
                    offset: fs[15].spec_u32(),
                },
            ],
            flags: fs[16].spec_i32(),
            texture_data_index: fs[17].spec_i32(),
        }
    }

    open spec fn spec_size() -> nat {
        72
    }

    open spec fn spec_offsets() -> Seq<int> {
        seq![
            0, 4, 8, 12, 16, 20, 24, 28, 32, 36, 40, 44,
            48, 52, 56, 60, 64, 68, 72,
        ]
    }

    proof fn lemma_layout_len() {
        let ks = Self::spec_layout();
        assert(ks.take(0) =~= Seq::<ScalarKind>::empty());
        lemma_field_offset_step(ks, 0);
        lemma_field_offset_step(ks, 1);
        lemma_field_offset_step(ks, 2);
        lemma_field_offset_step(ks, 3);
        lemma_field_offset_step(ks, 4);
        lemma_field_offset_step(ks, 5);
        lemma_field_offset_step(ks, 6);
        lemma_field_offset_step(ks, 7);
        lemma_field_offset_step(ks, 8);
        lemma_field_offset_step(ks, 9);
        lemma_field_offset_step(ks, 10);
        lemma_field_offset_step(ks, 11);
        lemma_field_offset_step(ks, 12);
        lemma_field_offset_step(ks, 13);
        lemma_field_offset_step(ks, 14);
        lemma_field_offset_step(ks, 15);
        lemma_field_offset_step(ks, 16);
        lemma_field_offset_step(ks, 17);
        assert(ks.take(18) =~= ks);
        assert forall|i: int| 0 <= i <= 18 implies #[trigger] field_offset(ks, i) == Self::spec_offsets()[i] by {
            assert(i == 0 || i == 1 || i == 2 || i == 3 || i == 4 || i == 5 || i == 6 || i == 7 || i == 8 || i == 9 || i == 10 || i == 11 || i == 12 || i == 13 || i == 14 || i == 15 || i == 16 || i == 17 || i == 18);
        }
    }

    proof fn lemma_scalars(self) {
        lemma_kinds_of(self.spec_scalars());
        assert(kinds_of(self.spec_scalars()) =~= Self::spec_layout());
        let r = Self::spec_from_scalars(self.spec_scalars());
        assert(r.texels[0].xyz =~= self.texels[0].xyz);
        assert(r.texels[0] == self.texels[0]);
        assert(r.texels[1].xyz =~= self.texels[1].xyz);
        assert(r.texels[1] == self.texels[1]);
        assert(r.texels =~= self.texels);
        assert(r.luxels[0].xyz =~= self.luxels[0].xyz);
        assert(r.luxels[0] == self.luxels[0]);
        assert(r.luxels[1].xyz =~= self.luxels[1].xyz);
        assert(r.luxels[1] == self.luxels[1]);
        assert(r.luxels =~= self.luxels);
        assert(r == self);
    }

    proof fn lemma_from_scalars(fs: Seq<Scalar>) {
        lemma_kinds_of(fs);
        assert(kinds_of(fs)[0] == ScalarKind::U32);
        assert(kinds_of(fs)[1] == ScalarKind::U32);
        assert(kinds_of(fs)[2] == ScalarKind::U32);
        assert(kinds_of(fs)[3] == ScalarKind::U32);
        assert(kinds_of(fs)[4] == ScalarKind::U32);
        assert(kinds_of(fs)[5] == ScalarKind::U32);
        assert(kinds_of(fs)[6] == ScalarKind::U32);
        assert(kinds_of(fs)[7] == ScalarKind::U32);
        assert(kinds_of(fs)[8] == ScalarKind::U32);
        assert(kinds_of(fs)[9] == ScalarKind::U32);
        assert(kinds_of(fs)[10] == ScalarKind::U32);
        assert(kinds_of(fs)[11] == ScalarKind::U32);
        assert(kinds_of(fs)[12] == ScalarKind::U32);
        assert(kinds_of(fs)[13] == ScalarKind::U32);
        assert(kinds_of(fs)[14] == ScalarKind::U32);
        assert(kinds_of(fs)[15] == ScalarKind::U32);
        assert(kinds_of(fs)[16] == ScalarKind::I32);
        assert(kinds_of(fs)[17] == ScalarKind::I32);
        assert(Self::spec_from_scalars(fs).spec_scalars() =~= fs);
    }

    fn layout() -> (kinds: Vec<ScalarKind>) {
        vec![
            ScalarKind::U32, ScalarKind::U32, ScalarKind::U32, ScalarKind::U32, ScalarKind::U32, ScalarKind::U32,
            ScalarKind::U32, ScalarKind::U32, ScalarKind::U32, ScalarKind::U32, ScalarKind::U32, ScalarKind::U32,
            ScalarKind::U32, ScalarKind::U32, ScalarKind::U32, ScalarKind::U32, ScalarKind::I32, ScalarKind::I32,
        ]
    }

    fn to_scalars(&self) -> (fs: Vec<Scalar>) {
        vec![
            Scalar::U32(self.texels[0].xyz[0]), Scalar::U32(self.texels[0].xyz[1]),
            Scalar::U32(self.texels[0].xyz[2]), Scalar::U32(self.texels[0].offset),
            Scalar::U32(self.texels[1].xyz[0]), Scalar::U32(self.texels[1].xyz[1]),
            Scalar::U32(self.texels[1].xyz[2]), Scalar::U32(self.texels[1].offset),
            Scalar::U32(self.luxels[0].xyz[0]), Scalar::U32(self.luxels[0].xyz[1]),
            Scalar::U32(self.luxels[0].xyz[2]), Scalar::U32(self.luxels[0].offset),
            Scalar::U32(self.luxels[1].xyz[0]), Scalar::U32(self.luxels[1].xyz[1]),
            Scalar::U32(self.luxels[1].xyz[2]), Scalar::U32(self.luxels[1].offset),
            Scalar::I32(self.flags), Scalar::I32(self.texture_data_index),
        ]
    }

    fn from_scalars(fs: &[Scalar]) -> (record: Self) {
        proof {
            lemma_kinds_of(fs@);
        }
        TextureInfo {
            texels: [
                TextureMapping {
                    xyz: [fs[0].as_u32(), fs[1].as_u32(), fs[2].as_u32()],
                    offset: fs[3].as_u32(),
                },
                TextureMapping {
                    xyz: [fs[4].as_u32(), fs[5].as_u32(), fs[6].as_u32()],
                    offset: fs[7].as_u32(),
                },
            ],
            luxels: [
                TextureMapping {
                    xyz: [fs[8].as_u32(), fs[9].as_u32(), fs[10].as_u32()],
                    offset: fs[11].as_u32(),
                },
                TextureMapping {
                    xyz: [fs[12].as_u32(), fs[13].as_u32(), fs[14].as_u32()],
                    offset: fs[15].as_u32(),
                },
            ],
            flags: fs[16].as_i32(),
            texture_data_index: fs[17].as_i32(),
        }
    }
}

/// In the bytes of a texture info, every field is stored, little-endian, at its
/// offset in the C layout of the record, and nothing else is stored.
#[verifier::spinoff_prover]
pub proof fn law_texture_info_bytes(x: TextureInfo)
    ensures
        spec_record_to_bytes(x).len() == 72,
        spec_record_to_bytes(x).subrange(0, 4) == u32_le(x.texels[0].xyz[0]),
        spec_record_to_bytes(x).subrange(4, 8) == u32_le(x.texels[0].xyz[1]),
        spec_record_to_bytes(x).subrange(8, 12) == u32_le(x.texels[0].xyz[2]),
        spec_record_to_bytes(x).subrange(12, 16) == u32_le(x.texels[0].offset),
        spec_record_to_bytes(x).subrange(16, 20) == u32_le(x.texels[1].xyz[0]),
        spec_record_to_bytes(x).subrange(20, 24) == u32_le(x.texels[1].xyz[1]),
        spec_record_to_bytes(x).subrange(24, 28) == u32_le(x.texels[1].xyz[2]),
        spec_record_to_bytes(x).subrange(28, 32) == u32_le(x.texels[1].offset),
        spec_record_to_bytes(x).subrange(32, 36) == u32_le(x.luxels[0].xyz[0]),
        spec_record_to_bytes(x).subrange(36, 40) == u32_le(x.luxels[0].xyz[1]),
        spec_record_to_bytes(x).subrange(40, 44) == u32_le(x.luxels[0].xyz[2]),
        spec_record_to_bytes(x).subrange(44, 48) == u32_le(x.luxels[0].offset),
        spec_record_to_bytes(x).subrange(48, 52) == u32_le(x.luxels[1].xyz[0]),
        spec_record_to_bytes(x).subrange(52, 56) == u32_le(x.luxels[1].xyz[1]),
        spec_record_to_bytes(x).subrange(56, 60) == u32_le(x.luxels[1].xyz[2]),
        spec_record_to_bytes(x).subrange(60, 64) == u32_le(x.luxels[1].offset),
        spec_record_to_bytes(x).subrange(64, 68) == u32_le(x.flags as u32),
        spec_record_to_bytes(x).subrange(68, 72) == u32_le(x.texture_data_index as u32),
{
    law_record_roundtrip(x);
    lemma_record_field_bytes(x, 0);
    lemma_record_field_bytes(x, 1);
    lemma_record_field_bytes(x, 2);
    lemma_record_field_bytes(x, 3);
    lemma_record_field_bytes(x, 4);
    lemma_record_field_bytes(x, 5);
    lemma_record_field_bytes(x, 6);
    lemma_record_field_bytes(x, 7);
    lemma_record_field_bytes(x, 8);
    lemma_record_field_bytes(x, 9);
    lemma_record_field_bytes(x, 10);
    lemma_record_field_bytes(x, 11);
    lemma_record_field_bytes(x, 12);
    lemma_record_field_bytes(x, 13);
    lemma_record_field_bytes(x, 14);
    lemma_record_field_bytes(x, 15);
    lemma_record_field_bytes(x, 16);
    lemma_record_field_bytes(x, 17);
}

/// Reading a texture info from bytes of its size, every field is read,
/// little-endian, from its offset in the C layout of the record.
#[verifier::spinoff_prover]
pub proof fn law_texture_info_fields(bytes: Seq<u8>)
    requires
        bytes.len() == 72,
    ensures
        ({
            let r = spec_record_from_bytes::<TextureInfo>(bytes);
            &&& r.texels[0].xyz[0] == le_u32(bytes.subrange(0, 4))
            &&& r.texels[0].xyz[1] == le_u32(bytes.subrange(4, 8))
            &&& r.texels[0].xyz[2] == le_u32(bytes.subrange(8, 12))
            &&& r.texels[0].offset == le_u32(bytes.subrange(12, 16))
            &&& r.texels[1].xyz[0] == le_u32(bytes.subrange(16, 20))
            &&& r.texels[1].xyz[1] == le_u32(bytes.subrange(20, 24))
            &&& r.texels[1].xyz[2] == le_u32(bytes.subrange(24, 28))
            &&& r.texels[1].offset == le_u32(bytes.subrange(28, 32))
            &&& r.luxels[0].xyz[0] == le_u32(bytes.subrange(32, 36))
            &&& r.luxels[0].xyz[1] == le_u32(bytes.subrange(36, 40))
            &&& r.luxels[0].xyz[2] == le_u32(bytes.subrange(40, 44))
            &&& r.luxels[0].offset == le_u32(bytes.subrange(44, 48))
            &&& r.luxels[1].xyz[0] == le_u32(bytes.subrange(48, 52))
            &&& r.luxels[1].xyz[1] == le_u32(bytes.subrange(52, 56))
            &&& r.luxels[1].xyz[2] == le_u32(bytes.subrange(56, 60))
            &&& r.luxels[1].offset == le_u32(bytes.subrange(60, 64))
            &&& r.flags == le_u32(bytes.subrange(64, 68)) as i32
            &&& r.texture_data_index == le_u32(bytes.subrange(68, 72)) as i32
        }),
{
    lemma_record_field_value::<TextureInfo>(bytes, 0);
    lemma_record_field_value::<TextureInfo>(bytes, 1);
    lemma_record_field_value::<TextureInfo>(bytes, 2);
    lemma_record_field_value::<TextureInfo>(bytes, 3);
    lemma_record_field_value::<TextureInfo>(bytes, 4);
    lemma_record_field_value::<TextureInfo>(bytes, 5);
    lemma_record_field_value::<TextureInfo>(bytes, 6);
    lemma_record_field_value::<TextureInfo>(bytes, 7);
    lemma_record_field_value::<TextureInfo>(bytes, 8);
    lemma_record_field_value::<TextureInfo>(bytes, 9);
    lemma_record_field_value::<TextureInfo>(bytes, 10);
    lemma_record_field_value::<TextureInfo>(bytes, 11);
    lemma_record_field_value::<TextureInfo>(bytes, 12);
    lemma_record_field_value::<TextureInfo>(bytes, 13);
    lemma_record_field_value::<TextureInfo>(bytes, 14);
    lemma_record_field_value::<TextureInfo>(bytes, 15);
    lemma_record_field_value::<TextureInfo>(bytes, 16);
    lemma_record_field_value::<TextureInfo>(bytes, 17);
}

#[derive(Clone, Copy, Default)]
pub struct TextureData {
    /// IEEE-754 single-precision bits of each component.
    pub reflectivity: [u32; 3],
    pub name_index: i32,
    pub width: i32,
    pub height: i32,
    pub view_width: i32,
    pub view_height: i32,
}

impl Record for TextureData {
    open spec fn spec_layout() -> Seq<ScalarKind> {
        seq![
            ScalarKind::U32, ScalarKind::U32, ScalarKind::U32, ScalarKind::I32, ScalarKind::I32, ScalarKind::I32,
            ScalarKind::I32, ScalarKind::I32,
        ]
    }

    open spec fn spec_scalars(self) -> Seq<Scalar> {
        seq![
            Scalar::U32(self.reflectivity[0]), Scalar::U32(self.reflectivity[1]),
            Scalar::U32(self.reflectivity[2]), Scalar::I32(self.name_index),
            Scalar::I32(self.width), Scalar::I32(self.height),
            Scalar::I32(self.view_width), Scalar::I32(self.view_height),
        ]
    }

    open spec fn spec_from_scalars(fs: Seq<Scalar>) -> Self {
        TextureData {
            reflectivity: [fs[0].spec_u32(), fs[1].spec_u32(), fs[2].spec_u32()],
            name_index: fs[3].spec_i32(),
            width: fs[4].spec_i32(),
            height: fs[5].spec_i32(),
            view_width: fs[6].spec_i32(),
            view_height: fs[7].spec_i32(),
        }
    }

    open spec fn spec_size() -> nat {
        32
    }

    open spec fn spec_offsets() -> Seq<int> {
        seq![
            0, 4, 8, 12, 16, 20, 24, 28, 32,
        ]
    }

    proof fn lemma_layout_len() {
        let ks = Self::spec_layout();
        assert(ks.take(0) =~= Seq::<ScalarKind>::empty());
        lemma_field_offset_step(ks, 0);
        lemma_field_offset_step(ks, 1);
        lemma_field_offset_step(ks, 2);
        lemma_field_offset_step(ks, 3);
        lemma_field_offset_step(ks, 4);
        lemma_field_offset_step(ks, 5);
        lemma_field_offset_step(ks, 6);
        lemma_field_offset_step(ks, 7);
        assert(ks.take(8) =~= ks);
        assert forall|i: int| 0 <= i <= 8 implies #[trigger] field_offset(ks, i) == Self::spec_offsets()[i] by {
            assert(i == 0 || i == 1 || i == 2 || i == 3 || i == 4 || i == 5 || i == 6 || i == 7 || i == 8);
        }
    }

    proof fn lemma_scalars(self) {
        lemma_kinds_of(self.spec_scalars());
        assert(kinds_of(self.spec_scalars()) =~= Self::spec_layout());
        let r = Self::spec_from_scalars(self.spec_scalars());
        assert(r.reflectivity =~= self.reflectivity);
        assert(r == self);
    }

    proof fn lemma_from_scalars(fs: Seq<Scalar>) {
        lemma_kinds_of(fs);
        assert(kinds_of(fs)[0] == ScalarKind::U32);
        assert(kinds_of(fs)[1] == ScalarKind::U32);
        assert(kinds_of(fs)[2] == ScalarKind::U32);
        assert(kinds_of(fs)[3] == ScalarKind::I32);
        assert(kinds_of(fs)[4] == ScalarKind::I32);
        assert(kinds_of(fs)[5] == ScalarKind::I32);
        assert(kinds_of(fs)[6] == ScalarKind::I32);
        assert(kinds_of(fs)[7] == ScalarKind::I32);
        assert(Self::spec_from_scalars(fs).spec_scalars() =~= fs);
    }

    fn layout() -> (kinds: Vec<ScalarKind>) {
        vec![
            ScalarKind::U32, ScalarKind::U32, ScalarKind::U32, ScalarKind::I32, ScalarKind::I32, ScalarKind::I32,
            ScalarKind::I32, ScalarKind::I32,
        ]
    }

    fn to_scalars(&self) -> (fs: Vec<Scalar>) {
        vec![
            Scalar::U32(self.reflectivity[0]), Scalar::U32(self.reflectivity[1]),
            Scalar::U32(self.reflectivity[2]), Scalar::I32(self.name_index),
            Scalar::I32(self.width), Scalar::I32(self.height),
            Scalar::I32(self.view_width), Scalar::I32(self.view_height),
        ]
    }

    fn from_scalars(fs: &[Scalar]) -> (record: Self) {
        proof {
            lemma_kinds_of(fs@);
        }
        TextureData {
            reflectivity: [fs[0].as_u32(), fs[1].as_u32(), fs[2].as_u32()],
            name_index: fs[3].as_i32(),
            width: fs[4].as_i32(),
            height: fs[5].as_i32(),
            view_width: fs[6].as_i32(),
            view_height: fs[7].as_i32(),
        }
    }
}

/// In the bytes of a texture data record, every field is stored, little-endian, at its
/// offset in the C layout of the record, and nothing else is stored.
#[verifier::spinoff_prover]
pub proof fn law_texture_data_bytes(x: TextureData)
    ensures
        spec_record_to_bytes(x).len() == 32,
        spec_record_to_bytes(x).subrange(0, 4) == u32_le(x.reflectivity[0]),
        spec_record_to_bytes(x).subrange(4, 8) == u32_le(x.reflectivity[1]),
        spec_record_to_bytes(x).subrange(8, 12) == u32_le(x.reflectivity[2]),
        spec_record_to_bytes(x).subrange(12, 16) == u32_le(x.name_index as u32),
        spec_record_to_bytes(x).subrange(16, 20) == u32_le(x.width as u32),
        spec_record_to_bytes(x).subrange(20, 24) == u32_le(x.height as u32),
        spec_record_to_bytes(x).subrange(24, 28) == u32_le(x.view_width as u32),
        spec_record_to_bytes(x).subrange(28, 32) == u32_le(x.view_height as u32),
{
    law_record_roundtrip(x);
    lemma_record_field_bytes(x, 0);
    lemma_record_field_bytes(x, 1);
    lemma_record_field_bytes(x, 2);
    lemma_record_field_bytes(x, 3);
    lemma_record_field_bytes(x, 4);
    lemma_record_field_bytes(x, 5);
    lemma_record_field_bytes(x, 6);
    lemma_record_field_bytes(x, 7);
}

/// Reading a texture data record from bytes of its size, every field is read,
/// little-endian, from its offset in the C layout of the record.
#[verifier::spinoff_prover]
pub proof fn law_texture_data_fields(bytes: Seq<u8>)
    requires
        bytes.len() == 32,
    ensures
        ({
            let r = spec_record_from_bytes::<TextureData>(bytes);
            &&& r.reflectivity[0] == le_u32(bytes.subrange(0, 4))
            &&& r.reflectivity[1] == le_u32(bytes.subrange(4, 8))
            &&& r.reflectivity[2] == le_u32(bytes.subrange(8, 12))
            &&& r.name_index == le_u32(bytes.subrange(12, 16)) as i32
            &&& r.width == le_u32(bytes.subrange(16, 20)) as i32
            &&& r.height == le_u32(bytes.subrange(20, 24)) as i32
            &&& r.view_width == le_u32(bytes.subrange(24, 28)) as i32
            &&& r.view_height == le_u32(bytes.subrange(28, 32)) as i32
        }),
{
    lemma_record_field_value::<TextureData>(bytes, 0);
    lemma_record_field_value::<TextureData>(bytes, 1);
    lemma_record_field_value::<TextureData>(bytes, 2);
    lemma_record_field_value::<TextureData>(bytes, 3);
    lemma_record_field_value::<TextureData>(bytes, 4);
    lemma_record_field_value::<TextureData>(bytes, 5);
    lemma_record_field_value::<TextureData>(bytes, 6);
    lemma_record_field_value::<TextureData>(bytes, 7);
}

#[derive(Clone, Copy, Debug)]
pub struct Face {
    pub plane_index: u16,
    pub side: i8,
    pub is_on_node: i8,
    pub edge_index: i32,
    pub edge_count: i16,
    pub texture_info_index: i16,
    pub displacement_info_index: i16,
    pub surface_fog_volume_id: i16,
    pub styles: [u8; LIGHTMAP_COUNT],
    pub light_offset: i32,
    /// IEEE-754 single-precision bits.
    pub area: u32,
    pub lightmap: Lightmap,
    pub original_face: i32,
    pub primitive_count: PrimitiveCount,
    pub primitive_index: u16,
    pub smoothing_groups: u32,
}

impl Record for Face {
    open spec fn spec_layout() -> Seq<ScalarKind> {
        seq![
            ScalarKind::U16, ScalarKind::I8, ScalarKind::I8, ScalarKind::I32, ScalarKind::I16, ScalarKind::I16,
            ScalarKind::I16, ScalarKind::I16, ScalarKind::U8, ScalarKind::U8, ScalarKind::U8, ScalarKind::U8,
            ScalarKind::I32, ScalarKind::U32, ScalarKind::I32, ScalarKind::I32, ScalarKind::I32, ScalarKind::I32,
            ScalarKind::I32, ScalarKind::U16, ScalarKind::U16, ScalarKind::U32,
        ]
    }

    open spec fn spec_scalars(self) -> Seq<Scalar> {
        seq![
            Scalar::U16(self.plane_index), Scalar::I8(self.side),
            Scalar::I8(self.is_on_node), Scalar::I32(self.edge_index),
            Scalar::I16(self.edge_count), Scalar::I16(self.texture_info_index),
            Scalar::I16(self.displacement_info_index), Scalar::I16(self.surface_fog_volume_id),
            Scalar::U8(self.styles[0]), Scalar::U8(self.styles[1]),
            Scalar::U8(self.styles[2]), Scalar::U8(self.styles[3]),
            Scalar::I32(self.light_offset), Scalar::U32(self.area),
            Scalar::I32(self.lightmap.mins[0]), Scalar::I32(self.lightmap.mins[1]),
            Scalar::I32(self.lightmap.maxs[0]), Scalar::I32(self.lightmap.maxs[1]),
            Scalar::I32(self.original_face), Scalar::U16(self.primitive_count.spec_bits()),
            Scalar::U16(self.primitive_index), Scalar::U32(self.smoothing_groups),
        ]
    }

    open spec fn spec_from_scalars(fs: Seq<Scalar>) -> Self {
        Face {
            plane_index: fs[0].spec_u16(),
            side: fs[1].spec_i8(),
            is_on_node: fs[2].spec_i8(),
            edge_index: fs[3].spec_i32(),
            edge_count: fs[4].spec_i16(),
            texture_info_index: fs[5].spec_i16(),
            displacement_info_index: fs[6].spec_i16(),
            surface_fog_volume_id: fs[7].spec_i16(),
            styles: [fs[8].spec_u8(), fs[9].spec_u8(), fs[10].spec_u8(), fs[11].spec_u8()],
            light_offset: fs[12].spec_i32(),
            area: fs[13].spec_u32(),
            lightmap: Lightmap {
                mins: [fs[14].spec_i32(), fs[15].spec_i32()],
                maxs: [fs[16].spec_i32(), fs[17].spec_i32()],
            },
            original_face: fs[18].spec_i32(),
            primitive_count: PrimitiveCount::spec_from_bits(fs[19].spec_u16()),
            primitive_index: fs[20].spec_u16(),
            smoothing_groups: fs[21].spec_u32(),
        }
    }

    open spec fn spec_size() -> nat {
        56
    }

    open spec fn spec_offsets() -> Seq<int> {
        seq![
            0, 2, 3, 4, 8, 10, 12, 14, 16, 17, 18, 19,
            20, 24, 28, 32, 36, 40, 44, 48, 50, 52, 56,
        ]
    }

    proof fn lemma_layout_len() {
        let ks = Self::spec_layout();
        assert(ks.take(0) =~= Seq::<ScalarKind>::empty());
        lemma_field_offset_step(ks, 0);
        lemma_field_offset_step(ks, 1);
        lemma_field_offset_step(ks, 2);
        lemma_field_offset_step(ks, 3);
        lemma_field_offset_step(ks, 4);
        lemma_field_offset_step(ks, 5);
        lemma_field_offset_step(ks, 6);
        lemma_field_offset_step(ks, 7);
        lemma_field_offset_step(ks, 8);
        lemma_field_offset_step(ks, 9);
        lemma_field_offset_step(ks, 10);
        lemma_field_offset_step(ks, 11);
        lemma_field_offset_step(ks, 12);
        lemma_field_offset_step(ks, 13);
        lemma_field_offset_step(ks, 14);
        lemma_field_offset_step(ks, 15);
        lemma_field_offset_step(ks, 16);
        lemma_field_offset_step(ks, 17);
        lemma_field_offset_step(ks, 18);
        lemma_field_offset_step(ks, 19);
        lemma_field_offset_step(ks, 20);
        lemma_field_offset_step(ks, 21);
        assert(ks.take(22) =~= ks);
        assert forall|i: int| 0 <= i <= 22 implies #[trigger] field_offset(ks, i) == Self::spec_offsets()[i] by {
            assert(i == 0 || i == 1 || i == 2 || i == 3 || i == 4 || i == 5 || i == 6 || i == 7 || i == 8 || i == 9 || i == 10 || i == 11 || i == 12 || i == 13 || i == 14 || i == 15 || i == 16 || i == 17 || i == 18 || i == 19 || i == 20 || i == 21 || i == 22);
        }
    }

    proof fn lemma_scalars(self) {
        lemma_kinds_of(self.spec_scalars());
        assert(kinds_of(self.spec_scalars()) =~= Self::spec_layout());
        let r = Self::spec_from_scalars(self.spec_scalars());
        self.primitive_count.lemma_bits_view();
        assert(r.styles =~= self.styles);
        assert(r.lightmap.mins =~= self.lightmap.mins);
        assert(r.lightmap.maxs =~= self.lightmap.maxs);
        assert(r.lightmap == self.lightmap);
        assert(r == self);
    }

    proof fn lemma_from_scalars(fs: Seq<Scalar>) {
        lemma_kinds_of(fs);
        assert(kinds_of(fs)[0] == ScalarKind::U16);
        assert(kinds_of(fs)[1] == ScalarKind::I8);
        assert(kinds_of(fs)[2] == ScalarKind::I8);
        assert(kinds_of(fs)[3] == ScalarKind::I32);
        assert(kinds_of(fs)[4] == ScalarKind::I16);
        assert(kinds_of(fs)[5] == ScalarKind::I16);
        assert(kinds_of(fs)[6] == ScalarKind::I16);
        assert(kinds_of(fs)[7] == ScalarKind::I16);
        assert(kinds_of(fs)[8] == ScalarKind::U8);
        assert(kinds_of(fs)[9] == ScalarKind::U8);
        assert(kinds_of(fs)[10] == ScalarKind::U8);
        assert(kinds_of(fs)[11] == ScalarKind::U8);
        assert(kinds_of(fs)[12] == ScalarKind::I32);
        assert(kinds_of(fs)[13] == ScalarKind::U32);
        assert(kinds_of(fs)[14] == ScalarKind::I32);
        assert(kinds_of(fs)[15] == ScalarKind::I32);
        assert(kinds_of(fs)[16] == ScalarKind::I32);
        assert(kinds_of(fs)[17] == ScalarKind::I32);
        assert(kinds_of(fs)[18] == ScalarKind::I32);
        assert(kinds_of(fs)[19] == ScalarKind::U16);
        assert(kinds_of(fs)[20] == ScalarKind::U16);
        assert(kinds_of(fs)[21] == ScalarKind::U32);
        PrimitiveCount::lemma_from_bits(fs[19].spec_u16());
        assert(Self::spec_from_scalars(fs).spec_scalars() =~= fs);
    }

    fn layout() -> (kinds: Vec<ScalarKind>) {
        vec![
            ScalarKind::U16, ScalarKind::I8, ScalarKind::I8, ScalarKind::I32, ScalarKind::I16, ScalarKind::I16,
            ScalarKind::I16, ScalarKind::I16, ScalarKind::U8, ScalarKind::U8, ScalarKind::U8, ScalarKind::U8,
            ScalarKind::I32, ScalarKind::U32, ScalarKind::I32, ScalarKind::I32, ScalarKind::I32, ScalarKind::I32,
            ScalarKind::I32, ScalarKind::U16, ScalarKind::U16, ScalarKind::U32,
        ]
    }

    fn to_scalars(&self) -> (fs: Vec<Scalar>) {
        vec![
            Scalar::U16(self.plane_index), Scalar::I8(self.side),
            Scalar::I8(self.is_on_node), Scalar::I32(self.edge_index),
            Scalar::I16(self.edge_count), Scalar::I16(self.texture_info_index),
            Scalar::I16(self.displacement_info_index), Scalar::I16(self.surface_fog_volume_id),
            Scalar::U8(self.styles[0]), Scalar::U8(self.styles[1]),
            Scalar::U8(self.styles[2]), Scalar::U8(self.styles[3]),
            Scalar::I32(self.light_offset), Scalar::U32(self.area),
            Scalar::I32(self.lightmap.mins[0]), Scalar::I32(self.lightmap.mins[1]),
            Scalar::I32(self.lightmap.maxs[0]), Scalar::I32(self.lightmap.maxs[1]),
            Scalar::I32(self.original_face), Scalar::U16(self.primitive_count.bits()),
            Scalar::U16(self.primitive_index), Scalar::U32(self.smoothing_groups),
        ]
    }

    fn from_scalars(fs: &[Scalar]) -> (record: Self) {
        proof {
            lemma_kinds_of(fs@);
        }
        Face {
            plane_index: fs[0].as_u16(),
            side: fs[1].as_i8(),
            is_on_node: fs[2].as_i8(),
            edge_index: fs[3].as_i32(),
            edge_count: fs[4].as_i16(),
            texture_info_index: fs[5].as_i16(),
            displacement_info_index: fs[6].as_i16(),
            surface_fog_volume_id: fs[7].as_i16(),
            styles: [fs[8].as_u8(), fs[9].as_u8(), fs[10].as_u8(), fs[11].as_u8()],
            light_offset: fs[12].as_i32(),
            area: fs[13].as_u32(),
            lightmap: Lightmap {
                mins: [fs[14].as_i32(), fs[15].as_i32()],
                maxs: [fs[16].as_i32(), fs[17].as_i32()],
            },
            original_face: fs[18].as_i32(),
            primitive_count: PrimitiveCount::from_bits(fs[19].as_u16()),
            primitive_index: fs[20].as_u16(),
            smoothing_groups: fs[21].as_u32(),
        }
    }
}

/// In the bytes of a face, every field is stored, little-endian, at its
/// offset in the C layout of the record, and nothing else is stored.
#[verifier::spinoff_prover]
pub proof fn law_face_bytes(x: Face)
    ensures
        spec_record_to_bytes(x).len() == 56,
        spec_record_to_bytes(x).subrange(0, 2) == u16_le(x.plane_index),
        spec_record_to_bytes(x).subrange(2, 3) == seq![x.side as u8],
        spec_record_to_bytes(x).subrange(3, 4) == seq![x.is_on_node as u8],
        spec_record_to_bytes(x).subrange(4, 8) == u32_le(x.edge_index as u32),
        spec_record_to_bytes(x).subrange(8, 10) == u16_le(x.edge_count as u16),
        spec_record_to_bytes(x).subrange(10, 12) == u16_le(x.texture_info_index as u16),
        spec_record_to_bytes(x).subrange(12, 14) == u16_le(x.displacement_info_index as u16),
        spec_record_to_bytes(x).subrange(14, 16) == u16_le(x.surface_fog_volume_id as u16),
        spec_record_to_bytes(x).subrange(16, 17) == seq![x.styles[0]],
        spec_record_to_bytes(x).subrange(17, 18) == seq![x.styles[1]],
        spec_record_to_bytes(x).subrange(18, 19) == seq![x.styles[2]],
        spec_record_to_bytes(x).subrange(19, 20) == seq![x.styles[3]],
        spec_record_to_bytes(x).subrange(20, 24) == u32_le(x.light_offset as u32),
        spec_record_to_bytes(x).subrange(24, 28) == u32_le(x.area),
        spec_record_to_bytes(x).subrange(28, 32) == u32_le(x.lightmap.mins[0] as u32),
        spec_record_to_bytes(x).subrange(32, 36) == u32_le(x.lightmap.mins[1] as u32),
        spec_record_to_bytes(x).subrange(36, 40) == u32_le(x.lightmap.maxs[0] as u32),
        spec_record_to_bytes(x).subrange(40, 44) == u32_le(x.lightmap.maxs[1] as u32),
        spec_record_to_bytes(x).subrange(44, 48) == u32_le(x.original_face as u32),
        spec_record_to_bytes(x).subrange(48, 50) == u16_le(x.primitive_count.spec_bits()),
        spec_record_to_bytes(x).subrange(50, 52) == u16_le(x.primitive_index),
        spec_record_to_bytes(x).subrange(52, 56) == u32_le(x.smoothing_groups),
{
    law_record_roundtrip(x);
    lemma_record_field_bytes(x, 0);
    lemma_record_field_bytes(x, 1);
    lemma_record_field_bytes(x, 2);
    lemma_record_field_bytes(x, 3);
    lemma_record_field_bytes(x, 4);
    lemma_record_field_bytes(x, 5);
    lemma_record_field_bytes(x, 6);
    lemma_record_field_bytes(x, 7);
    lemma_record_field_bytes(x, 8);
    lemma_record_field_bytes(x, 9);
    lemma_record_field_bytes(x, 10);
    lemma_record_field_bytes(x, 11);
    lemma_record_field_bytes(x, 12);
    lemma_record_field_bytes(x, 13);
    lemma_record_field_bytes(x, 14);
    lemma_record_field_bytes(x, 15);
    lemma_record_field_bytes(x, 16);
    lemma_record_field_bytes(x, 17);
    lemma_record_field_bytes(x, 18);
    lemma_record_field_bytes(x, 19);
    lemma_record_field_bytes(x, 20);
    lemma_record_field_bytes(x, 21);
}

/// Reading a face from bytes of its size, every field is read,
/// little-endian, from its offset in the C layout of the record.
#[verifier::spinoff_prover]
pub proof fn law_face_fields(bytes: Seq<u8>)
    requires
        bytes.len() == 56,
    ensures
        ({
            let r = spec_record_from_bytes::<Face>(bytes);
            &&& r.plane_index == le_u16(bytes.subrange(0, 2))
            &&& r.side == bytes[2] as i8
            &&& r.is_on_node == bytes[3] as i8
            &&& r.edge_index == le_u32(bytes.subrange(4, 8)) as i32
            &&& r.edge_count == le_u16(bytes.subrange(8, 10)) as i16
            &&& r.texture_info_index == le_u16(bytes.subrange(10, 12)) as i16
            &&& r.displacement_info_index == le_u16(bytes.subrange(12, 14)) as i16
            &&& r.surface_fog_volume_id == le_u16(bytes.subrange(14, 16)) as i16
            &&& r.styles[0] == bytes[16]
            &&& r.styles[1] == bytes[17]
            &&& r.styles[2] == bytes[18]
            &&& r.styles[3] == bytes[19]
            &&& r.light_offset == le_u32(bytes.subrange(20, 24)) as i32
            &&& r.area == le_u32(bytes.subrange(24, 28))
            &&& r.lightmap.mins[0] == le_u32(bytes.subrange(28, 32)) as i32
            &&& r.lightmap.mins[1] == le_u32(bytes.subrange(32, 36)) as i32
            &&& r.lightmap.maxs[0] == le_u32(bytes.subrange(36, 40)) as i32
            &&& r.lightmap.maxs[1] == le_u32(bytes.subrange(40, 44)) as i32
            &&& r.original_face == le_u32(bytes.subrange(44, 48)) as i32
            &&& r.primitive_count == PrimitiveCount::spec_from_bits(le_u16(bytes.subrange(48, 50)))
            &&& r.primitive_index == le_u16(bytes.subrange(50, 52))
            &&& r.smoothing_groups == le_u32(bytes.subrange(52, 56))
        }),
{
    lemma_record_field_value::<Face>(bytes, 0);
    lemma_record_field_value::<Face>(bytes, 1);
    lemma_record_field_value::<Face>(bytes, 2);
    lemma_record_field_value::<Face>(bytes, 3);
    lemma_record_field_value::<Face>(bytes, 4);
    lemma_record_field_value::<Face>(bytes, 5);
    lemma_record_field_value::<Face>(bytes, 6);
    lemma_record_field_value::<Face>(bytes, 7);
    lemma_record_field_value::<Face>(bytes, 8);
    lemma_record_field_value::<Face>(bytes, 9);
    lemma_record_field_value::<Face>(bytes, 10);
    lemma_record_field_value::<Face>(bytes, 11);
    lemma_record_field_value::<Face>(bytes, 12);
    lemma_record_field_value::<Face>(bytes, 13);
    lemma_record_field_value::<Face>(bytes, 14);
    lemma_record_field_value::<Face>(bytes, 15);
    lemma_record_field_value::<Face>(bytes, 16);
    lemma_record_field_value::<Face>(bytes, 17);
    lemma_record_field_value::<Face>(bytes, 18);
    lemma_record_field_value::<Face>(bytes, 19);
    lemma_record_field_value::<Face>(bytes, 20);
    lemma_record_field_value::<Face>(bytes, 21);
}

impl Record for PrimitiveCount {
    open spec fn spec_layout() -> Seq<ScalarKind> {
        seq![
            ScalarKind::U16,
        ]
    }

    open spec fn spec_scalars(self) -> Seq<Scalar> {
        seq![
            Scalar::U16(self.spec_bits()),
        ]
    }

    open spec fn spec_from_scalars(fs: Seq<Scalar>) -> Self {
        PrimitiveCount::spec_from_bits(fs[0].spec_u16())
    }

    open spec fn spec_size() -> nat {
        2
    }

    open spec fn spec_offsets() -> Seq<int> {
        seq![
            0, 2,
        ]
    }

    proof fn lemma_layout_len() {
        let ks = Self::spec_layout();
        assert(ks.take(0) =~= Seq::<ScalarKind>::empty());
        lemma_field_offset_step(ks, 0);
        assert(ks.take(1) =~= ks);
        assert forall|i: int| 0 <= i <= 1 implies #[trigger] field_offset(ks, i) == Self::spec_offsets()[i] by {
            assert(i == 0 || i == 1);
        }
    }

    proof fn lemma_scalars(self) {
        lemma_kinds_of(self.spec_scalars());
        assert(kinds_of(self.spec_scalars()) =~= Self::spec_layout());
        let r = Self::spec_from_scalars(self.spec_scalars());
        self.lemma_bits_view();
        assert(r == self);
    }

    proof fn lemma_from_scalars(fs: Seq<Scalar>) {
        lemma_kinds_of(fs);
        assert(kinds_of(fs)[0] == ScalarKind::U16);
        PrimitiveCount::lemma_from_bits(fs[0].spec_u16());
        assert(Self::spec_from_scalars(fs).spec_scalars() =~= fs);
    }

    fn layout() -> (kinds: Vec<ScalarKind>) {
        vec![
            ScalarKind::U16,
        ]
    }

    fn to_scalars(&self) -> (fs: Vec<Scalar>) {
        vec![
            Scalar::U16(self.bits()),
        ]
    }

    fn from_scalars(fs: &[Scalar]) -> (record: Self) {
        proof {
            lemma_kinds_of(fs@);
        }
        PrimitiveCount::from_bits(fs[0].as_u16())
    }
}

/// In the bytes of a packed primitive count, every field is stored, little-endian, at its
/// offset in the C layout of the record, and nothing else is stored.
#[verifier::spinoff_prover]
pub proof fn law_primitive_count_bytes(x: PrimitiveCount)
    ensures
        spec_record_to_bytes(x).len() == 2,
        spec_record_to_bytes(x).subrange(0, 2) == u16_le(x.spec_bits()),
{
    law_record_roundtrip(x);
    lemma_record_field_bytes(x, 0);
}

/// Reading a packed primitive count from bytes of its size, every field is read,
/// little-endian, from its offset in the C layout of the record.
#[verifier::spinoff_prover]
pub proof fn law_primitive_count_fields(bytes: Seq<u8>)
    requires
        bytes.len() == 2,
    ensures
        ({
            let r = spec_record_from_bytes::<PrimitiveCount>(bytes);
            &&& r == PrimitiveCount::spec_from_bits(le_u16(bytes.subrange(0, 2)))
        }),
{
    lemma_record_field_value::<PrimitiveCount>(bytes, 0);
}

} // verus!
