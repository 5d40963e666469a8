//! Records of the world-light lump.
use vstd::prelude::*;
use crate::valve::record::{
    lemma_record_field_bytes, lemma_record_field_value, law_record_roundtrip, spec_record_from_bytes,
    spec_record_to_bytes, Record,
};
use crate::valve::scalar::{
    field_offset, kinds_of, lemma_field_offset_step, le_u16, le_u32, lemma_kinds_of, u16_le, u32_le, Scalar,
    ScalarKind,
};

verus! {

/// Lights used to illuminate the world
#[derive(Clone, Copy, Debug)]
pub struct WorldLight {
    /// IEEE-754 single-precision bits of each component.
    pub origin: [u32; 3],
    /// IEEE-754 single-precision bits of each component.
    pub intensity: [u32; 3],
    /// For surfaces and spotlights
    /// IEEE-754 single-precision bits of each component.
    pub normal: [u32; 3],
    pub cluster: i32,
    /// The number of an `EmitType`.
    pub ty: u32,
    pub style: i32,
    /// Start of penumbra for emit_spotlight
    /// IEEE-754 single-precision bits.
    pub penumbra_start: u32,
    /// End of penumbra for emit_spotlight
    /// IEEE-754 single-precision bits.
    pub penumbra_end: u32,
    /// IEEE-754 single-precision bits.
    pub exponent: u32,
    /// Cutoff distance
    /// IEEE-754 single-precision bits.
    pub radius: u32,
    /// Falloff for emit_spotlight + emit_point:
    /// 1 / (constant_attn + linear_attn * dist + quadratic_attn * dist^2)
    /// IEEE-754 single-precision bits.
    pub constant_attn: u32,
    /// IEEE-754 single-precision bits.
    pub linear_attn: u32,
    /// IEEE-754 single-precision bits.
    pub quadratic_attn: u32,
    /// Uses a combination of the DWL_FLAGS_ defines.
    pub flags: i32,
    pub texinfo: i32,
    /// Entity that this light is relative to
    pub owner: i32,
}

impl Record for WorldLight {
    open spec fn spec_layout() -> Seq<ScalarKind> {
        seq![
            ScalarKind::U32, ScalarKind::U32, ScalarKind::U32, ScalarKind::U32, ScalarKind::U32, ScalarKind::U32,
            ScalarKind::U32, ScalarKind::U32, ScalarKind::U32, ScalarKind::I32, ScalarKind::U32, ScalarKind::I32,
            ScalarKind::U32, ScalarKind::U32, ScalarKind::U32, ScalarKind::U32, ScalarKind::U32, ScalarKind::U32,
            ScalarKind::U32, ScalarKind::I32, ScalarKind::I32, ScalarKind::I32,
        ]
    }

    open spec fn spec_scalars(self) -> Seq<Scalar> {
        seq![
            Scalar::U32(self.origin[0]), Scalar::U32(self.origin[1]),
            Scalar::U32(self.origin[2]), Scalar::U32(self.intensity[0]),
            Scalar::U32(self.intensity[1]), Scalar::U32(self.intensity[2]),
            Scalar::U32(self.normal[0]), Scalar::U32(self.normal[1]),
            Scalar::U32(self.normal[2]), Scalar::I32(self.cluster),
            Scalar::U32(self.ty), Scalar::I32(self.style),
            Scalar::U32(self.penumbra_start), Scalar::U32(self.penumbra_end),
            Scalar::U32(self.exponent), Scalar::U32(self.radius),
            Scalar::U32(self.constant_attn), Scalar::U32(self.linear_attn),
            Scalar::U32(self.quadratic_attn), Scalar::I32(self.flags),
            Scalar::I32(self.texinfo), Scalar::I32(self.owner),
        ]
    }

    open spec fn spec_from_scalars(fs: Seq<Scalar>) -> Self {
        WorldLight {
            origin: [fs[0].spec_u32(), fs[1].spec_u32(), fs[2].spec_u32()],
            intensity: [fs[3].spec_u32(), fs[4].spec_u32(), fs[5].spec_u32()],
            normal: [fs[6].spec_u32(), fs[7].spec_u32(), fs[8].spec_u32()],
            cluster: fs[9].spec_i32(),
            ty: fs[10].spec_u32(),
            style: fs[11].spec_i32(),
            penumbra_start: fs[12].spec_u32(),
            penumbra_end: fs[13].spec_u32(),
            exponent: fs[14].spec_u32(),
            radius: fs[15].spec_u32(),
            constant_attn: fs[16].spec_u32(),
            linear_attn: fs[17].spec_u32(),
            quadratic_attn: fs[18].spec_u32(),
            flags: fs[19].spec_i32(),
            texinfo: fs[20].spec_i32(),
            owner: fs[21].spec_i32(),
        }
    }

    open spec fn spec_size() -> nat {
        88
    }

    open spec fn spec_offsets() -> Seq<int> {
        seq![
            0, 4, 8, 12, 16, 20, 24, 28, 32, 36, 40, 44,
            48, 52, 56, 60, 64, 68, 72, 76, 80, 84, 88,
        ]
    }

    proof fn lemma_layout_len() {
        let ks = Self::spec_layout();
        assert(ks.take(0) =~= Seq::<ScalarKind>::empty());
        lemma_field_offset_step(ks, 0);
        lemma_field_offset_step(ks, 1);
        lemma_field_offset_step(ks, 2);
        lemma_field_offset_step(ks, 3);
        lemma_field_offset_step(ks, 4);
        lemma_field_offset_step(ks, 5);
        lemma_field_offset_step(ks, 6);
        lemma_field_offset_step(ks, 7);
        lemma_field_offset_step(ks, 8);
        lemma_field_offset_step(ks, 9);
        lemma_field_offset_step(ks, 10);
        lemma_field_offset_step(ks, 11);
        lemma_field_offset_step(ks, 12);
        lemma_field_offset_step(ks, 13);
        lemma_field_offset_step(ks, 14);
        lemma_field_offset_step(ks, 15);
        lemma_field_offset_step(ks, 16);
        lemma_field_offset_step(ks, 17);
        lemma_field_offset_step(ks, 18);
        lemma_field_offset_step(ks, 19);
        lemma_field_offset_step(ks, 20);
        lemma_field_offset_step(ks, 21);
        assert(ks.take(22) =~= ks);
        assert forall|i: int| 0 <= i <= 22 implies #[trigger] field_offset(ks, i) == Self::spec_offsets()[i] by {
            assert(i == 0 || i == 1 || i == 2 || i == 3 || i == 4 || i == 5 || i == 6 || i == 7 || i == 8 || i == 9 || i == 10 || i == 11 || i == 12 || i == 13 || i == 14 || i == 15 || i == 16 || i == 17 || i == 18 || i == 19 || i == 20 || i == 21 || i == 22);
        }
    }

    proof fn lemma_scalars(self) {
        lemma_kinds_of(self.spec_scalars());
        assert(kinds_of(self.spec_scalars()) =~= Self::spec_layout());
        let r = Self::spec_from_scalars(self.spec_scalars());
        assert(r.origin =~= self.origin);
        assert(r.intensity =~= self.intensity);
        assert(r.normal =~= self.normal);
        assert(r == self);
    }

    proof fn lemma_from_scalars(fs: Seq<Scalar>) {
        lemma_kinds_of(fs);
        assert(kinds_of(fs)[0] == ScalarKind::U32);
        assert(kinds_of(fs)[1] == ScalarKind::U32);
        assert(kinds_of(fs)[2] == ScalarKind::U32);
        assert(kinds_of(fs)[3] == ScalarKind::U32);
        assert(kinds_of(fs)[4] == ScalarKind::U32);
        assert(kinds_of(fs)[5] == ScalarKind::U32);
        assert(kinds_of(fs)[6] == ScalarKind::U32);
        assert(kinds_of(fs)[7] == ScalarKind::U32);
        assert(kinds_of(fs)[8] == ScalarKind::U32);
        assert(kinds_of(fs)[9] == ScalarKind::I32);
        assert(kinds_of(fs)[10] == ScalarKind::U32);
        assert(kinds_of(fs)[11] == ScalarKind::I32);
        assert(kinds_of(fs)[12] == ScalarKind::U32);
        assert(kinds_of(fs)[13] == ScalarKind::U32);
        assert(kinds_of(fs)[14] == ScalarKind::U32);
        assert(kinds_of(fs)[15] == ScalarKind::U32);
        assert(kinds_of(fs)[16] == ScalarKind::U32);
        assert(kinds_of(fs)[17] == ScalarKind::U32);
        assert(kinds_of(fs)[18] == ScalarKind::U32);
        assert(kinds_of(fs)[19] == ScalarKind::I32);
        assert(kinds_of(fs)[20] == ScalarKind::I32);
        assert(kinds_of(fs)[21] == ScalarKind::I32);
        assert(Self::spec_from_scalars(fs).spec_scalars() =~= fs);
    }

    fn layout() -> (kinds: Vec<ScalarKind>) {
        vec![
            ScalarKind::U32, ScalarKind::U32, ScalarKind::U32, ScalarKind::U32, ScalarKind::U32, ScalarKind::U32,
            ScalarKind::U32, ScalarKind::U32, ScalarKind::U32, ScalarKind::I32, ScalarKind::U32, ScalarKind::I32,
            ScalarKind::U32, ScalarKind::U32, ScalarKind::U32, ScalarKind::U32, ScalarKind::U32, ScalarKind::U32,
            ScalarKind::U32, ScalarKind::I32, ScalarKind::I32, ScalarKind::I32,
        ]
    }

    fn to_scalars(&self) -> (fs: Vec<Scalar>) {
        vec![
            Scalar::U32(self.origin[0]), Scalar::U32(self.origin[1]),
            Scalar::U32(self.origin[2]), Scalar::U32(self.intensity[0]),
            Scalar::U32(self.intensity[1]), Scalar::U32(self.intensity[2]),
            Scalar::U32(self.normal[0]), Scalar::U32(self.normal[1]),
            Scalar::U32(self.normal[2]), Scalar::I32(self.cluster),
            Scalar::U32(self.ty), Scalar::I32(self.style),
            Scalar::U32(self.penumbra_start), Scalar::U32(self.penumbra_end),
            Scalar::U32(self.exponent), Scalar::U32(self.radius),
            Scalar::U32(self.constant_attn), Scalar::U32(self.linear_attn),
            Scalar::U32(self.quadratic_attn), Scalar::I32(self.flags),
            Scalar::I32(self.texinfo), Scalar::I32(self.owner),
        ]
    }

    fn from_scalars(fs: &[Scalar]) -> (record: Self) {
        proof {
            lemma_kinds_of(fs@);
        }
        WorldLight {
            origin: [fs[0].as_u32(), fs[1].as_u32(), fs[2].as_u32()],
            intensity: [fs[3].as_u32(), fs[4].as_u32(), fs[5].as_u32()],
            normal: [fs[6].as_u32(), fs[7].as_u32(), fs[8].as_u32()],
            cluster: fs[9].as_i32(),
            ty: fs[10].as_u32(),
            style: fs[11].as_i32(),
            penumbra_start: fs[12].as_u32(),
            penumbra_end: fs[13].as_u32(),
            exponent: fs[14].as_u32(),
            radius: fs[15].as_u32(),
            constant_attn: fs[16].as_u32(),
            linear_attn: fs[17].as_u32(),
            quadratic_attn: fs[18].as_u32(),
            flags: fs[19].as_i32(),
            texinfo: fs[20].as_i32(),
            owner: fs[21].as_i32(),
        }
    }
}

/// In the bytes of a world light, every field is stored, little-endian, at its
/// offset in the C layout of the record, and nothing else is stored.
#[verifier::spinoff_prover]
pub proof fn law_world_light_bytes(x: WorldLight)
    ensures
        spec_record_to_bytes(x).len() == 88,
        spec_record_to_bytes(x).subrange(0, 4) == u32_le(x.origin[0]),
        spec_record_to_bytes(x).subrange(4, 8) == u32_le(x.origin[1]),
        spec_record_to_bytes(x).subrange(8, 12) == u32_le(x.origin[2]),
        spec_record_to_bytes(x).subrange(12, 16) == u32_le(x.intensity[0]),
        spec_record_to_bytes(x).subrange(16, 20) == u32_le(x.intensity[1]),
        spec_record_to_bytes(x).subrange(20, 24) == u32_le(x.intensity[2]),
        spec_record_to_bytes(x).subrange(24, 28) == u32_le(x.normal[0]),
        spec_record_to_bytes(x).subrange(28, 32) == u32_le(x.normal[1]),
        spec_record_to_bytes(x).subrange(32, 36) == u32_le(x.normal[2]),
        spec_record_to_bytes(x).subrange(36, 40) == u32_le(x.cluster as u32),
        spec_record_to_bytes(x).subrange(40, 44) == u32_le(x.ty),
        spec_record_to_bytes(x).subrange(44, 48) == u32_le(x.style as u32),
        spec_record_to_bytes(x).subrange(48, 52) == u32_le(x.penumbra_start),
        spec_record_to_bytes(x).subrange(52, 56) == u32_le(x.penumbra_end),
        spec_record_to_bytes(x).subrange(56, 60) == u32_le(x.exponent),
        spec_record_to_bytes(x).subrange(60, 64) == u32_le(x.radius),
        spec_record_to_bytes(x).subrange(64, 68) == u32_le(x.constant_attn),
        spec_record_to_bytes(x).subrange(68, 72) == u32_le(x.linear_attn),
        spec_record_to_bytes(x).subrange(72, 76) == u32_le(x.quadratic_attn),
        spec_record_to_bytes(x).subrange(76, 80) == u32_le(x.flags as u32),
        spec_record_to_bytes(x).subrange(80, 84) == u32_le(x.texinfo as u32),
        spec_record_to_bytes(x).subrange(84, 88) == u32_le(x.owner as u32),
{
    law_record_roundtrip(x);
    lemma_record_field_bytes(x, 0);
    lemma_record_field_bytes(x, 1);
    lemma_record_field_bytes(x, 2);
    lemma_record_field_bytes(x, 3);
    lemma_record_field_bytes(x, 4);
    lemma_record_field_bytes(x, 5);
    lemma_record_field_bytes(x, 6);
    lemma_record_field_bytes(x, 7);
    lemma_record_field_bytes(x, 8);
    lemma_record_field_bytes(x, 9);
    lemma_record_field_bytes(x, 10);
    lemma_record_field_bytes(x, 11);
    lemma_record_field_bytes(x, 12);
    lemma_record_field_bytes(x, 13);
    lemma_record_field_bytes(x, 14);
    lemma_record_field_bytes(x, 15);
    lemma_record_field_bytes(x, 16);
    lemma_record_field_bytes(x, 17);
    lemma_record_field_bytes(x, 18);
    lemma_record_field_bytes(x, 19);
    lemma_record_field_bytes(x, 20);
    lemma_record_field_bytes(x, 21);
}

/// Reading a world light from bytes of its size, every field is read,
/// little-endian, from its offset in the C layout of the record.
#[verifier::spinoff_prover]
pub proof fn law_world_light_fields(bytes: Seq<u8>)
    requires
        bytes.len() == 88,
    ensures
        ({
            let r = spec_record_from_bytes::<WorldLight>(bytes);
            &&& r.origin[0] == le_u32(bytes.subrange(0, 4))
            &&& r.origin[1] == le_u32(bytes.subrange(4, 8))
            &&& r.origin[2] == le_u32(bytes.subrange(8, 12))
            &&& r.intensity[0] == le_u32(bytes.subrange(12, 16))
            &&& r.intensity[1] == le_u32(bytes.subrange(16, 20))
            &&& r.intensity[2] == le_u32(bytes.subrange(20, 24))
            &&& r.normal[0] == le_u32(bytes.subrange(24, 28))
            &&& r.normal[1] == le_u32(bytes.subrange(28, 32))
            &&& r.normal[2] == le_u32(bytes.subrange(32, 36))
            &&& r.cluster == le_u32(bytes.subrange(36, 40)) as i32
            &&& r.ty == le_u32(bytes.subrange(40, 44))
            &&& r.style == le_u32(bytes.subrange(44, 48)) as i32
            &&& r.penumbra_start == le_u32(bytes.subrange(48, 52))
            &&& r.penumbra_end == le_u32(bytes.subrange(52, 56))
            &&& r.exponent == le_u32(bytes.subrange(56, 60))
            &&& r.radius == le_u32(bytes.subrange(60, 64))
            &&& r.constant_attn == le_u32(bytes.subrange(64, 68))
            &&& r.linear_attn == le_u32(bytes.subrange(68, 72))
            &&& r.quadratic_attn == le_u32(bytes.subrange(72, 76))
            &&& r.flags == le_u32(bytes.subrange(76, 80)) as i32
            &&& r.texinfo == le_u32(bytes.subrange(80, 84)) as i32
            &&& r.owner == le_u32(bytes.subrange(84, 88)) as i32
        }),
{
    lemma_record_field_value::<WorldLight>(bytes, 0);
    lemma_record_field_value::<WorldLight>(bytes, 1);
    lemma_record_field_value::<WorldLight>(bytes, 2);
    lemma_record_field_value::<WorldLight>(bytes, 3);
    lemma_record_field_value::<WorldLight>(bytes, 4);
    lemma_record_field_value::<WorldLight>(bytes, 5);
    lemma_record_field_value::<WorldLight>(bytes, 6);
    lemma_record_field_value::<WorldLight>(bytes, 7);
    lemma_record_field_value::<WorldLight>(bytes, 8);
    lemma_record_field_value::<WorldLight>(bytes, 9);
    lemma_record_field_value::<WorldLight>(bytes, 10);
    lemma_record_field_value::<WorldLight>(bytes, 11);
    lemma_record_field_value::<WorldLight>(bytes, 12);
    lemma_record_field_value::<WorldLight>(bytes, 13);
    lemma_record_field_value::<WorldLight>(bytes, 14);
    lemma_record_field_value::<WorldLight>(bytes, 15);
    lemma_record_field_value::<WorldLight>(bytes, 16);
    lemma_record_field_value::<WorldLight>(bytes, 17);
    lemma_record_field_value::<WorldLight>(bytes, 18);
    lemma_record_field_value::<WorldLight>(bytes, 19);
    lemma_record_field_value::<WorldLight>(bytes, 20);
    lemma_record_field_value::<WorldLight>(bytes, 21);
}

} // verus!
