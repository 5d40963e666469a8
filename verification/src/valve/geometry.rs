//! Records of the geometry lumps: planes, vertices, edges, models,
//! brushes and the BSP tree.
use vstd::prelude::*;
use crate::valve::record::{
    lemma_record_field_bytes, lemma_record_field_value, law_record_roundtrip, spec_record_from_bytes,
    spec_record_to_bytes, Record,
};
use crate::valve::scalar::{
    field_offset, kinds_of, lemma_field_offset_step, le_u16, le_u32, lemma_kinds_of, u16_le, u32_le, Scalar,
    ScalarKind,
};
use crate::valve::area_flags::AreaFlags;

verus! {

#[derive(Clone, Copy, Debug, Default)]
pub struct Plane {
    /// IEEE-754 single-precision bits of each component.
    pub normal: [u32; 3],
    /// IEEE-754 single-precision bits.
    pub dist: u32,
    pub ty: i32,
}

impl Record for Plane {
    open spec fn spec_layout() -> Seq<ScalarKind> {
        seq![
            ScalarKind::U32, ScalarKind::U32, ScalarKind::U32, ScalarKind::U32, ScalarKind::I32,
        ]
    }

    open spec fn spec_scalars(self) -> Seq<Scalar> {
        seq![
            Scalar::U32(self.normal[0]), Scalar::U32(self.normal[1]),
            Scalar::U32(self.normal[2]), Scalar::U32(self.dist),
            Scalar::I32(self.ty),
        ]
    }

    open spec fn spec_from_scalars(fs: Seq<Scalar>) -> Self {
        Plane {
            normal: [fs[0].spec_u32(), fs[1].spec_u32(), fs[2].spec_u32()],
            dist: fs[3].spec_u32(),
            ty: fs[4].spec_i32(),
        }
    }

    open spec fn spec_size() -> nat {
        20
    }

    open spec fn spec_offsets() -> Seq<int> {
        seq![
            0, 4, 8, 12, 16, 20,
        ]
    }

    proof fn lemma_layout_len() {
        let ks = Self::spec_layout();
        assert(ks.take(0) =~= Seq::<ScalarKind>::empty());
        lemma_field_offset_step(ks, 0);
        lemma_field_offset_step(ks, 1);
        lemma_field_offset_step(ks, 2);
        lemma_field_offset_step(ks, 3);
        lemma_field_offset_step(ks, 4);
        assert(ks.take(5) =~= ks);
        assert forall|i: int| 0 <= i <= 5 implies #[trigger] field_offset(ks, i) == Self::spec_offsets()[i] by {
            assert(i == 0 || i == 1 || i == 2 || i == 3 || i == 4 || i == 5);
        }
    }

    proof fn lemma_scalars(self) {
        lemma_kinds_of(self.spec_scalars());
        assert(kinds_of(self.spec_scalars()) =~= Self::spec_layout());
        let r = Self::spec_from_scalars(self.spec_scalars());
        assert(r.normal =~= self.normal);
        assert(r == self);
    }

    proof fn lemma_from_scalars(fs: Seq<Scalar>) {
        lemma_kinds_of(fs);
        assert(kinds_of(fs)[0] == ScalarKind::U32);
        assert(kinds_of(fs)[1] == ScalarKind::U32);
        assert(kinds_of(fs)[2] == ScalarKind::U32);
        assert(kinds_of(fs)[3] == ScalarKind::U32);
        assert(kinds_of(fs)[4] == ScalarKind::I32);
        assert(Self::spec_from_scalars(fs).spec_scalars() =~= fs);
    }

    fn layout() -> (kinds: Vec<ScalarKind>) {
        vec![
            ScalarKind::U32, ScalarKind::U32, ScalarKind::U32, ScalarKind::U32, ScalarKind::I32,
        ]
    }

    fn to_scalars(&self) -> (fs: Vec<Scalar>) {
        vec![
            Scalar::U32(self.normal[0]), Scalar::U32(self.normal[1]),
            Scalar::U32(self.normal[2]), Scalar::U32(self.dist),
            Scalar::I32(self.ty),
        ]
    }

    fn from_scalars(fs: &[Scalar]) -> (record: Self) {
        proof {
            lemma_kinds_of(fs@);
        }
        Plane {
            normal: [fs[0].as_u32(), fs[1].as_u32(), fs[2].as_u32()],
            dist: fs[3].as_u32(),
            ty: fs[4].as_i32(),
        }
    }
}

/// In the bytes of a plane, every field is stored, little-endian, at its
/// offset in the C layout of the record, and nothing else is stored.
#[verifier::spinoff_prover]
pub proof fn law_plane_bytes(x: Plane)
    ensures
        spec_record_to_bytes(x).len() == 20,
        spec_record_to_bytes(x).subrange(0, 4) == u32_le(x.normal[0]),
        spec_record_to_bytes(x).subrange(4, 8) == u32_le(x.normal[1]),
        spec_record_to_bytes(x).subrange(8, 12) == u32_le(x.normal[2]),
        spec_record_to_bytes(x).subrange(12, 16) == u32_le(x.dist),
        spec_record_to_bytes(x).subrange(16, 20) == u32_le(x.ty as u32),
{
    law_record_roundtrip(x);
    lemma_record_field_bytes(x, 0);
    lemma_record_field_bytes(x, 1);
    lemma_record_field_bytes(x, 2);
    lemma_record_field_bytes(x, 3);
    lemma_record_field_bytes(x, 4);
}

/// Reading a plane from bytes of its size, every field is read,
/// little-endian, from its offset in the C layout of the record.
#[verifier::spinoff_prover]
pub proof fn law_plane_fields(bytes: Seq<u8>)
    requires
        bytes.len() == 20,
    ensures
        ({
            let r = spec_record_from_bytes::<Plane>(bytes);
            &&& r.normal[0] == le_u32(bytes.subrange(0, 4))
            &&& r.normal[1] == le_u32(bytes.subrange(4, 8))
            &&& r.normal[2] == le_u32(bytes.subrange(8, 12))
            &&& r.dist == le_u32(bytes.subrange(12, 16))
            &&& r.ty == le_u32(bytes.subrange(16, 20)) as i32
        }),
{
    lemma_record_field_value::<Plane>(bytes, 0);
    lemma_record_field_value::<Plane>(bytes, 1);
    lemma_record_field_value::<Plane>(bytes, 2);
    lemma_record_field_value::<Plane>(bytes, 3);
    lemma_record_field_value::<Plane>(bytes, 4);
}

#[derive(Clone, Copy, Debug, Default)]
pub struct Vertex {
    /// IEEE-754 single-precision bits of each component.
    pub point: [u32; 3],
}

impl Record for Vertex {
    open spec fn spec_layout() -> Seq<ScalarKind> {
        seq![
            ScalarKind::U32, ScalarKind::U32, ScalarKind::U32,
        ]
    }

    open spec fn spec_scalars(self) -> Seq<Scalar> {
        seq![
            Scalar::U32(self.point[0]), Scalar::U32(self.point[1]),
            Scalar::U32(self.point[2]),
        ]
    }

    open spec fn spec_from_scalars(fs: Seq<Scalar>) -> Self {
        Vertex {
            point: [fs[0].spec_u32(), fs[1].spec_u32(), fs[2].spec_u32()],
        }
    }

    open spec fn spec_size() -> nat {
        12
    }

    open spec fn spec_offsets() -> Seq<int> {
        seq![
            0, 4, 8, 12,
        ]
    }

    proof fn lemma_layout_len() {
        let ks = Self::spec_layout();
        assert(ks.take(0) =~= Seq::<ScalarKind>::empty());
        lemma_field_offset_step(ks, 0);
        lemma_field_offset_step(ks, 1);
        lemma_field_offset_step(ks, 2);
        assert(ks.take(3) =~= ks);
        assert forall|i: int| 0 <= i <= 3 implies #[trigger] field_offset(ks, i) == Self::spec_offsets()[i] by {
            assert(i == 0 || i == 1 || i == 2 || i == 3);
        }
    }

    proof fn lemma_scalars(self) {
        lemma_kinds_of(self.spec_scalars());
        assert(kinds_of(self.spec_scalars()) =~= Self::spec_layout());
        let r = Self::spec_from_scalars(self.spec_scalars());
        assert(r.point =~= self.point);
        assert(r == self);
    }

    proof fn lemma_from_scalars(fs: Seq<Scalar>) {
        lemma_kinds_of(fs);
        assert(kinds_of(fs)[0] == ScalarKind::U32);
        assert(kinds_of(fs)[1] == ScalarKind::U32);
        assert(kinds_of(fs)[2] == ScalarKind::U32);
        assert(Self::spec_from_scalars(fs).spec_scalars() =~= fs);
    }

    fn layout() -> (kinds: Vec<ScalarKind>) {
        vec![
            ScalarKind::U32, ScalarKind::U32, ScalarKind::U32,
        ]
    }

    fn to_scalars(&self) -> (fs: Vec<Scalar>) {
        vec![
            Scalar::U32(self.point[0]), Scalar::U32(self.point[1]),
            Scalar::U32(self.point[2]),
        ]
    }

    fn from_scalars(fs: &[Scalar]) -> (record: Self) {
        proof {
            lemma_kinds_of(fs@);
        }
        Vertex {
            point: [fs[0].as_u32(), fs[1].as_u32(), fs[2].as_u32()],
        }
    }
}

/// In the bytes of a vertex, every field is stored, little-endian, at its
/// offset in the C layout of the record, and nothing else is stored.
#[verifier::spinoff_prover]
pub proof fn law_vertex_bytes(x: Vertex)
    ensures
        spec_record_to_bytes(x).len() == 12,
        spec_record_to_bytes(x).subrange(0, 4) == u32_le(x.point[0]),
        spec_record_to_bytes(x).subrange(4, 8) == u32_le(x.point[1]),
        spec_record_to_bytes(x).subrange(8, 12) == u32_le(x.point[2]),
{
    law_record_roundtrip(x);
    lemma_record_field_bytes(x, 0);
    lemma_record_field_bytes(x, 1);
    lemma_record_field_bytes(x, 2);
}

/// Reading a vertex from bytes of its size, every field is read,
/// little-endian, from its offset in the C layout of the record.
#[verifier::spinoff_prover]
pub proof fn law_vertex_fields(bytes: Seq<u8>)
    requires
        bytes.len() == 12,
    ensures
        ({
            let r = spec_record_from_bytes::<Vertex>(bytes);
            &&& r.point[0] == le_u32(bytes.subrange(0, 4))
            &&& r.point[1] == le_u32(bytes.subrange(4, 8))
            &&& r.point[2] == le_u32(bytes.subrange(8, 12))
        }),
{
    lemma_record_field_value::<Vertex>(bytes, 0);
    lemma_record_field_value::<Vertex>(bytes, 1);
    lemma_record_field_value::<Vertex>(bytes, 2);
}

#[derive(Clone, Copy, Debug, Default)]
pub struct Edge {
    pub edge: [u16; 2],
}

impl Record for Edge {
    open spec fn spec_layout() -> Seq<ScalarKind> {
        seq![
            ScalarKind::U16, ScalarKind::U16,
        ]
    }

    open spec fn spec_scalars(self) -> Seq<Scalar> {
        seq![
            Scalar::U16(self.edge[0]), Scalar::U16(self.edge[1]),
        ]
    }

    open spec fn spec_from_scalars(fs: Seq<Scalar>) -> Self {
        Edge {
            edge: [fs[0].spec_u16(), fs[1].spec_u16()],
        }
    }

    open spec fn spec_size() -> nat {
        4
    }

    open spec fn spec_offsets() -> Seq<int> {
        seq![
            0, 2, 4,
        ]
    }

    proof fn lemma_layout_len() {
        let ks = Self::spec_layout();
        assert(ks.take(0) =~= Seq::<ScalarKind>::empty());
        lemma_field_offset_step(ks, 0);
        lemma_field_offset_step(ks, 1);
        assert(ks.take(2) =~= ks);
        assert forall|i: int| 0 <= i <= 2 implies #[trigger] field_offset(ks, i) == Self::spec_offsets()[i] by {
            assert(i == 0 || i == 1 || i == 2);
        }
    }

    proof fn lemma_scalars(self) {
        lemma_kinds_of(self.spec_scalars());
        assert(kinds_of(self.spec_scalars()) =~= Self::spec_layout());
        let r = Self::spec_from_scalars(self.spec_scalars());
        assert(r.edge =~= self.edge);
        assert(r == self);
    }

    proof fn lemma_from_scalars(fs: Seq<Scalar>) {
        lemma_kinds_of(fs);
        assert(kinds_of(fs)[0] == ScalarKind::U16);
        assert(kinds_of(fs)[1] == ScalarKind::U16);
        assert(Self::spec_from_scalars(fs).spec_scalars() =~= fs);
    }

    fn layout() -> (kinds: Vec<ScalarKind>) {
        vec![
            ScalarKind::U16, ScalarKind::U16,
        ]
    }

    fn to_scalars(&self) -> (fs: Vec<Scalar>) {
        vec![
            Scalar::U16(self.edge[0]), Scalar::U16(self.edge[1]),
        ]
    }

    fn from_scalars(fs: &[Scalar]) -> (record: Self) {
        proof {
            lemma_kinds_of(fs@);
        }
        Edge {
            edge: [fs[0].as_u16(), fs[1].as_u16()],
        }
    }
}

/// In the bytes of an edge, every field is stored, little-endian, at its
/// offset in the C layout of the record, and nothing else is stored.
#[verifier::spinoff_prover]
pub proof fn law_edge_bytes(x: Edge)
    ensures
        spec_record_to_bytes(x).len() == 4,
        spec_record_to_bytes(x).subrange(0, 2) == u16_le(x.edge[0]),
        spec_record_to_bytes(x).subrange(2, 4) == u16_le(x.edge[1]),
{
    law_record_roundtrip(x);
    lemma_record_field_bytes(x, 0);
    lemma_record_field_bytes(x, 1);
}

/// Reading an edge from bytes of its size, every field is read,
/// little-endian, from its offset in the C layout of the record.
#[verifier::spinoff_prover]
pub proof fn law_edge_fields(bytes: Seq<u8>)
    requires
        bytes.len() == 4,
    ensures
        ({
            let r = spec_record_from_bytes::<Edge>(bytes);
            &&& r.edge[0] == le_u16(bytes.subrange(0, 2))
            &&& r.edge[1] == le_u16(bytes.subrange(2, 4))
        }),
{
    lemma_record_field_value::<Edge>(bytes, 0);
    lemma_record_field_value::<Edge>(bytes, 1);
}

#[derive(Clone, Copy, Debug, Default)]
pub struct SurfaceEdge {
    pub edge_index: i32,
}

impl Record for SurfaceEdge {
    open spec fn spec_layout() -> Seq<ScalarKind> {
        seq![
            ScalarKind::I32,
        ]
    }

    open spec fn spec_scalars(self) -> Seq<Scalar> {
        seq![
            Scalar::I32(self.edge_index),
        ]
    }

    open spec fn spec_from_scalars(fs: Seq<Scalar>) -> Self {
        SurfaceEdge {
            edge_index: fs[0].spec_i32(),
        }
    }

    open spec fn spec_size() -> nat {
        4
    }

    open spec fn spec_offsets() -> Seq<int> {
        seq![
            0, 4,
        ]
    }

    proof fn lemma_layout_len() {
        let ks = Self::spec_layout();
        assert(ks.take(0) =~= Seq::<ScalarKind>::empty());
        lemma_field_offset_step(ks, 0);
        assert(ks.take(1) =~= ks);
        assert forall|i: int| 0 <= i <= 1 implies #[trigger] field_offset(ks, i) == Self::spec_offsets()[i] by {
            assert(i == 0 || i == 1);
        }
    }

    proof fn lemma_scalars(self) {
        lemma_kinds_of(self.spec_scalars());
        assert(kinds_of(self.spec_scalars()) =~= Self::spec_layout());
        let r = Self::spec_from_scalars(self.spec_scalars());
        assert(r == self);
    }

    proof fn lemma_from_scalars(fs: Seq<Scalar>) {
        lemma_kinds_of(fs);
        assert(kinds_of(fs)[0] == ScalarKind::I32);
        assert(Self::spec_from_scalars(fs).spec_scalars() =~= fs);
    }

    fn layout() -> (kinds: Vec<ScalarKind>) {
        vec![
            ScalarKind::I32,
        ]
    }

    fn to_scalars(&self) -> (fs: Vec<Scalar>) {
        vec![
            Scalar::I32(self.edge_index),
        ]
    }

    fn from_scalars(fs: &[Scalar]) -> (record: Self) {
        proof {
            lemma_kinds_of(fs@);
        }
        SurfaceEdge {
            edge_index: fs[0].as_i32(),
        }
    }
}

/// In the bytes of a surface edge, every field is stored, little-endian, at its
/// offset in the C layout of the record, and nothing else is stored.
#[verifier::spinoff_prover]
pub proof fn law_surface_edge_bytes(x: SurfaceEdge)
    ensures
        spec_record_to_bytes(x).len() == 4,
        spec_record_to_bytes(x).subrange(0, 4) == u32_le(x.edge_index as u32),
{
    law_record_roundtrip(x);
    lemma_record_field_bytes(x, 0);
}

/// Reading a surface edge from bytes of its size, every field is read,
/// little-endian, from its offset in the C layout of the record.
#[verifier::spinoff_prover]
pub proof fn law_surface_edge_fields(bytes: Seq<u8>)
    requires
        bytes.len() == 4,
    ensures
        ({
            let r = spec_record_from_bytes::<SurfaceEdge>(bytes);
            &&& r.edge_index == le_u32(bytes.subrange(0, 4)) as i32
        }),
{
    lemma_record_field_value::<SurfaceEdge>(bytes, 0);
}

#[derive(Clone, Copy, Debug)]
pub struct Model {
    /// IEEE-754 single-precision bits of each component.
    pub mins: [u32; 3],
    /// IEEE-754 single-precision bits of each component.
    pub maxs: [u32; 3],
    /// IEEE-754 single-precision bits of each component.
    pub origin: [u32; 3],
    pub head_node: i32,
    pub face_index: i32,
    pub face_count: i32,
}

impl Record for Model {
    open spec fn spec_layout() -> Seq<ScalarKind> {
        seq![
            ScalarKind::U32, ScalarKind::U32, ScalarKind::U32, ScalarKind::U32, ScalarKind::U32, ScalarKind::U32,
            ScalarKind::U32, ScalarKind::U32, ScalarKind::U32, ScalarKind::I32, ScalarKind::I32, ScalarKind::I32,
        ]
    }

    open spec fn spec_scalars(self) -> Seq<Scalar> {
        seq![
            Scalar::U32(self.mins[0]), Scalar::U32(self.mins[1]),
            Scalar::U32(self.mins[2]), Scalar::U32(self.maxs[0]),
            Scalar::U32(self.maxs[1]), Scalar::U32(self.maxs[2]),
            Scalar::U32(self.origin[0]), Scalar::U32(self.origin[1]),
            Scalar::U32(self.origin[2]), Scalar::I32(self.head_node),
            Scalar::I32(self.face_index), Scalar::I32(self.face_count),
        ]
    }

    open spec fn spec_from_scalars(fs: Seq<Scalar>) -> Self {
        Model {
            mins: [fs[0].spec_u32(), fs[1].spec_u32(), fs[2].spec_u32()],
            maxs: [fs[3].spec_u32(), fs[4].spec_u32(), fs[5].spec_u32()],
            origin: [fs[6].spec_u32(), fs[7].spec_u32(), fs[8].spec_u32()],
            head_node: fs[9].spec_i32(),
            face_index: fs[10].spec_i32(),
            face_count: fs[11].spec_i32(),
        }
    }

    open spec fn spec_size() -> nat {
        48
    }

    open spec fn spec_offsets() -> Seq<int> {
        seq![
            0, 4, 8, 12, 16, 20, 24, 28, 32, 36, 40, 44,
            48,
        ]
    }

    proof fn lemma_layout_len() {
        let ks = Self::spec_layout();
        assert(ks.take(0) =~= Seq::<ScalarKind>::empty());
        lemma_field_offset_step(ks, 0);
        lemma_field_offset_step(ks, 1);
        lemma_field_offset_step(ks, 2);
        lemma_field_offset_step(ks, 3);
        lemma_field_offset_step(ks, 4);
        lemma_field_offset_step(ks, 5);
        lemma_field_offset_step(ks, 6);
        lemma_field_offset_step(ks, 7);
        lemma_field_offset_step(ks, 8);
        lemma_field_offset_step(ks, 9);
        lemma_field_offset_step(ks, 10);
        lemma_field_offset_step(ks, 11);
        assert(ks.take(12) =~= ks);
        assert forall|i: int| 0 <= i <= 12 implies #[trigger] field_offset(ks, i) == Self::spec_offsets()[i] by {
            assert(i == 0 || i == 1 || i == 2 || i == 3 || i == 4 || i == 5 || i == 6 || i == 7 || i == 8 || i == 9 || i == 10 || i == 11 || i == 12);
        }
    }

    proof fn lemma_scalars(self) {
        lemma_kinds_of(self.spec_scalars());
        assert(kinds_of(self.spec_scalars()) =~= Self::spec_layout());
        let r = Self::spec_from_scalars(self.spec_scalars());
        assert(r.mins =~= self.mins);
        assert(r.maxs =~= self.maxs);
        assert(r.origin =~= self.origin);
        assert(r == self);
    }

    proof fn lemma_from_scalars(fs: Seq<Scalar>) {
        lemma_kinds_of(fs);
        assert(kinds_of(fs)[0] == ScalarKind::U32);
        assert(kinds_of(fs)[1] == ScalarKind::U32);
        assert(kinds_of(fs)[2] == ScalarKind::U32);
        assert(kinds_of(fs)[3] == ScalarKind::U32);
        assert(kinds_of(fs)[4] == ScalarKind::U32);
        assert(kinds_of(fs)[5] == ScalarKind::U32);
        assert(kinds_of(fs)[6] == ScalarKind::U32);
        assert(kinds_of(fs)[7] == ScalarKind::U32);
        assert(kinds_of(fs)[8] == ScalarKind::U32);
        assert(kinds_of(fs)[9] == ScalarKind::I32);
        assert(kinds_of(fs)[10] == ScalarKind::I32);
        assert(kinds_of(fs)[11] == ScalarKind::I32);
        assert(Self::spec_from_scalars(fs).spec_scalars() =~= fs);
    }

    fn layout() -> (kinds: Vec<ScalarKind>) {
        vec![
            ScalarKind::U32, ScalarKind::U32, ScalarKind::U32, ScalarKind::U32, ScalarKind::U32, ScalarKind::U32,
            ScalarKind::U32, ScalarKind::U32, ScalarKind::U32, ScalarKind::I32, ScalarKind::I32, ScalarKind::I32,
        ]
    }

    fn to_scalars(&self) -> (fs: Vec<Scalar>) {
        vec![
            Scalar::U32(self.mins[0]), Scalar::U32(self.mins[1]),
            Scalar::U32(self.mins[2]), Scalar::U32(self.maxs[0]),
            Scalar::U32(self.maxs[1]), Scalar::U32(self.maxs[2]),
            Scalar::U32(self.origin[0]), Scalar::U32(self.origin[1]),
            Scalar::U32(self.origin[2]), Scalar::I32(self.head_node),
            Scalar::I32(self.face_index), Scalar::I32(self.face_count),
        ]
    }

    fn from_scalars(fs: &[Scalar]) -> (record: Self) {
        proof {
            lemma_kinds_of(fs@);
        }
        Model {
            mins: [fs[0].as_u32(), fs[1].as_u32(), fs[2].as_u32()],
            maxs: [fs[3].as_u32(), fs[4].as_u32(), fs[5].as_u32()],
            origin: [fs[6].as_u32(), fs[7].as_u32(), fs[8].as_u32()],
            head_node: fs[9].as_i32(),
            face_index: fs[10].as_i32(),
            face_count: fs[11].as_i32(),
        }
    }
}

/// In the bytes of a model, every field is stored, little-endian, at its
/// offset in the C layout of the record, and nothing else is stored.
#[verifier::spinoff_prover]
pub proof fn law_model_bytes(x: Model)
    ensures
        spec_record_to_bytes(x).len() == 48,
        spec_record_to_bytes(x).subrange(0, 4) == u32_le(x.mins[0]),
        spec_record_to_bytes(x).subrange(4, 8) == u32_le(x.mins[1]),
        spec_record_to_bytes(x).subrange(8, 12) == u32_le(x.mins[2]),
        spec_record_to_bytes(x).subrange(12, 16) == u32_le(x.maxs[0]),
        spec_record_to_bytes(x).subrange(16, 20) == u32_le(x.maxs[1]),
        spec_record_to_bytes(x).subrange(20, 24) == u32_le(x.maxs[2]),
        spec_record_to_bytes(x).subrange(24, 28) == u32_le(x.origin[0]),
        spec_record_to_bytes(x).subrange(28, 32) == u32_le(x.origin[1]),
        spec_record_to_bytes(x).subrange(32, 36) == u32_le(x.origin[2]),
        spec_record_to_bytes(x).subrange(36, 40) == u32_le(x.head_node as u32),
        spec_record_to_bytes(x).subrange(40, 44) == u32_le(x.face_index as u32),
        spec_record_to_bytes(x).subrange(44, 48) == u32_le(x.face_count as u32),
{
    law_record_roundtrip(x);
    lemma_record_field_bytes(x, 0);
    lemma_record_field_bytes(x, 1);
    lemma_record_field_bytes(x, 2);
    lemma_record_field_bytes(x, 3);
    lemma_record_field_bytes(x, 4);
    lemma_record_field_bytes(x, 5);
    lemma_record_field_bytes(x, 6);
    lemma_record_field_bytes(x, 7);
    lemma_record_field_bytes(x, 8);
    lemma_record_field_bytes(x, 9);
    lemma_record_field_bytes(x, 10);
    lemma_record_field_bytes(x, 11);
}

/// Reading a model from bytes of its size, every field is read,
/// little-endian, from its offset in the C layout of the record.
#[verifier::spinoff_prover]
pub proof fn law_model_fields(bytes: Seq<u8>)
    requires
        bytes.len() == 48,
    ensures
        ({
            let r = spec_record_from_bytes::<Model>(bytes);
            &&& r.mins[0] == le_u32(bytes.subrange(0, 4))
            &&& r.mins[1] == le_u32(bytes.subrange(4, 8))
            &&& r.mins[2] == le_u32(bytes.subrange(8, 12))
            &&& r.maxs[0] == le_u32(bytes.subrange(12, 16))
            &&& r.maxs[1] == le_u32(bytes.subrange(16, 20))
            &&& r.maxs[2] == le_u32(bytes.subrange(20, 24))
            &&& r.origin[0] == le_u32(bytes.subrange(24, 28))
            &&& r.origin[1] == le_u32(bytes.subrange(28, 32))
            &&& r.origin[2] == le_u32(bytes.subrange(32, 36))
            &&& r.head_node == le_u32(bytes.subrange(36, 40)) as i32
            &&& r.face_index == le_u32(bytes.subrange(40, 44)) as i32
            &&& r.face_count == le_u32(bytes.subrange(44, 48)) as i32
        }),
{
    lemma_record_field_value::<Model>(bytes, 0);
    lemma_record_field_value::<Model>(bytes, 1);
    lemma_record_field_value::<Model>(bytes, 2);
    lemma_record_field_value::<Model>(bytes, 3);
    lemma_record_field_value::<Model>(bytes, 4);
    lemma_record_field_value::<Model>(bytes, 5);
    lemma_record_field_value::<Model>(bytes, 6);
    lemma_record_field_value::<Model>(bytes, 7);
    lemma_record_field_value::<Model>(bytes, 8);
    lemma_record_field_value::<Model>(bytes, 9);
    lemma_record_field_value::<Model>(bytes, 10);
    lemma_record_field_value::<Model>(bytes, 11);
}

#[derive(Clone, Copy, Debug, Default)]
pub struct Brush {
    pub first_side: i32,
    pub num_sides: i32,
    pub contents: i32,
}

impl Record for Brush {
    open spec fn spec_layout() -> Seq<ScalarKind> {
        seq![
            ScalarKind::I32, ScalarKind::I32, ScalarKind::I32,
        ]
    }

    open spec fn spec_scalars(self) -> Seq<Scalar> {
        seq![
            Scalar::I32(self.first_side), Scalar::I32(self.num_sides),
            Scalar::I32(self.contents),
        ]
    }

    open spec fn spec_from_scalars(fs: Seq<Scalar>) -> Self {
        Brush {
            first_side: fs[0].spec_i32(),
            num_sides: fs[1].spec_i32(),
            contents: fs[2].spec_i32(),
        }
    }

    open spec fn spec_size() -> nat {
        12
    }

    open spec fn spec_offsets() -> Seq<int> {
        seq![
            0, 4, 8, 12,
        ]
    }

    proof fn lemma_layout_len() {
        let ks = Self::spec_layout();
        assert(ks.take(0) =~= Seq::<ScalarKind>::empty());
        lemma_field_offset_step(ks, 0);
        lemma_field_offset_step(ks, 1);
        lemma_field_offset_step(ks, 2);
        assert(ks.take(3) =~= ks);
        assert forall|i: int| 0 <= i <= 3 implies #[trigger] field_offset(ks, i) == Self::spec_offsets()[i] by {
            assert(i == 0 || i == 1 || i == 2 || i == 3);
        }
    }

    proof fn lemma_scalars(self) {
        lemma_kinds_of(self.spec_scalars());
        assert(kinds_of(self.spec_scalars()) =~= Self::spec_layout());
        let r = Self::spec_from_scalars(self.spec_scalars());
        assert(r == self);
    }

    proof fn lemma_from_scalars(fs: Seq<Scalar>) {
        lemma_kinds_of(fs);
        assert(kinds_of(fs)[0] == ScalarKind::I32);
        assert(kinds_of(fs)[1] == ScalarKind::I32);
        assert(kinds_of(fs)[2] == ScalarKind::I32);
        assert(Self::spec_from_scalars(fs).spec_scalars() =~= fs);
    }

    fn layout() -> (kinds: Vec<ScalarKind>) {
        vec![
            ScalarKind::I32, ScalarKind::I32, ScalarKind::I32,
        ]
    }

    fn to_scalars(&self) -> (fs: Vec<Scalar>) {
        vec![
            Scalar::I32(self.first_side), Scalar::I32(self.num_sides),
            Scalar::I32(self.contents),
        ]
    }

    fn from_scalars(fs: &[Scalar]) -> (record: Self) {
        proof {
            lemma_kinds_of(fs@);
        }
        Brush {
            first_side: fs[0].as_i32(),
            num_sides: fs[1].as_i32(),
            contents: fs[2].as_i32(),
        }
    }
}

/// In the bytes of a brush, every field is stored, little-endian, at its
/// offset in the C layout of the record, and nothing else is stored.
#[verifier::spinoff_prover]
pub proof fn law_brush_bytes(x: Brush)
    ensures
        spec_record_to_bytes(x).len() == 12,
        spec_record_to_bytes(x).subrange(0, 4) == u32_le(x.first_side as u32),
        spec_record_to_bytes(x).subrange(4, 8) == u32_le(x.num_sides as u32),
        spec_record_to_bytes(x).subrange(8, 12) == u32_le(x.contents as u32),
{
    law_record_roundtrip(x);
    lemma_record_field_bytes(x, 0);
    lemma_record_field_bytes(x, 1);
    lemma_record_field_bytes(x, 2);
}

/// Reading a brush from bytes of its size, every field is read,
/// little-endian, from its offset in the C layout of the record.
#[verifier::spinoff_prover]
pub proof fn law_brush_fields(bytes: Seq<u8>)
    requires
        bytes.len() == 12,
    ensures
        ({
            let r = spec_record_from_bytes::<Brush>(bytes);
            &&& r.first_side == le_u32(bytes.subrange(0, 4)) as i32
            &&& r.num_sides == le_u32(bytes.subrange(4, 8)) as i32
            &&& r.contents == le_u32(bytes.subrange(8, 12)) as i32
        }),
{
    lemma_record_field_value::<Brush>(bytes, 0);
    lemma_record_field_value::<Brush>(bytes, 1);
    lemma_record_field_value::<Brush>(bytes, 2);
}

#[derive(Clone, Copy, Debug, Default)]
pub struct BrushSide {
    pub plane_num: u16,
    pub tex_info: i16,
    pub disp_info: i16,
    pub bevel: i16,
}

impl Record for BrushSide {
    open spec fn spec_layout() -> Seq<ScalarKind> {
        seq![
            ScalarKind::U16, ScalarKind::I16, ScalarKind::I16, ScalarKind::I16,
        ]
    }

    open spec fn spec_scalars(self) -> Seq<Scalar> {
        seq![
            Scalar::U16(self.plane_num), Scalar::I16(self.tex_info),
            Scalar::I16(self.disp_info), Scalar::I16(self.bevel),
        ]
    }

    open spec fn spec_from_scalars(fs: Seq<Scalar>) -> Self {
        BrushSide {
            plane_num: fs[0].spec_u16(),
            tex_info: fs[1].spec_i16(),
            disp_info: fs[2].spec_i16(),
            bevel: fs[3].spec_i16(),
        }
    }

    open spec fn spec_size() -> nat {
        8
    }

    open spec fn spec_offsets() -> Seq<int> {
        seq![
            0, 2, 4, 6, 8,
        ]
    }

    proof fn lemma_layout_len() {
        let ks = Self::spec_layout();
        assert(ks.take(0) =~= Seq::<ScalarKind>::empty());
        lemma_field_offset_step(ks, 0);
        lemma_field_offset_step(ks, 1);
        lemma_field_offset_step(ks, 2);
        lemma_field_offset_step(ks, 3);
        assert(ks.take(4) =~= ks);
        assert forall|i: int| 0 <= i <= 4 implies #[trigger] field_offset(ks, i) == Self::spec_offsets()[i] by {
            assert(i == 0 || i == 1 || i == 2 || i == 3 || i == 4);
        }
    }

    proof fn lemma_scalars(self) {
        lemma_kinds_of(self.spec_scalars());
        assert(kinds_of(self.spec_scalars()) =~= Self::spec_layout());
        let r = Self::spec_from_scalars(self.spec_scalars());
        assert(r == self);
    }

    proof fn lemma_from_scalars(fs: Seq<Scalar>) {
        lemma_kinds_of(fs);
        assert(kinds_of(fs)[0] == ScalarKind::U16);
        assert(kinds_of(fs)[1] == ScalarKind::I16);
        assert(kinds_of(fs)[2] == ScalarKind::I16);
        assert(kinds_of(fs)[3] == ScalarKind::I16);
        assert(Self::spec_from_scalars(fs).spec_scalars() =~= fs);
    }

    fn layout() -> (kinds: Vec<ScalarKind>) {
        vec![
            ScalarKind::U16, ScalarKind::I16, ScalarKind::I16, ScalarKind::I16,
        ]
    }

    fn to_scalars(&self) -> (fs: Vec<Scalar>) {
        vec![
            Scalar::U16(self.plane_num), Scalar::I16(self.tex_info),
            Scalar::I16(self.disp_info), Scalar::I16(self.bevel),
        ]
    }

    fn from_scalars(fs: &[Scalar]) -> (record: Self) {
        proof {
            lemma_kinds_of(fs@);
        }
        BrushSide {
            plane_num: fs[0].as_u16(),
            tex_info: fs[1].as_i16(),
            disp_info: fs[2].as_i16(),
            bevel: fs[3].as_i16(),
        }
    }
}

/// In the bytes of a brush side, every field is stored, little-endian, at its
/// offset in the C layout of the record, and nothing else is stored.
#[verifier::spinoff_prover]
pub proof fn law_brush_side_bytes(x: BrushSide)
    ensures
        spec_record_to_bytes(x).len() == 8,
        spec_record_to_bytes(x).subrange(0, 2) == u16_le(x.plane_num),
        spec_record_to_bytes(x).subrange(2, 4) == u16_le(x.tex_info as u16),
        spec_record_to_bytes(x).subrange(4, 6) == u16_le(x.disp_info as u16),
        spec_record_to_bytes(x).subrange(6, 8) == u16_le(x.bevel as u16),
{
    law_record_roundtrip(x);
    lemma_record_field_bytes(x, 0);
    lemma_record_field_bytes(x, 1);
    lemma_record_field_bytes(x, 2);
    lemma_record_field_bytes(x, 3);
}

/// Reading a brush side from bytes of its size, every field is read,
/// little-endian, from its offset in the C layout of the record.
#[verifier::spinoff_prover]
pub proof fn law_brush_side_fields(bytes: Seq<u8>)
    requires
        bytes.len() == 8,
    ensures
        ({
            let r = spec_record_from_bytes::<BrushSide>(bytes);
            &&& r.plane_num == le_u16(bytes.subrange(0, 2))
            &&& r.tex_info == le_u16(bytes.subrange(2, 4)) as i16
            &&& r.disp_info == le_u16(bytes.subrange(4, 6)) as i16
            &&& r.bevel == le_u16(bytes.subrange(6, 8)) as i16
        }),
{
    lemma_record_field_value::<BrushSide>(bytes, 0);
    lemma_record_field_value::<BrushSide>(bytes, 1);
    lemma_record_field_value::<BrushSide>(bytes, 2);
    lemma_record_field_value::<BrushSide>(bytes, 3);
}

#[derive(Clone, Copy, Debug, Default)]
pub struct Node {
    pub plane_num: i32,
    pub children: [i32; 2],
    pub mins: [i16; 3],
    pub maxs: [i16; 3],
    pub first_face: u16,
    pub num_faces: u16,
    pub area: i16,
    pub _padding: i16,
}

impl Record for Node {
    open spec fn spec_layout() -> Seq<ScalarKind> {
        seq![
            ScalarKind::I32, ScalarKind::I32, ScalarKind::I32, ScalarKind::I16, ScalarKind::I16, ScalarKind::I16,
            ScalarKind::I16, ScalarKind::I16, ScalarKind::I16, ScalarKind::U16, ScalarKind::U16, ScalarKind::I16,
            ScalarKind::I16,
        ]
    }

    open spec fn spec_scalars(self) -> Seq<Scalar> {
        seq![
            Scalar::I32(self.plane_num), Scalar::I32(self.children[0]),
            Scalar::I32(self.children[1]), Scalar::I16(self.mins[0]),
            Scalar::I16(self.mins[1]), Scalar::I16(self.mins[2]),
            Scalar::I16(self.maxs[0]), Scalar::I16(self.maxs[1]),
            Scalar::I16(self.maxs[2]), Scalar::U16(self.first_face),
            Scalar::U16(self.num_faces), Scalar::I16(self.area),
            Scalar::I16(self._padding),
        ]
    }

    open spec fn spec_from_scalars(fs: Seq<Scalar>) -> Self {
        Node {
            plane_num: fs[0].spec_i32(),
            children: [fs[1].spec_i32(), fs[2].spec_i32()],
            mins: [fs[3].spec_i16(), fs[4].spec_i16(), fs[5].spec_i16()],
            maxs: [fs[6].spec_i16(), fs[7].spec_i16(), fs[8].spec_i16()],
            first_face: fs[9].spec_u16(),
            num_faces: fs[10].spec_u16(),
            area: fs[11].spec_i16(),
            _padding: fs[12].spec_i16(),
        }
    }

    open spec fn spec_size() -> nat {
        32
    }

    open spec fn spec_offsets() -> Seq<int> {
        seq![
            0, 4, 8, 12, 14, 16, 18, 20, 22, 24, 26, 28,
            30, 32,
        ]
    }

    proof fn lemma_layout_len() {
        let ks = Self::spec_layout();
        assert(ks.take(0) =~= Seq::<ScalarKind>::empty());
        lemma_field_offset_step(ks, 0);
        lemma_field_offset_step(ks, 1);
        lemma_field_offset_step(ks, 2);
        lemma_field_offset_step(ks, 3);
        lemma_field_offset_step(ks, 4);
        lemma_field_offset_step(ks, 5);
        lemma_field_offset_step(ks, 6);
        lemma_field_offset_step(ks, 7);
        lemma_field_offset_step(ks, 8);
        lemma_field_offset_step(ks, 9);
        lemma_field_offset_step(ks, 10);
        lemma_field_offset_step(ks, 11);
        lemma_field_offset_step(ks, 12);
        assert(ks.take(13) =~= ks);
        assert forall|i: int| 0 <= i <= 13 implies #[trigger] field_offset(ks, i) == Self::spec_offsets()[i] by {
            assert(i == 0 || i == 1 || i == 2 || i == 3 || i == 4 || i == 5 || i == 6 || i == 7 || i == 8 || i == 9 || i == 10 || i == 11 || i == 12 || i == 13);
        }
    }

    proof fn lemma_scalars(self) {
        lemma_kinds_of(self.spec_scalars());
        assert(kinds_of(self.spec_scalars()) =~= Self::spec_layout());
        let r = Self::spec_from_scalars(self.spec_scalars());
        assert(r.children =~= self.children);
        assert(r.mins =~= self.mins);
        assert(r.maxs =~= self.maxs);
        assert(r == self);
    }

    proof fn lemma_from_scalars(fs: Seq<Scalar>) {
        lemma_kinds_of(fs);
        assert(kinds_of(fs)[0] == ScalarKind::I32);
        assert(kinds_of(fs)[1] == ScalarKind::I32);
        assert(kinds_of(fs)[2] == ScalarKind::I32);
        assert(kinds_of(fs)[3] == ScalarKind::I16);
        assert(kinds_of(fs)[4] == ScalarKind::I16);
        assert(kinds_of(fs)[5] == ScalarKind::I16);
        assert(kinds_of(fs)[6] == ScalarKind::I16);
        assert(kinds_of(fs)[7] == ScalarKind::I16);
        assert(kinds_of(fs)[8] == ScalarKind::I16);
        assert(kinds_of(fs)[9] == ScalarKind::U16);
        assert(kinds_of(fs)[10] == ScalarKind::U16);
        assert(kinds_of(fs)[11] == ScalarKind::I16);
        assert(kinds_of(fs)[12] == ScalarKind::I16);
        assert(Self::spec_from_scalars(fs).spec_scalars() =~= fs);
    }

    fn layout() -> (kinds: Vec<ScalarKind>) {
        vec![
            ScalarKind::I32, ScalarKind::I32, ScalarKind::I32, ScalarKind::I16, ScalarKind::I16, ScalarKind::I16,
            ScalarKind::I16, ScalarKind::I16, ScalarKind::I16, ScalarKind::U16, ScalarKind::U16, ScalarKind::I16,
            ScalarKind::I16,
        ]
    }

    fn to_scalars(&self) -> (fs: Vec<Scalar>) {
        vec![
            Scalar::I32(self.plane_num), Scalar::I32(self.children[0]),
            Scalar::I32(self.children[1]), Scalar::I16(self.mins[0]),
            Scalar::I16(self.mins[1]), Scalar::I16(self.mins[2]),
            Scalar::I16(self.maxs[0]), Scalar::I16(self.maxs[1]),
            Scalar::I16(self.maxs[2]), Scalar::U16(self.first_face),
            Scalar::U16(self.num_faces), Scalar::I16(self.area),
            Scalar::I16(self._padding),
        ]
    }

    fn from_scalars(fs: &[Scalar]) -> (record: Self) {
        proof {
            lemma_kinds_of(fs@);
        }
        Node {
            plane_num: fs[0].as_i32(),
            children: [fs[1].as_i32(), fs[2].as_i32()],
            mins: [fs[3].as_i16(), fs[4].as_i16(), fs[5].as_i16()],
            maxs: [fs[6].as_i16(), fs[7].as_i16(), fs[8].as_i16()],
            first_face: fs[9].as_u16(),
            num_faces: fs[10].as_u16(),
            area: fs[11].as_i16(),
            _padding: fs[12].as_i16(),
        }
    }
}

/// In the bytes of a node, every field is stored, little-endian, at its
/// offset in the C layout of the record, and nothing else is stored.
#[verifier::spinoff_prover]
pub proof fn law_node_bytes(x: Node)
    ensures
        spec_record_to_bytes(x).len() == 32,
        spec_record_to_bytes(x).subrange(0, 4) == u32_le(x.plane_num as u32),
        spec_record_to_bytes(x).subrange(4, 8) == u32_le(x.children[0] as u32),
        spec_record_to_bytes(x).subrange(8, 12) == u32_le(x.children[1] as u32),
        spec_record_to_bytes(x).subrange(12, 14) == u16_le(x.mins[0] as u16),
        spec_record_to_bytes(x).subrange(14, 16) == u16_le(x.mins[1] as u16),
        spec_record_to_bytes(x).subrange(16, 18) == u16_le(x.mins[2] as u16),
        spec_record_to_bytes(x).subrange(18, 20) == u16_le(x.maxs[0] as u16),
        spec_record_to_bytes(x).subrange(20, 22) == u16_le(x.maxs[1] as u16),
        spec_record_to_bytes(x).subrange(22, 24) == u16_le(x.maxs[2] as u16),
        spec_record_to_bytes(x).subrange(24, 26) == u16_le(x.first_face),
        spec_record_to_bytes(x).subrange(26, 28) == u16_le(x.num_faces),
        spec_record_to_bytes(x).subrange(28, 30) == u16_le(x.area as u16),
        spec_record_to_bytes(x).subrange(30, 32) == u16_le(x._padding as u16),
{
    law_record_roundtrip(x);
    lemma_record_field_bytes(x, 0);
    lemma_record_field_bytes(x, 1);
    lemma_record_field_bytes(x, 2);
    lemma_record_field_bytes(x, 3);
    lemma_record_field_bytes(x, 4);
    lemma_record_field_bytes(x, 5);
    lemma_record_field_bytes(x, 6);
    lemma_record_field_bytes(x, 7);
    lemma_record_field_bytes(x, 8);
    lemma_record_field_bytes(x, 9);
    lemma_record_field_bytes(x, 10);
    lemma_record_field_bytes(x, 11);
    lemma_record_field_bytes(x, 12);
}

/// Reading a node from bytes of its size, every field is read,
/// little-endian, from its offset in the C layout of the record.
#[verifier::spinoff_prover]
pub proof fn law_node_fields(bytes: Seq<u8>)
    requires
        bytes.len() == 32,
    ensures
        ({
            let r = spec_record_from_bytes::<Node>(bytes);
            &&& r.plane_num == le_u32(bytes.subrange(0, 4)) as i32
            &&& r.children[0] == le_u32(bytes.subrange(4, 8)) as i32
            &&& r.children[1] == le_u32(bytes.subrange(8, 12)) as i32
            &&& r.mins[0] == le_u16(bytes.subrange(12, 14)) as i16
            &&& r.mins[1] == le_u16(bytes.subrange(14, 16)) as i16
            &&& r.mins[2] == le_u16(bytes.subrange(16, 18)) as i16
            &&& r.maxs[0] == le_u16(bytes.subrange(18, 20)) as i16
            &&& r.maxs[1] == le_u16(bytes.subrange(20, 22)) as i16
            &&& r.maxs[2] == le_u16(bytes.subrange(22, 24)) as i16
            &&& r.first_face == le_u16(bytes.subrange(24, 26))
            &&& r.num_faces == le_u16(bytes.subrange(26, 28))
            &&& r.area == le_u16(bytes.subrange(28, 30)) as i16
            &&& r._padding == le_u16(bytes.subrange(30, 32)) as i16
        }),
{
    lemma_record_field_value::<Node>(bytes, 0);
    lemma_record_field_value::<Node>(bytes, 1);
    lemma_record_field_value::<Node>(bytes, 2);
    lemma_record_field_value::<Node>(bytes, 3);
    lemma_record_field_value::<Node>(bytes, 4);
    lemma_record_field_value::<Node>(bytes, 5);
    lemma_record_field_value::<Node>(bytes, 6);
    lemma_record_field_value::<Node>(bytes, 7);
    lemma_record_field_value::<Node>(bytes, 8);
    lemma_record_field_value::<Node>(bytes, 9);
    lemma_record_field_value::<Node>(bytes, 10);
    lemma_record_field_value::<Node>(bytes, 11);
    lemma_record_field_value::<Node>(bytes, 12);
}

#[derive(Clone, Copy, Debug, Default)]
pub struct Leaf {
    pub contents: i32,
    pub cluster: i16,
    pub area_flags: AreaFlags,
    pub mins: [i16; 3],
    pub maxs: [i16; 3],
    pub first_leaf_face: u16,
    pub num_leaf_faces: u16,
    pub first_leaf_brush: u16,
    pub num_leaf_brushes: u16,
    pub leaf_water_data_id: i16,
    pub _padding: i16,
}

impl Record for Leaf {
    open spec fn spec_layout() -> Seq<ScalarKind> {
        seq![
            ScalarKind::I32, ScalarKind::I16, ScalarKind::I16, ScalarKind::I16, ScalarKind::I16, ScalarKind::I16,
            ScalarKind::I16, ScalarKind::I16, ScalarKind::I16, ScalarKind::U16, ScalarKind::U16, ScalarKind::U16,
            ScalarKind::U16, ScalarKind::I16, ScalarKind::I16,
        ]
    }

    open spec fn spec_scalars(self) -> Seq<Scalar> {
        seq![
            Scalar::I32(self.contents), Scalar::I16(self.cluster),
            Scalar::I16(self.area_flags.spec_raw()), Scalar::I16(self.mins[0]),
            Scalar::I16(self.mins[1]), Scalar::I16(self.mins[2]),
            Scalar::I16(self.maxs[0]), Scalar::I16(self.maxs[1]),
            Scalar::I16(self.maxs[2]), Scalar::U16(self.first_leaf_face),
            Scalar::U16(self.num_leaf_faces), Scalar::U16(self.first_leaf_brush),
            Scalar::U16(self.num_leaf_brushes), Scalar::I16(self.leaf_water_data_id),
            Scalar::I16(self._padding),
        ]
    }

    open spec fn spec_from_scalars(fs: Seq<Scalar>) -> Self {
        Leaf {
            contents: fs[0].spec_i32(),
            cluster: fs[1].spec_i16(),
            area_flags: AreaFlags::spec_from_raw(fs[2].spec_i16()),
            mins: [fs[3].spec_i16(), fs[4].spec_i16(), fs[5].spec_i16()],
            maxs: [fs[6].spec_i16(), fs[7].spec_i16(), fs[8].spec_i16()],
            first_leaf_face: fs[9].spec_u16(),
            num_leaf_faces: fs[10].spec_u16(),
            first_leaf_brush: fs[11].spec_u16(),
            num_leaf_brushes: fs[12].spec_u16(),
            leaf_water_data_id: fs[13].spec_i16(),
            _padding: fs[14].spec_i16(),
        }
    }

    open spec fn spec_size() -> nat {
        32
    }

    open spec fn spec_offsets() -> Seq<int> {
        seq![
            0, 4, 6, 8, 10, 12, 14, 16, 18, 20, 22, 24,
            26, 28, 30, 32,
        ]
    }

    proof fn lemma_layout_len() {
        let ks = Self::spec_layout();
        assert(ks.take(0) =~= Seq::<ScalarKind>::empty());
        lemma_field_offset_step(ks, 0);
        lemma_field_offset_step(ks, 1);
        lemma_field_offset_step(ks, 2);
        lemma_field_offset_step(ks, 3);
        lemma_field_offset_step(ks, 4);
        lemma_field_offset_step(ks, 5);
        lemma_field_offset_step(ks, 6);
        lemma_field_offset_step(ks, 7);
        lemma_field_offset_step(ks, 8);
        lemma_field_offset_step(ks, 9);
        lemma_field_offset_step(ks, 10);
        lemma_field_offset_step(ks, 11);
        lemma_field_offset_step(ks, 12);
        lemma_field_offset_step(ks, 13);
        lemma_field_offset_step(ks, 14);
        assert(ks.take(15) =~= ks);
        assert forall|i: int| 0 <= i <= 15 implies #[trigger] field_offset(ks, i) == Self::spec_offsets()[i] by {
            assert(i == 0 || i == 1 || i == 2 || i == 3 || i == 4 || i == 5 || i == 6 || i == 7 || i == 8 || i == 9 || i == 10 || i == 11 || i == 12 || i == 13 || i == 14 || i == 15);
        }
    }

    proof fn lemma_scalars(self) {
        lemma_kinds_of(self.spec_scalars());
        assert(kinds_of(self.spec_scalars()) =~= Self::spec_layout());
        let r = Self::spec_from_scalars(self.spec_scalars());
        self.area_flags.lemma_raw();
        assert(r.mins =~= self.mins);
        assert(r.maxs =~= self.maxs);
        assert(r == self);
    }

    proof fn lemma_from_scalars(fs: Seq<Scalar>) {
        lemma_kinds_of(fs);
        assert(kinds_of(fs)[0] == ScalarKind::I32);
        assert(kinds_of(fs)[1] == ScalarKind::I16);
        assert(kinds_of(fs)[2] == ScalarKind::I16);
        assert(kinds_of(fs)[3] == ScalarKind::I16);
        assert(kinds_of(fs)[4] == ScalarKind::I16);
        assert(kinds_of(fs)[5] == ScalarKind::I16);
        assert(kinds_of(fs)[6] == ScalarKind::I16);
        assert(kinds_of(fs)[7] == ScalarKind::I16);
        assert(kinds_of(fs)[8] == ScalarKind::I16);
        assert(kinds_of(fs)[9] == ScalarKind::U16);
        assert(kinds_of(fs)[10] == ScalarKind::U16);
        assert(kinds_of(fs)[11] == ScalarKind::U16);
        assert(kinds_of(fs)[12] == ScalarKind::U16);
        assert(kinds_of(fs)[13] == ScalarKind::I16);
        assert(kinds_of(fs)[14] == ScalarKind::I16);
        AreaFlags::lemma_from_raw(fs[2].spec_i16());
        assert(Self::spec_from_scalars(fs).spec_scalars() =~= fs);
    }

    fn layout() -> (kinds: Vec<ScalarKind>) {
        vec![
            ScalarKind::I32, ScalarKind::I16, ScalarKind::I16, ScalarKind::I16, ScalarKind::I16, ScalarKind::I16,
            ScalarKind::I16, ScalarKind::I16, ScalarKind::I16, ScalarKind::U16, ScalarKind::U16, ScalarKind::U16,
            ScalarKind::U16, ScalarKind::I16, ScalarKind::I16,
        ]
    }

    fn to_scalars(&self) -> (fs: Vec<Scalar>) {
        vec![
            Scalar::I32(self.contents), Scalar::I16(self.cluster),
            Scalar::I16(self.area_flags.raw()), Scalar::I16(self.mins[0]),
            Scalar::I16(self.mins[1]), Scalar::I16(self.mins[2]),
            Scalar::I16(self.maxs[0]), Scalar::I16(self.maxs[1]),
            Scalar::I16(self.maxs[2]), Scalar::U16(self.first_leaf_face),
            Scalar::U16(self.num_leaf_faces), Scalar::U16(self.first_leaf_brush),
            Scalar::U16(self.num_leaf_brushes), Scalar::I16(self.leaf_water_data_id),
            Scalar::I16(self._padding),
        ]
    }

    fn from_scalars(fs: &[Scalar]) -> (record: Self) {
        proof {
            lemma_kinds_of(fs@);
        }
        Leaf {
            contents: fs[0].as_i32(),
            cluster: fs[1].as_i16(),
            area_flags: AreaFlags::from_raw(fs[2].as_i16()),
            mins: [fs[3].as_i16(), fs[4].as_i16(), fs[5].as_i16()],
            maxs: [fs[6].as_i16(), fs[7].as_i16(), fs[8].as_i16()],
            first_leaf_face: fs[9].as_u16(),
            num_leaf_faces: fs[10].as_u16(),
            first_leaf_brush: fs[11].as_u16(),
            num_leaf_brushes: fs[12].as_u16(),
            leaf_water_data_id: fs[13].as_i16(),
            _padding: fs[14].as_i16(),
        }
    }
}

/// In the bytes of a leaf, every field is stored, little-endian, at its
/// offset in the C layout of the record, and nothing else is stored.
#[verifier::spinoff_prover]
pub proof fn law_leaf_bytes(x: Leaf)
    ensures
        spec_record_to_bytes(x).len() == 32,
        spec_record_to_bytes(x).subrange(0, 4) == u32_le(x.contents as u32),
        spec_record_to_bytes(x).subrange(4, 6) == u16_le(x.cluster as u16),
        spec_record_to_bytes(x).subrange(6, 8) == u16_le(x.area_flags.spec_raw() as u16),
        spec_record_to_bytes(x).subrange(8, 10) == u16_le(x.mins[0] as u16),
        spec_record_to_bytes(x).subrange(10, 12) == u16_le(x.mins[1] as u16),
        spec_record_to_bytes(x).subrange(12, 14) == u16_le(x.mins[2] as u16),
        spec_record_to_bytes(x).subrange(14, 16) == u16_le(x.maxs[0] as u16),
        spec_record_to_bytes(x).subrange(16, 18) == u16_le(x.maxs[1] as u16),
        spec_record_to_bytes(x).subrange(18, 20) == u16_le(x.maxs[2] as u16),
        spec_record_to_bytes(x).subrange(20, 22) == u16_le(x.first_leaf_face),
        spec_record_to_bytes(x).subrange(22, 24) == u16_le(x.num_leaf_faces),
        spec_record_to_bytes(x).subrange(24, 26) == u16_le(x.first_leaf_brush),
        spec_record_to_bytes(x).subrange(26, 28) == u16_le(x.num_leaf_brushes),
        spec_record_to_bytes(x).subrange(28, 30) == u16_le(x.leaf_water_data_id as u16),
        spec_record_to_bytes(x).subrange(30, 32) == u16_le(x._padding as u16),
{
    law_record_roundtrip(x);
    lemma_record_field_bytes(x, 0);
    lemma_record_field_bytes(x, 1);
    lemma_record_field_bytes(x, 2);
    lemma_record_field_bytes(x, 3);
    lemma_record_field_bytes(x, 4);
    lemma_record_field_bytes(x, 5);
    lemma_record_field_bytes(x, 6);
    lemma_record_field_bytes(x, 7);
    lemma_record_field_bytes(x, 8);
    lemma_record_field_bytes(x, 9);
    lemma_record_field_bytes(x, 10);
    lemma_record_field_bytes(x, 11);
    lemma_record_field_bytes(x, 12);
    lemma_record_field_bytes(x, 13);
    lemma_record_field_bytes(x, 14);
}

/// Reading a leaf from bytes of its size, every field is read,
/// little-endian, from its offset in the C layout of the record.
#[verifier::spinoff_prover]
pub proof fn law_leaf_fields(bytes: Seq<u8>)
    requires
        bytes.len() == 32,
    ensures
        ({
            let r = spec_record_from_bytes::<Leaf>(bytes);
            &&& r.contents == le_u32(bytes.subrange(0, 4)) as i32
            &&& r.cluster == le_u16(bytes.subrange(4, 6)) as i16
            &&& r.area_flags == AreaFlags::spec_from_raw(le_u16(bytes.subrange(6, 8)) as i16)
            &&& r.mins[0] == le_u16(bytes.subrange(8, 10)) as i16
            &&& r.mins[1] == le_u16(bytes.subrange(10, 12)) as i16
            &&& r.mins[2] == le_u16(bytes.subrange(12, 14)) as i16
            &&& r.maxs[0] == le_u16(bytes.subrange(14, 16)) as i16
            &&& r.maxs[1] == le_u16(bytes.subrange(16, 18)) as i16
            &&& r.maxs[2] == le_u16(bytes.subrange(18, 20)) as i16
            &&& r.first_leaf_face == le_u16(bytes.subrange(20, 22))
            &&& r.num_leaf_faces == le_u16(bytes.subrange(22, 24))
            &&& r.first_leaf_brush == le_u16(bytes.subrange(24, 26))
            &&& r.num_leaf_brushes == le_u16(bytes.subrange(26, 28))
            &&& r.leaf_water_data_id == le_u16(bytes.subrange(28, 30)) as i16
            &&& r._padding == le_u16(bytes.subrange(30, 32)) as i16
        }),
{
    lemma_record_field_value::<Leaf>(bytes, 0);
    lemma_record_field_value::<Leaf>(bytes, 1);
    lemma_record_field_value::<Leaf>(bytes, 2);
    lemma_record_field_value::<Leaf>(bytes, 3);
    lemma_record_field_value::<Leaf>(bytes, 4);
    lemma_record_field_value::<Leaf>(bytes, 5);
    lemma_record_field_value::<Leaf>(bytes, 6);
    lemma_record_field_value::<Leaf>(bytes, 7);
    lemma_record_field_value::<Leaf>(bytes, 8);
    lemma_record_field_value::<Leaf>(bytes, 9);
    lemma_record_field_value::<Leaf>(bytes, 10);
    lemma_record_field_value::<Leaf>(bytes, 11);
    lemma_record_field_value::<Leaf>(bytes, 12);
    lemma_record_field_value::<Leaf>(bytes, 13);
    lemma_record_field_value::<Leaf>(bytes, 14);
}

impl Record for AreaFlags {
    open spec fn spec_layout() -> Seq<ScalarKind> {
        seq![
            ScalarKind::I16,
        ]
    }

    open spec fn spec_scalars(self) -> Seq<Scalar> {
        seq![
            Scalar::I16(self.spec_raw()),
        ]
    }

    open spec fn spec_from_scalars(fs: Seq<Scalar>) -> Self {
        AreaFlags::spec_from_raw(fs[0].spec_i16())
    }

    open spec fn spec_size() -> nat {
        2
    }

    open spec fn spec_offsets() -> Seq<int> {
        seq![
            0, 2,
        ]
    }

    proof fn lemma_layout_len() {
        let ks = Self::spec_layout();
        assert(ks.take(0) =~= Seq::<ScalarKind>::empty());
        lemma_field_offset_step(ks, 0);
        assert(ks.take(1) =~= ks);
        assert forall|i: int| 0 <= i <= 1 implies #[trigger] field_offset(ks, i) == Self::spec_offsets()[i] by {
            assert(i == 0 || i == 1);
        }
    }

    proof fn lemma_scalars(self) {
        lemma_kinds_of(self.spec_scalars());
        assert(kinds_of(self.spec_scalars()) =~= Self::spec_layout());
        let r = Self::spec_from_scalars(self.spec_scalars());
        self.lemma_raw();
        assert(r == self);
    }

    proof fn lemma_from_scalars(fs: Seq<Scalar>) {
        lemma_kinds_of(fs);
        assert(kinds_of(fs)[0] == ScalarKind::I16);
        AreaFlags::lemma_from_raw(fs[0].spec_i16());
        assert(Self::spec_from_scalars(fs).spec_scalars() =~= fs);
    }

    fn layout() -> (kinds: Vec<ScalarKind>) {
        vec![
            ScalarKind::I16,
        ]
    }

    fn to_scalars(&self) -> (fs: Vec<Scalar>) {
        vec![
            Scalar::I16(self.raw()),
        ]
    }

    fn from_scalars(fs: &[Scalar]) -> (record: Self) {
        proof {
            lemma_kinds_of(fs@);
        }
        AreaFlags::from_raw(fs[0].as_i16())
    }
}

/// In the bytes of packed area and flags, every field is stored, little-endian, at its
/// offset in the C layout of the record, and nothing else is stored.
#[verifier::spinoff_prover]
pub proof fn law_area_flags_bytes(x: AreaFlags)
    ensures
        spec_record_to_bytes(x).len() == 2,
        spec_record_to_bytes(x).subrange(0, 2) == u16_le(x.spec_raw() as u16),
{
    law_record_roundtrip(x);
    lemma_record_field_bytes(x, 0);
}

/// Reading packed area and flags from bytes of its size, every field is read,
/// little-endian, from its offset in the C layout of the record.
#[verifier::spinoff_prover]
pub proof fn law_area_flags_fields(bytes: Seq<u8>)
    requires
        bytes.len() == 2,
    ensures
        ({
            let r = spec_record_from_bytes::<AreaFlags>(bytes);
            &&& r == AreaFlags::spec_from_raw(le_u16(bytes.subrange(0, 2)) as i16)
        }),
{
    lemma_record_field_value::<AreaFlags>(bytes, 0);
}

} // verus!
