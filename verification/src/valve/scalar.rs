//! Little-endian layout of the scalar fields that records are made of.
//!
//! A record is laid out as its scalar fields one after the other, without
//! padding, each in little-endian byte order. A layout is the sequence of the
//! kinds of those fields.
use vstd::prelude::*;
use vstd::slice::slice_subrange;

verus! {

/// The unsigned value of two bytes, least significant first.
pub open spec fn le_u16(b: Seq<u8>) -> u16 {
    (b[0] + 256 * b[1]) as u16
}

/// The unsigned value of four bytes, least significant first.
pub open spec fn le_u32(b: Seq<u8>) -> u32 {
    (b[0] + 256 * b[1] + 65536 * b[2] + 16777216 * b[3]) as u32
}

/// The two bytes of a value, least significant first.
pub open spec fn u16_le(x: u16) -> Seq<u8> {
    seq![(x % 256) as u8, (x / 256) as u8]
}

/// The four bytes of a value, least significant first.
pub open spec fn u32_le(x: u32) -> Seq<u8> {
    seq![
        (x % 256) as u8,
        ((x / 256) % 256) as u8,
        ((x / 65536) % 256) as u8,
        (x / 16777216) as u8,
    ]
}

/// Writing then reading two bytes gives the value back.
proof fn lemma_u16_le_roundtrip(x: u16)
    ensures
        u16_le(x).len() == 2,
        le_u16(u16_le(x)) == x,
{
    assert((x % 256) as u8 + 256 * ((x / 256) as u8) == x) by (bit_vector);
}

/// Writing then reading four bytes gives the value back.
proof fn lemma_u32_le_roundtrip(x: u32)
    ensures
        u32_le(x).len() == 4,
        le_u32(u32_le(x)) == x,
{
    assert((x % 256) as u8 + 256 * (((x / 256) % 256) as u8) + 65536 * (((x / 65536) % 256) as u8)
        + 16777216 * ((x / 16777216) as u8) == x) by (bit_vector);
}

/// Reading then writing two or four bytes gives them back.
proof fn lemma_le_bytes_roundtrip(b: Seq<u8>)
    ensures
        b.len() == 2 ==> u16_le(le_u16(b)) == b,
        b.len() == 4 ==> u32_le(le_u32(b)) == b,
{
    if b.len() == 2 {
        let (b0, b1) = (b[0], b[1]);
        assert(((b0 + 256 * b1) as u16 % 256) as u8 == b0 && ((b0 + 256 * b1) as u16 / 256) as u8 == b1)
            by (bit_vector);
        assert(u16_le(le_u16(b)) =~= b);
    }
    if b.len() == 4 {
        let (b0, b1, b2, b3) = (b[0], b[1], b[2], b[3]);
        assert({
            let x = (b0 + 256 * b1 + 65536 * b2 + 16777216 * b3) as u32;
            &&& (x % 256) as u8 == b0
            &&& ((x / 256) % 256) as u8 == b1
            &&& ((x / 65536) % 256) as u8 == b2
            &&& (x / 16777216) as u8 == b3
        }) by (bit_vector);
        assert(u32_le(le_u32(b)) =~= b);
    }
}

/// Values are stored least significant byte first: the bytes of a value,
/// weighted by increasing powers of 256, sum to it, and bytes are read back
/// with the same weights.
pub proof fn law_little_endian(x: u16, y: u32, b: Seq<u8>)
    ensures
        u16_le(x).len() == 2,
        u16_le(x)[0] + 256 * u16_le(x)[1] == x,
        u32_le(y).len() == 4,
        u32_le(y)[0] + 256 * u32_le(y)[1] + 65536 * u32_le(y)[2] + 16777216 * u32_le(y)[3] == y,
        b.len() == 2 ==> le_u16(b) == b[0] + 256 * b[1],
        b.len() == 4 ==> le_u32(b) == b[0] + 256 * b[1] + 65536 * b[2] + 16777216 * b[3],
{
    lemma_u16_le_roundtrip(x);
    lemma_u32_le_roundtrip(y);
}

/// The value of the first two bytes of `b`.
fn read_u16(b: &[u8]) -> (x: u16)
    requires
        b@.len() == 2,
    ensures
        x == le_u16(b@),
{
    b[0] as u16 + 256 * (b[1] as u16)
}

/// The value of the first four bytes of `b`.
fn read_u32(b: &[u8]) -> (x: u32)
    requires
        b@.len() == 4,
    ensures
        x == le_u32(b@),
{
    b[0] as u32 + 256 * (b[1] as u32) + 65536 * (b[2] as u32) + 16777216 * (b[3] as u32)
}

/// The two bytes of `x`, least significant first.
fn write_u16(x: u16) -> (b: Vec<u8>)
    ensures
        b@ == u16_le(x),
{
    vec![(x % 256) as u8, (x / 256) as u8]
}

/// The four bytes of `x`, least significant first.
fn write_u32(x: u32) -> (b: Vec<u8>)
    ensures
        b@ == u32_le(x),
{
    vec![(x % 256) as u8, ((x / 256) % 256) as u8, ((x / 65536) % 256) as u8, (x / 16777216) as u8]
}

/// The kind of a scalar field, which fixes its width.
#[derive(Clone, Copy, Debug, PartialEq, Eq, Structural)]
pub enum ScalarKind {
    U8,
    I8,
    U16,
    I16,
    U32,
    I32,
}

/// A scalar field value.
#[derive(Clone, Copy, Debug, PartialEq, Eq, Structural)]
pub enum Scalar {
    U8(u8),
    I8(i8),
    U16(u16),
    I16(i16),
    U32(u32),
    I32(i32),
}

impl ScalarKind {
    /// Width in bytes of a field of this kind.
    pub open spec fn spec_size(self) -> nat {
        match self {
            ScalarKind::U8 | ScalarKind::I8 => 1,
            ScalarKind::U16 | ScalarKind::I16 => 2,
            ScalarKind::U32 | ScalarKind::I32 => 4,
        }
    }

    pub fn size(self) -> (n: usize)
        ensures
            n == self.spec_size(),
    {
        match self {
            ScalarKind::U8 | ScalarKind::I8 => 1,
            ScalarKind::U16 | ScalarKind::I16 => 2,
            ScalarKind::U32 | ScalarKind::I32 => 4,
        }
    }
}

impl Scalar {
    pub open spec fn kind(self) -> ScalarKind {
        match self {
            Scalar::U8(_) => ScalarKind::U8,
            Scalar::I8(_) => ScalarKind::I8,
            Scalar::U16(_) => ScalarKind::U16,
            Scalar::I16(_) => ScalarKind::I16,
            Scalar::U32(_) => ScalarKind::U32,
            Scalar::I32(_) => ScalarKind::I32,
        }
    }

    /// The little-endian bytes of this value; signed values are stored in
    /// two's complement.
    pub open spec fn spec_to_bytes(self) -> Seq<u8> {
        match self {
            Scalar::U8(x) => seq![x],
            Scalar::I8(x) => seq![x as u8],
            Scalar::U16(x) => u16_le(x),
            Scalar::I16(x) => u16_le(x as u16),
            Scalar::U32(x) => u32_le(x),
            Scalar::I32(x) => u32_le(x as u32),
        }
    }

    /// The value of kind `kind` that the little-endian bytes `b` hold.
    pub open spec fn spec_from_bytes(kind: ScalarKind, b: Seq<u8>) -> Scalar {
        match kind {
            ScalarKind::U8 => Scalar::U8(b[0]),
            ScalarKind::I8 => Scalar::I8(b[0] as i8),
            ScalarKind::U16 => Scalar::U16(le_u16(b)),
            ScalarKind::I16 => Scalar::I16(le_u16(b) as i16),
            ScalarKind::U32 => Scalar::U32(le_u32(b)),
            ScalarKind::I32 => Scalar::I32(le_u32(b) as i32),
        }
    }

    /// The unsigned byte held, or zero for another kind.
    pub open spec fn spec_u8(self) -> u8 {
        match self {
            Scalar::U8(x) => x,
            _ => 0,
        }
    }

    pub open spec fn spec_i8(self) -> i8 {
        match self {
            Scalar::I8(x) => x,
            _ => 0,
        }
    }

    pub open spec fn spec_u16(self) -> u16 {
        match self {
            Scalar::U16(x) => x,
            _ => 0,
        }
    }

    pub open spec fn spec_i16(self) -> i16 {
        match self {
            Scalar::I16(x) => x,
            _ => 0,
        }
    }

    pub open spec fn spec_u32(self) -> u32 {
        match self {
            Scalar::U32(x) => x,
            _ => 0,
        }
    }

    pub open spec fn spec_i32(self) -> i32 {
        match self {
            Scalar::I32(x) => x,
            _ => 0,
        }
    }

    pub fn as_u8(&self) -> (x: u8)
        ensures
            x == self.spec_u8(),
    {
        match *self {
            Scalar::U8(x) => x,
            _ => 0,
        }
    }

    pub fn as_i8(&self) -> (x: i8)
        ensures
            x == self.spec_i8(),
    {
        match *self {
            Scalar::I8(x) => x,
            _ => 0,
        }
    }

    pub fn as_u16(&self) -> (x: u16)
        ensures
            x == self.spec_u16(),
    {
        match *self {
            Scalar::U16(x) => x,
            _ => 0,
        }
    }

    pub fn as_i16(&self) -> (x: i16)
        ensures
            x == self.spec_i16(),
    {
        match *self {
            Scalar::I16(x) => x,
            _ => 0,
        }
    }

    pub fn as_u32(&self) -> (x: u32)
        ensures
            x == self.spec_u32(),
    {
        match *self {
            Scalar::U32(x) => x,
            _ => 0,
        }
    }

    pub fn as_i32(&self) -> (x: i32)
        ensures
            x == self.spec_i32(),
    {
        match *self {
            Scalar::I32(x) => x,
            _ => 0,
        }
    }

    /// Encoding then decoding a scalar gives it back, and its encoding has
    /// the width of its kind.
    pub proof fn lemma_roundtrip(self)
        ensures
            self.spec_to_bytes().len() == self.kind().spec_size(),
            Scalar::spec_from_bytes(self.kind(), self.spec_to_bytes()) == self,
    {
        match self {
            Scalar::U16(x) => {
                lemma_u16_le_roundtrip(x);
            },
            Scalar::U32(x) => {
                lemma_u32_le_roundtrip(x);
            },
            Scalar::I8(x) => {
                assert((x as u8) as i8 == x) by (bit_vector);
            },
            Scalar::I16(x) => {
                lemma_u16_le_roundtrip(x as u16);
                assert((x as u16) as i16 == x) by (bit_vector);
            },
            Scalar::I32(x) => {
                lemma_u32_le_roundtrip(x as u32);
                assert((x as u32) as i32 == x) by (bit_vector);
            },
            _ => {},
        }
    }

    /// Decoding bytes of the right width then encoding gives them back.
    pub proof fn lemma_bytes_roundtrip(kind: ScalarKind, b: Seq<u8>)
        requires
            b.len() == kind.spec_size(),
        ensures
            Scalar::spec_from_bytes(kind, b).kind() == kind,
            Scalar::spec_from_bytes(kind, b).spec_to_bytes() == b,
    {
        lemma_le_bytes_roundtrip(b);
        match kind {
            ScalarKind::U8 => {
                assert(b =~= seq![b[0]]);
            },
            ScalarKind::I8 => {
                let x = b[0];
                assert((x as i8) as u8 == x) by (bit_vector);
                assert(b =~= seq![b[0]]);
            },
            ScalarKind::I16 => {
                let x = le_u16(b);
                assert((x as i16) as u16 == x) by (bit_vector);
            },
            ScalarKind::I32 => {
                let x = le_u32(b);
                assert((x as i32) as u32 == x) by (bit_vector);
            },
            _ => {},
        }
    }
}

/// The kinds of a sequence of scalars.
pub open spec fn kinds_of(fs: Seq<Scalar>) -> Seq<ScalarKind> {
    fs.map_values(|s: Scalar| s.kind())
}

/// The kinds of scalars, one for each, in order.
pub proof fn lemma_kinds_of(fs: Seq<Scalar>)
    ensures
        kinds_of(fs).len() == fs.len(),
        forall|i: int| 0 <= i < fs.len() ==> #[trigger] kinds_of(fs)[i] == fs[i].kind(),
{
}

/// A layout is at least as wide as it has fields, and at most four times.
pub proof fn lemma_layout_size_bounds(ks: Seq<ScalarKind>)
    ensures
        ks.len() <= layout_size(ks) <= 4 * ks.len(),
    decreases ks.len(),
{
    if ks.len() > 0 {
        lemma_layout_size_bounds(ks.drop_last());
    }
}

/// Total width in bytes of a layout.
pub open spec fn layout_size(ks: Seq<ScalarKind>) -> nat
    decreases ks.len(),
{
    if ks.len() == 0 {
        0
    } else {
        layout_size(ks.drop_last()) + ks.last().spec_size()
    }
}

/// Offset of field `i` of a layout: the width of the fields before it.
pub open spec fn field_offset(ks: Seq<ScalarKind>, i: int) -> int {
    layout_size(ks.take(i)) as int
}

/// The bytes of a sequence of scalars, one after the other.
pub open spec fn encode_scalars(fs: Seq<Scalar>) -> Seq<u8>
    decreases fs.len(),
{
    if fs.len() == 0 {
        Seq::empty()
    } else {
        encode_scalars(fs.drop_last()) + fs.last().spec_to_bytes()
    }
}

/// The scalars of the given layout that the bytes hold, each read at its
/// offset.
pub open spec fn decode_scalars(ks: Seq<ScalarKind>, b: Seq<u8>) -> Seq<Scalar> {
    Seq::new(
        ks.len(),
        |i: int|
            Scalar::spec_from_bytes(
                ks[i],
                b.subrange(field_offset(ks, i), field_offset(ks, i) + ks[i].spec_size()),
            ),
    )
}

/// The offset of the field after field `i` is the offset of field `i` plus
/// its width, and the offsets grow up to the layout's size.
pub proof fn lemma_field_offset_step(ks: Seq<ScalarKind>, i: int)
    requires
        0 <= i < ks.len(),
    ensures
        field_offset(ks, i + 1) == field_offset(ks, i) + ks[i].spec_size(),
        field_offset(ks, i) + ks[i].spec_size() <= layout_size(ks),
    decreases ks.len(),
{
    assert(ks.take(i + 1).drop_last() =~= ks.take(i));
    if i + 1 < ks.len() {
        lemma_field_offset_step(ks.drop_last(), i);
        assert(ks.drop_last().take(i) =~= ks.take(i));
        assert(ks.drop_last().take(i + 1) =~= ks.take(i + 1));
    } else {
        assert(ks.take(i + 1) =~= ks);
    }
}

/// A prefix of a layout has offsets of its own equal to those of the whole.
proof fn lemma_field_offset_prefix(ks: Seq<ScalarKind>, n: int, i: int)
    requires
        0 <= i <= n <= ks.len(),
    ensures
        field_offset(ks.take(n), i) == field_offset(ks, i),
{
    assert(ks.take(n).take(i) =~= ks.take(i));
}

/// The encoding of scalars is as wide as their layout.
pub proof fn lemma_encode_len(fs: Seq<Scalar>)
    ensures
        encode_scalars(fs).len() == layout_size(kinds_of(fs)),
    decreases fs.len(),
{
    if fs.len() > 0 {
        lemma_encode_len(fs.drop_last());
        fs.last().lemma_roundtrip();
        assert(kinds_of(fs).drop_last() =~= kinds_of(fs.drop_last()));
    }
}

/// In the encoding of scalars, the bytes at the offset of field `i` are the
/// encoding of scalar `i`.
pub proof fn lemma_encode_field(fs: Seq<Scalar>, i: int)
    requires
        0 <= i < fs.len(),
    ensures
        ({
            let ks = kinds_of(fs);
            encode_scalars(fs).subrange(field_offset(ks, i), field_offset(ks, i) + ks[i].spec_size())
                == fs[i].spec_to_bytes()
        }),
    decreases fs.len(),
{
    let ks = kinds_of(fs);
    let init = fs.drop_last();
    lemma_encode_len(init);
    fs[i].lemma_roundtrip();
    assert(kinds_of(init) =~= ks.drop_last());
    if i == fs.len() - 1 {
        assert(ks.take(i) =~= ks.drop_last());
        assert(encode_scalars(fs).subrange(field_offset(ks, i), field_offset(ks, i) + ks[i].spec_size())
            =~= fs[i].spec_to_bytes());
    } else {
        lemma_encode_field(init, i);
        lemma_field_offset_step(kinds_of(init), i);
        lemma_field_offset_prefix(ks, ks.len() - 1, i);
        assert(ks.take(ks.len() - 1) =~= ks.drop_last());
        assert(encode_scalars(fs).subrange(field_offset(ks, i), field_offset(ks, i) + ks[i].spec_size())
            =~= encode_scalars(init).subrange(field_offset(ks, i), field_offset(ks, i) + ks[i].spec_size()));
    }
}

/// Decoding the encoding of scalars, with their own layout, gives them back.
pub proof fn lemma_decode_encode(fs: Seq<Scalar>)
    ensures
        decode_scalars(kinds_of(fs), encode_scalars(fs)) == fs,
{
    let ks = kinds_of(fs);
    assert forall|i: int| 0 <= i < fs.len() implies decode_scalars(ks, encode_scalars(fs))[i] == fs[i] by {
        lemma_encode_field(fs, i);
        fs[i].lemma_roundtrip();
    }
    assert(decode_scalars(ks, encode_scalars(fs)) =~= fs);
}

/// Decoding gives scalars of the layout that was asked for.
proof fn lemma_decode_kinds(ks: Seq<ScalarKind>, b: Seq<u8>)
    requires
        b.len() == layout_size(ks),
    ensures
        kinds_of(decode_scalars(ks, b)) == ks,
{
    let d = decode_scalars(ks, b);
    assert forall|i: int| 0 <= i < ks.len() implies d[i].kind() == ks[i] by {
        lemma_field_offset_step(ks, i);
        Scalar::lemma_bytes_roundtrip(
            ks[i],
            b.subrange(field_offset(ks, i), field_offset(ks, i) + ks[i].spec_size()),
        );
    }
    assert(kinds_of(d) =~= ks);
}

/// Decoding all but the last field of a layout reads the same scalars as
/// decoding the bytes before the last field with the shorter layout.
proof fn lemma_decode_drop_last(ks: Seq<ScalarKind>, b: Seq<u8>)
    requires
        b.len() == layout_size(ks),
        ks.len() > 0,
    ensures
        decode_scalars(ks, b).drop_last() == decode_scalars(
            ks.drop_last(),
            b.take(layout_size(ks.drop_last()) as int),
        ),
{
    let n = ks.len() - 1;
    let init = ks.drop_last();
    let m = layout_size(init);
    let d = decode_scalars(ks, b);
    let e = decode_scalars(init, b.take(m as int));
    assert forall|i: int| 0 <= i < n implies d.drop_last()[i] == e[i] by {
        lemma_field_offset_step(init, i);
        lemma_field_offset_prefix(ks, n, i);
        assert(ks.take(n) =~= init);
        assert(b.take(m as int).subrange(field_offset(init, i), field_offset(init, i) + init[i].spec_size())
            =~= b.subrange(field_offset(ks, i), field_offset(ks, i) + ks[i].spec_size()));
    }
    assert(d.drop_last() =~= e);
}

/// Decoding bytes as wide as a layout gives scalars of that layout, whose
/// encoding is those bytes.
#[verifier::spinoff_prover]
#[verifier::rlimit(40)]
pub proof fn lemma_encode_decode(ks: Seq<ScalarKind>, b: Seq<u8>)
    requires
        b.len() == layout_size(ks),
    ensures
        kinds_of(decode_scalars(ks, b)) == ks,
        encode_scalars(decode_scalars(ks, b)) == b,
    decreases ks.len(),
{
    lemma_decode_kinds(ks, b);
    let d = decode_scalars(ks, b);
    if ks.len() == 0 {
        assert(b =~= Seq::<u8>::empty());
    } else {
        let n = ks.len() - 1;
        let init = ks.drop_last();
        let m = layout_size(init);
        lemma_field_offset_step(ks, n);
        assert(ks.take(n) =~= init);
        lemma_encode_decode(init, b.take(m as int));
        lemma_decode_drop_last(ks, b);
        Scalar::lemma_bytes_roundtrip(ks[n], b.subrange(m as int, b.len() as int));
        assert(d.last() == Scalar::spec_from_bytes(ks[n], b.subrange(m as int, b.len() as int)));
        assert(b =~= b.take(m as int) + b.subrange(m as int, b.len() as int));
    }
}

/// Reads the scalars of layout `kinds` from the front of `bytes`.
pub fn read_scalars(kinds: &[ScalarKind], bytes: &[u8]) -> (fs: Vec<Scalar>)
    requires
        layout_size(kinds@) <= bytes@.len(),
    ensures
        fs@ == decode_scalars(kinds@, bytes@),
{
    let total = bytes.len();
    let mut fs: Vec<Scalar> = Vec::new();
    let mut pos: usize = 0;
    let mut i: usize = 0;
    while i < kinds.len()
        invariant
            i <= kinds@.len(),
            layout_size(kinds@) <= bytes@.len(),
            total == bytes@.len(),
            pos == field_offset(kinds@, i as int),
            fs@.len() == i,
            forall|j: int| 0 <= j < i ==> fs@[j] == #[trigger] decode_scalars(kinds@, bytes@)[j],
        decreases kinds.len() - i,
    {
        proof {
            lemma_field_offset_step(kinds@, i as int);
        }
        let kind = kinds[i];
        let n = kind.size();
        let field = slice_subrange(bytes, pos, pos + n);
        let value = match kind {
            ScalarKind::U8 => Scalar::U8(field[0]),
            ScalarKind::I8 => Scalar::I8(#[verifier::truncate] (field[0] as i8)),
            ScalarKind::U16 => Scalar::U16(read_u16(field)),
            ScalarKind::I16 => Scalar::I16(#[verifier::truncate] (read_u16(field) as i16)),
            ScalarKind::U32 => Scalar::U32(read_u32(field)),
            ScalarKind::I32 => Scalar::I32(#[verifier::truncate] (read_u32(field) as i32)),
        };
        fs.push(value);
        pos = pos + n;
        i = i + 1;
    }
    assert(fs@ =~= decode_scalars(kinds@, bytes@));
    fs
}

/// Writes the scalars one after the other.
pub fn write_scalars(fs: &[Scalar]) -> (bytes: Vec<u8>)
    ensures
        bytes@ == encode_scalars(fs@),
{
    let mut bytes: Vec<u8> = Vec::new();
    let mut i: usize = 0;
    while i < fs.len()
        invariant
            i <= fs@.len(),
            bytes@ == encode_scalars(fs@.take(i as int)),
        decreases fs.len() - i,
    {
        let mut piece: Vec<u8> = match fs[i] {
            Scalar::U8(x) => vec![x],
            Scalar::I8(x) => vec![x as u8],
            Scalar::U16(x) => write_u16(x),
            Scalar::I16(x) => write_u16(x as u16),
            Scalar::U32(x) => write_u32(x),
            Scalar::I32(x) => write_u32(x as u32),
        };
        assert(piece@ == fs@[i as int].spec_to_bytes());
        bytes.append(&mut piece);
        assert(fs@.take(i + 1).drop_last() =~= fs@.take(i as int));
        i = i + 1;
    }
    assert(fs@.take(fs@.len() as int) =~= fs@);
    bytes
}

} // verus!
