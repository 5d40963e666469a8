//! Records: fixed-size structures that a lump stores back to back.
//!
//! A record's byte layout is that of its scalar fields, in declaration
//! order, little-endian, without padding. Every byte string of a record's
//! size is the layout of exactly one record.
use vstd::prelude::*;
use vstd::slice::slice_subrange;
use crate::valve::scalar::{
    decode_scalars, encode_scalars, field_offset, kinds_of, layout_size, lemma_decode_encode,
    lemma_encode_decode, lemma_encode_field, lemma_encode_len, lemma_field_offset_step, lemma_layout_size_bounds,
    read_scalars, write_scalars, Scalar, ScalarKind,
};

verus! {

/// A fixed-size record of a lump, made of scalar fields.
pub trait Record: Sized {
    /// The kinds of the record's scalar fields, in order.
    spec fn spec_layout() -> Seq<ScalarKind>;

    /// The record's scalar fields, in order.
    spec fn spec_scalars(self) -> Seq<Scalar>;

    /// The record whose scalar fields are `fs`.
    spec fn spec_from_scalars(fs: Seq<Scalar>) -> Self;

    /// Size in bytes of the record.
    spec fn spec_size() -> nat;

    /// Offset in bytes of each field, followed by the record's size.
    spec fn spec_offsets() -> Seq<int>;

    /// A record has at least one field and a short layout, whose width is
    /// the record's size; its fields stand at the offsets listed.
    proof fn lemma_layout_len()
        ensures
            0 < Self::spec_layout().len() <= 256,
            layout_size(Self::spec_layout()) == Self::spec_size(),
            Self::spec_offsets().len() == Self::spec_layout().len() + 1,
            forall|i: int|
                0 <= i <= Self::spec_layout().len() ==> #[trigger] field_offset(
                    Self::spec_layout(),
                    i,
                ) == Self::spec_offsets()[i],
    ;

    /// A record's fields follow its layout and give the record back.
    proof fn lemma_scalars(self)
        ensures
            kinds_of(self.spec_scalars()) == Self::spec_layout(),
            Self::spec_from_scalars(self.spec_scalars()) == self,
    ;

    /// Fields that follow the layout are the fields of the record they make.
    proof fn lemma_from_scalars(fs: Seq<Scalar>)
        requires
            kinds_of(fs) == Self::spec_layout(),
        ensures
            Self::spec_from_scalars(fs).spec_scalars() == fs,
    ;

    fn layout() -> (kinds: Vec<ScalarKind>)
        ensures
            kinds@ == Self::spec_layout(),
    ;

    fn to_scalars(&self) -> (fs: Vec<Scalar>)
        ensures
            fs@ == self.spec_scalars(),
    ;

    fn from_scalars(fs: &[Scalar]) -> (record: Self)
        requires
            kinds_of(fs@) == Self::spec_layout(),
        ensures
            record == Self::spec_from_scalars(fs@),
    ;
}

/// Size in bytes of a record of type `T`.
pub open spec fn spec_record_size<T: Record>() -> nat {
    T::spec_size()
}

/// The bytes of a record.
pub open spec fn spec_record_to_bytes<T: Record>(record: T) -> Seq<u8> {
    encode_scalars(record.spec_scalars())
}

/// The record that bytes of its size hold.
pub open spec fn spec_record_from_bytes<T: Record>(bytes: Seq<u8>) -> T {
    T::spec_from_scalars(decode_scalars(T::spec_layout(), bytes))
}

/// Records are between one and 1024 bytes long.
pub proof fn lemma_record_size_bounds<T: Record>()
    ensures
        0 < spec_record_size::<T>() <= 1024,
{
    T::lemma_layout_len();
    lemma_layout_size_bounds(T::spec_layout());
}

/// The size in bytes of a record of type `T`.
pub fn record_size<T: Record>() -> (n: usize)
    ensures
        n == spec_record_size::<T>(),
        0 < n <= 1024,
{
    let kinds = T::layout();
    proof {
        T::lemma_layout_len();
        lemma_record_size_bounds::<T>();
    }
    let mut n: usize = 0;
    let mut i: usize = 0;
    while i < kinds.len()
        invariant
            i <= kinds@.len(),
            kinds@ == T::spec_layout(),
            kinds@.len() <= 256,
            n == field_offset(kinds@, i as int),
            n <= 4 * i,
        decreases kinds.len() - i,
    {
        proof {
            lemma_field_offset_step(kinds@, i as int);
        }
        n = n + kinds[i].size();
        i = i + 1;
    }
    assert(kinds@.take(kinds@.len() as int) =~= kinds@);
    n
}

/// In a record's bytes, field `i` is encoded between its offset and the
/// next field's.
pub proof fn lemma_record_field_bytes<T: Record>(record: T, i: int)
    requires
        0 <= i < T::spec_layout().len(),
    ensures
        spec_record_to_bytes(record).subrange(T::spec_offsets()[i], T::spec_offsets()[i + 1])
            == record.spec_scalars()[i].spec_to_bytes(),
{
    T::lemma_layout_len();
    record.lemma_scalars();
    lemma_field_offset_step(T::spec_layout(), i);
    lemma_encode_field(record.spec_scalars(), i);
}

/// Reading bytes, field `i` is decoded from the bytes between its offset
/// and the next field's.
pub proof fn lemma_record_field_value<T: Record>(bytes: Seq<u8>, i: int)
    requires
        0 <= i < T::spec_layout().len(),
    ensures
        decode_scalars(T::spec_layout(), bytes)[i] == Scalar::spec_from_bytes(
            T::spec_layout()[i],
            bytes.subrange(T::spec_offsets()[i], T::spec_offsets()[i + 1]),
        ),
{
    T::lemma_layout_len();
    lemma_field_offset_step(T::spec_layout(), i);
}

/// Reads a record from bytes of exactly its size; any other length is
/// refused.
pub fn read_record<T: Record>(bytes: &[u8]) -> (record: Option<T>)
    ensures
        record is Some <==> bytes@.len() == spec_record_size::<T>(),
        record matches Some(r) ==> r == spec_record_from_bytes::<T>(bytes@),
{
    let n = record_size::<T>();
    if bytes.len() != n {
        return None;
    }
    let kinds = T::layout();
    proof {
        T::lemma_layout_len();
    }
    let fs = read_scalars(kinds.as_slice(), bytes);
    proof {
        lemma_encode_decode(kinds@, bytes@);
    }
    Some(T::from_scalars(fs.as_slice()))
}

/// The bytes of a record.
pub fn write_record<T: Record>(record: &T) -> (bytes: Vec<u8>)
    ensures
        bytes@ == spec_record_to_bytes(*record),
{
    let fs = record.to_scalars();
    write_scalars(fs.as_slice())
}

/// The bytes of a record, read back, give the record; they are as long as
/// the record's size.
pub proof fn law_record_roundtrip<T: Record>(record: T)
    ensures
        spec_record_to_bytes(record).len() == spec_record_size::<T>(),
        spec_record_from_bytes::<T>(spec_record_to_bytes(record)) == record,
{
    T::lemma_layout_len();
    record.lemma_scalars();
    lemma_encode_len(record.spec_scalars());
    lemma_decode_encode(record.spec_scalars());
}

/// Every byte string of a record's size holds a record, whose bytes are
/// that byte string.
pub proof fn law_bytes_roundtrip<T: Record>(bytes: Seq<u8>)
    requires
        bytes.len() == spec_record_size::<T>(),
    ensures
        spec_record_to_bytes(spec_record_from_bytes::<T>(bytes)) == bytes,
{
    T::lemma_layout_len();
    lemma_encode_decode(T::spec_layout(), bytes);
    T::lemma_from_scalars(decode_scalars(T::spec_layout(), bytes));
}

/// The bytes of records stored back to back, as a lump holds them.
pub open spec fn spec_records_to_bytes<T: Record>(records: Seq<T>) -> Seq<u8>
    decreases records.len(),
{
    if records.len() == 0 {
        Seq::empty()
    } else {
        spec_record_to_bytes(records[0]) + spec_records_to_bytes(records.drop_first())
    }
}

/// The records that a lump's bytes hold, read one after the other from the
/// front; `None` when the bytes end in the middle of a record.
pub open spec fn spec_records_from_bytes<T: Record>(bytes: Seq<u8>) -> Option<Seq<T>>
    decreases bytes.len(),
{
    let n = spec_record_size::<T>();
    if bytes.len() == 0 {
        Some(Seq::empty())
    } else if bytes.len() < n || n == 0 {
        None
    } else {
        match spec_records_from_bytes::<T>(bytes.skip(n as int)) {
            Some(rest) => Some(seq![spec_record_from_bytes::<T>(bytes.take(n as int))] + rest),
            None => None,
        }
    }
}

/// Appending a record appends its bytes.
proof fn lemma_records_to_bytes_push<T: Record>(records: Seq<T>, record: T)
    ensures
        spec_records_to_bytes(records.push(record)) == spec_records_to_bytes(records)
            + spec_record_to_bytes(record),
    decreases records.len(),
{
    if records.len() == 0 {
        assert(records.push(record).drop_first() =~= Seq::<T>::empty());
        assert(records.push(record)[0] == record);
        assert(spec_records_to_bytes(Seq::<T>::empty()) =~= Seq::<u8>::empty());
        assert(spec_records_to_bytes(records.push(record)) =~= spec_record_to_bytes(record));
    } else {
        lemma_records_to_bytes_push(records.drop_first(), record);
        assert(records.push(record).drop_first() =~= records.drop_first().push(record));
        assert(spec_records_to_bytes(records.push(record)) =~= spec_records_to_bytes(records)
            + spec_record_to_bytes(record));
    }
}

/// Reads the records of a lump: its bytes must be a whole number of
/// records, else the lump is refused.
pub fn read_records<T: Record>(bytes: &[u8]) -> (records: Option<Vec<T>>)
    ensures
        records is Some <==> spec_records_from_bytes::<T>(bytes@) is Some,
        records matches Some(v) ==> spec_records_from_bytes::<T>(bytes@) == Some(v@),
{
    let n = record_size::<T>();
    let len = bytes.len();
    let mut out: Vec<T> = Vec::new();
    let mut pos: usize = 0;
    assert(bytes@.skip(0) =~= bytes@);
    while pos < len
        invariant
            0 < n == spec_record_size::<T>(),
            len == bytes@.len(),
            pos <= len,
            spec_records_from_bytes::<T>(bytes@) == match spec_records_from_bytes::<T>(
                bytes@.skip(pos as int),
            ) {
                Some(rest) => Some(out@ + rest),
                None => None::<Seq<T>>,
            },
        decreases len - pos,
    {
        let ghost rest = bytes@.skip(pos as int);
        if len - pos < n {
            return None;
        }
        let piece = slice_subrange(bytes, pos, pos + n);
        assert(piece@ =~= rest.take(n as int));
        assert(rest.skip(n as int) =~= bytes@.skip(pos + n));
        match read_record::<T>(piece) {
            Some(record) => {
                proof {
                    if let Some(tail) = spec_records_from_bytes::<T>(bytes@.skip(pos + n)) {
                        assert(out@.push(record) + tail =~= out@ + (seq![record] + tail));
                    }
                }
                out.push(record);
            },
            None => {
                return None;
            },
        }
        pos = pos + n;
    }
    assert(bytes@.skip(pos as int) =~= Seq::<u8>::empty());
    assert(out@ + Seq::<T>::empty() =~= out@);
    Some(out)
}

/// The bytes of records stored back to back.
pub fn write_records<T: Record>(records: &[T]) -> (bytes: Vec<u8>)
    ensures
        bytes@ == spec_records_to_bytes(records@),
{
    let mut bytes: Vec<u8> = Vec::new();
    let mut i: usize = 0;
    assert(records@.take(0) =~= Seq::<T>::empty());
    while i < records.len()
        invariant
            i <= records@.len(),
            bytes@ == spec_records_to_bytes(records@.take(i as int)),
        decreases records.len() - i,
    {
        let mut piece = write_record(&records[i]);
        proof {
            lemma_records_to_bytes_push(records@.take(i as int), records@[i as int]);
            assert(records@.take(i as int).push(records@[i as int]) =~= records@.take(i + 1));
        }
        bytes.append(&mut piece);
        i = i + 1;
    }
    assert(records@.take(records@.len() as int) =~= records@);
    bytes
}

/// Records written back to back and read again are the same records.
pub proof fn law_records_roundtrip<T: Record>(records: Seq<T>)
    ensures
        spec_records_from_bytes::<T>(spec_records_to_bytes(records)) == Some(records),
        spec_records_to_bytes(records).len() == records.len() * spec_record_size::<T>(),
    decreases records.len(),
{
    lemma_record_size_bounds::<T>();
    if records.len() > 0 {
        let n = spec_record_size::<T>();
        let head = spec_record_to_bytes(records[0]);
        let tail = spec_records_to_bytes(records.drop_first());
        law_record_roundtrip(records[0]);
        law_records_roundtrip(records.drop_first());
        assert((head + tail).take(n as int) =~= head);
        assert((head + tail).skip(n as int) =~= tail);
        assert(seq![records[0]] + records.drop_first() =~= records);
        assert(records.len() * n == n + (records.len() - 1) * n) by (nonlinear_arith);
    }
}

/// A lump's bytes that are read as records are the bytes of those records,
/// and they are a whole number of records long.
pub proof fn law_records_bytes_roundtrip<T: Record>(bytes: Seq<u8>)
    requires
        spec_records_from_bytes::<T>(bytes) is Some,
    ensures
        spec_records_to_bytes(spec_records_from_bytes::<T>(bytes).unwrap()) == bytes,
        bytes.len() % spec_record_size::<T>() == 0,
    decreases bytes.len(),
{
    let n = spec_record_size::<T>();
    lemma_record_size_bounds::<T>();
    if bytes.len() > 0 {
        let records = spec_records_from_bytes::<T>(bytes).unwrap();
        law_records_bytes_roundtrip::<T>(bytes.skip(n as int));
        law_bytes_roundtrip::<T>(bytes.take(n as int));
        assert(records.drop_first() =~= spec_records_from_bytes::<T>(bytes.skip(n as int)).unwrap());
        assert(bytes =~= bytes.take(n as int) + bytes.skip(n as int));
        let m = (bytes.len() - n) as int;
        assert(m % (n as int) == 0 ==> (m + n) % (n as int) == 0) by (nonlinear_arith)
            requires
                n > 0,
        ;
    }
}

/// A lump is read exactly when its length is a whole number of records;
/// it then holds length / size records, record `i` being read from the
/// bytes at `i * size`.
pub proof fn law_records_from_bytes<T: Record>(bytes: Seq<u8>)
    ensures
        spec_records_from_bytes::<T>(bytes) is Some <==> bytes.len() % spec_record_size::<T>() == 0,
        spec_records_from_bytes::<T>(bytes) matches Some(records) ==> {
            &&& records.len() == bytes.len() / spec_record_size::<T>()
            &&& forall|i: int|
                0 <= i < records.len() ==> #[trigger] records[i] == spec_record_from_bytes::<T>(
                    bytes.subrange(i * spec_record_size::<T>(), (i + 1) * spec_record_size::<T>()),
                )
        },
    decreases bytes.len(),
{
    let n = spec_record_size::<T>() as int;
    lemma_record_size_bounds::<T>();
    if bytes.len() == 0 {
        assert(0int % n == 0 && 0int / n == 0) by (nonlinear_arith)
            requires
                n > 0,
        ;
    } else if bytes.len() < n {
        let l = bytes.len() as int;
        assert(0 < l < n ==> l % n != 0) by (nonlinear_arith)
            requires
                n > 0,
        ;
    } else {
        let rest = bytes.skip(n);
        let l = bytes.len() as int;
        law_records_from_bytes::<T>(rest);
        vstd::arithmetic::div_mod::lemma_mod_sub_multiples_vanish(l, n);
        vstd::arithmetic::div_mod::lemma_div_minus_one(l, n);
        if let Some(records) = spec_records_from_bytes::<T>(bytes) {
            let tail = spec_records_from_bytes::<T>(rest).unwrap();
            assert forall|i: int| 0 <= i < records.len() implies #[trigger] records[i]
                == spec_record_from_bytes::<T>(bytes.subrange(i * n, (i + 1) * n)) by {
                if i == 0 {
                    assert(bytes.subrange(0 * n, (0 + 1) * n) =~= bytes.take(n));
                } else {
                    assert(records[i] == tail[i - 1]);
                    assert((i - 1) * n + n == i * n && i * n + n == (i + 1) * n) by (nonlinear_arith);
                    assert(0 <= (i - 1) * n && (i + 1) * n <= l) by (nonlinear_arith)
                        requires
                            n > 0,
                            1 <= i,
                            i + 1 <= l / n,
                    ;
                    assert(rest.subrange((i - 1) * n, i * n) =~= bytes.subrange(i * n, (i + 1) * n));
                }
            }
        }
    }
}

} // verus!
