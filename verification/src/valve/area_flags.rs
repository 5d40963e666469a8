//! The packed area index and leaf flags of a BSP leaf: nine bits of area
//! and seven bits of flags.
use vstd::prelude::*;
use vstd::string::StringExecFns;
use crate::valve::text::{append_decimal, decimal};

verus! {

/// Mask of the nine bits that hold the area index.
pub const AREA_MASK: u16 = 0x01FF;

/// Mask of the seven flag bits, once shifted down by `FLAGS_SHIFT`.
pub const FLAGS_MASK: u16 = 0x7F;

/// Position of the lowest flag bit.
pub const FLAGS_SHIFT: u16 = 9;

/// Area index and leaf flags of a leaf, packed in sixteen bits.
///
/// Every `i16` is a valid value: bits 0 to 8 are the area, bits 9 to 15 the
/// flags (see `LeafFlags`).
///
/// `{:?}` on this type, and on the `Leaf` that holds it, shows the raw
/// bits; `debug_string` gives the text with the fields by name.
#[derive(Clone, Copy, Debug, Default)]
pub struct AreaFlags(i16);

impl View for AreaFlags {
    /// The pair (area, flags).
    type V = (u16, u8);

    closed spec fn view(&self) -> (u16, u8) {
        AreaFlags::spec_decode(self.0 as u16)
    }
}

impl AreaFlags {
    /// The raw bits as stored in a leaf record, read as unsigned.
    pub closed spec fn spec_bits(self) -> u16 {
        self.0 as u16
    }

    /// The raw bits as stored in a leaf record.
    pub closed spec fn spec_raw(self) -> i16 {
        self.0
    }

    /// The value whose raw bits are `raw`.
    pub closed spec fn spec_from_raw(raw: i16) -> AreaFlags {
        AreaFlags(raw)
    }

    /// A value is made back from its raw bits, which read as unsigned are
    /// its bits.
    pub proof fn lemma_raw(self)
        ensures
            Self::spec_from_raw(self.spec_raw()) == self,
            self.spec_bits() == self.spec_raw() as u16,
    {
    }

    /// The raw bits of the value made from raw bits are those bits.
    pub proof fn lemma_from_raw(raw: i16)
        ensures
            Self::spec_from_raw(raw).spec_raw() == raw,
    {
    }

    /// The raw bits, as a leaf record stores them.
    pub(crate) fn raw(&self) -> (raw: i16)
        ensures
            raw == self.spec_raw(),
    {
        self.0
    }

    /// The value that a leaf record's raw bits hold.
    pub(crate) fn from_raw(raw: i16) -> (result: Self)
        ensures
            result == Self::spec_from_raw(raw),
    {
        AreaFlags(raw)
    }

    /// The value whose raw bits, read as unsigned, are `bits`.
    pub closed spec fn spec_from_bits(bits: u16) -> AreaFlags {
        AreaFlags(bits as i16)
    }

    /// The (area, flags) pair that the raw bits hold.
    pub open spec fn spec_decode(bits: u16) -> (u16, u8) {
        ((bits & AREA_MASK) as u16, ((bits >> FLAGS_SHIFT) & FLAGS_MASK) as u8)
    }

    /// The raw bits of the given area and flags, each cut to its width.
    pub open spec fn spec_encode(area: u16, flags: u8) -> u16 {
        ((area & AREA_MASK) | (((flags as u16) & FLAGS_MASK) << FLAGS_SHIFT)) as u16
    }

    /// This value with its area replaced.
    pub open spec fn with_area(self, area: u16) -> AreaFlags {
        Self::spec_from_bits(Self::spec_encode(area, self@.1))
    }

    /// This value with its flags replaced.
    pub open spec fn with_flags(self, flags: u8) -> AreaFlags {
        Self::spec_from_bits(Self::spec_encode(self@.0, flags))
    }

    /// Unsigned bits stored as signed read back the same.
    proof fn lemma_u16_as_i16_roundtrip(bits: u16)
        ensures
            ((bits as i16) as u16) == bits,
    {
        assert(((bits as i16) as u16) == bits) by (bit_vector);
    }

    /// Signed bits read as unsigned store back the same.
    proof fn lemma_i16_as_u16_roundtrip(v: i16)
        ensures
            ((v as u16) as i16) == v,
    {
        assert(((v as u16) as i16) == v) by (bit_vector);
    }

    /// The raw bits are the encoding of the view, the view is in range, and
    /// the value is recovered from its raw bits.
    pub proof fn lemma_bits_view(self)
        ensures
            self@.0 < 512,
            self@.1 < 128,
            self@ == Self::spec_decode(self.spec_bits()),
            self.spec_bits() == Self::spec_encode(self@.0, self@.1),
            Self::spec_from_bits(self.spec_bits()) == self,
    {
        let b = self.0 as u16;
        Self::lemma_u16_as_i16_roundtrip(b);
        Self::lemma_i16_as_u16_roundtrip(self.0);
        assert(b & 0x1FF < 512) by (bit_vector);
        assert((b >> 9) & 0x7F < 128) by (bit_vector);
        assert(((b & 0x1FF) & 0x1FF) | ((((b >> 9) & 0x7F) as u8 as u16 & 0x7F) << 9) == b)
            by (bit_vector);
    }

    /// The view of the encoding of an area below 512 and flags below 128 is
    /// that area and those flags.
    pub proof fn lemma_encode_view(area: u16, flags: u8)
        requires
            area < 512,
            flags < 128,
        ensures
            Self::spec_from_bits(Self::spec_encode(area, flags))@ == (area, flags),
            Self::spec_decode(Self::spec_encode(area, flags)) == (area, flags),
    {
        let e = Self::spec_encode(area, flags);
        Self::lemma_u16_as_i16_roundtrip(e);
        assert(area < 512 && flags < 128 ==> {
            let e = ((area & 0x1FF) | (((flags as u16) & 0x7F) << 9)) as u16;
            &&& e & 0x1FF == area
            &&& ((e >> 9) & 0x7F) as u8 == flags
        }) by (bit_vector);
    }

    /// Two values with the same view are the same value.
    pub proof fn lemma_view_injective(a: AreaFlags, b: AreaFlags)
        requires
            a@ == b@,
        ensures
            a == b,
    {
        a.lemma_bits_view();
        b.lemma_bits_view();
    }

    pub fn new(area: u16, flags: u8) -> (result: Self)
        requires
            area < 512,
            flags < 128,
        ensures
            result@ == (area, flags),
            result.spec_bits() == Self::spec_encode(area, flags),
    {
        let mut instance = AreaFlags(0);
        instance.set_area(area);
        instance.set_flags(flags);
        proof {
            instance.lemma_bits_view();
        }
        instance
    }

    /// The text that `{:?}` prints of this value: its fields by name.
    pub open spec fn spec_debug_text(self) -> Seq<char> {
        "AreaFlags { area: "@ + decimal(self@.0 as nat) + ", flags: "@ + decimal(self@.1 as nat)
            + " }"@
    }

    /// The debug text of this value: the area, then the flags.
    pub fn debug_string(&self) -> (text: String)
        ensures
            text@ == self.spec_debug_text(),
    {
        let mut text = String::from_str("AreaFlags { area: ");
        append_decimal(&mut text, self.area() as u32);
        text.append(", flags: ");
        append_decimal(&mut text, self.flags() as u32);
        text.append(" }");
        text
    }

    pub fn area(&self) -> (area: u16)
        ensures
            area == self@.0,
            area < 512,
    {
        proof {
            self.lemma_bits_view();
        }
        (self.0 as u16) & 0x01FF
    }

    pub fn set_area(&mut self, area: u16)
        requires
            area < 512,
        ensures
            *final(self) == old(self).with_area(area),
            final(self)@ == (area, old(self)@.1),
    {
        let bits = self.0 as u16;
        let next = (bits & !0x01FFu16) | (area & 0x01FF);
        assert(next == (area & 0x1FF) | (((((bits >> 9) & 0x7F) as u8) as u16 & 0x7F) << 9))
            by (bit_vector)
            requires
                next == (bits & !0x01FFu16) | (area & 0x01FF),
        ;
        self.0 = next as i16;
        proof {
            old(self).lemma_bits_view();
            Self::lemma_encode_view(area, old(self)@.1);
        }
    }

    pub fn flags(&self) -> (flags: u8)
        ensures
            flags == self@.1,
            flags < 128,
    {
        proof {
            self.lemma_bits_view();
        }
        (((self.0 as u16) >> 9) & 0x7F) as u8
    }

    pub fn set_flags(&mut self, flags: u8)
        requires
            flags < 128,
        ensures
            *final(self) == old(self).with_flags(flags),
            final(self)@ == (old(self)@.0, flags),
    {
        let bits = self.0 as u16;
        let next = (bits & 0x01FF) | (((flags as u16) & 0x7F) << 9);
        assert(next == (((bits & 0x1FF) as u16) & 0x1FF) | (((flags as u16) & 0x7F) << 9))
            by (bit_vector)
            requires
                next == (bits & 0x01FF) | (((flags as u16) & 0x7F) << 9),
        ;
        self.0 = next as i16;
        proof {
            old(self).lemma_bits_view();
            Self::lemma_encode_view(old(self)@.0, flags);
        }
    }
}

/// Setting the area and setting the flags do not interfere: they commute.
pub proof fn law_area_flags_setters_commute(a: AreaFlags, area: u16, flags: u8)
    requires
        area < 512,
        flags < 128,
    ensures
        a.with_area(area).with_flags(flags) == a.with_flags(flags).with_area(area),
        a.with_area(area).with_flags(flags)@ == (area, flags),
{
    a.lemma_bits_view();
    AreaFlags::lemma_encode_view(area, a@.1);
    AreaFlags::lemma_encode_view(a@.0, flags);
    AreaFlags::lemma_encode_view(area, flags);
}

/// The last area or flags set are the ones that stay, and setting a field to
/// the value it has leaves the value unchanged.
pub proof fn law_area_flags_last_set_wins(a: AreaFlags, r1: u16, r2: u16, f1: u8, f2: u8)
    requires
        r1 < 512,
        r2 < 512,
        f1 < 128,
        f2 < 128,
    ensures
        a.with_area(r1).with_area(r2) == a.with_area(r2),
        a.with_flags(f1).with_flags(f2) == a.with_flags(f2),
        a.with_area(a@.0) == a,
        a.with_flags(a@.1) == a,
{
    a.lemma_bits_view();
    AreaFlags::lemma_encode_view(r1, a@.1);
    AreaFlags::lemma_encode_view(a@.0, f1);
}

} // verus!
