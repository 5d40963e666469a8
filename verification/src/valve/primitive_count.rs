//! The packed primitive count of a face: fifteen bits of count and one bit
//! that, when set, forbids dynamic shadows.
use vstd::prelude::*;
use vstd::string::StringExecFns;
use crate::valve::text::{append_bool, append_decimal, bool_text, decimal};

verus! {

/// Mask of the bit that disables dynamic shadows when set.
pub const NO_DYNAMIC_SHADOWS_BIT: u16 = 0x8000;

/// Mask of the fifteen bits that hold the primitive count.
pub const PRIMITIVE_COUNT_MASK: u16 = 0x7FFF;

/// Number of primitives of a face, packed with a dynamic-shadow flag.
///
/// Every `u16` is a valid value: the low fifteen bits are the count, the top
/// bit is set when dynamic shadows are not allowed.
///
/// `{:?}` on this type, and on the `Face` that holds it, shows the raw
/// bits; `debug_string` gives the text with the fields by name.
#[derive(Clone, Copy, Debug, Default)]
pub struct PrimitiveCount(u16);

impl View for PrimitiveCount {
    /// The pair (primitive count, dynamic shadows allowed).
    type V = (u16, bool);

    closed spec fn view(&self) -> (u16, bool) {
        (self.0 & PRIMITIVE_COUNT_MASK, self.0 & NO_DYNAMIC_SHADOWS_BIT == 0)
    }
}

impl PrimitiveCount {
    /// The raw sixteen bits as stored in a face record.
    pub closed spec fn spec_bits(self) -> u16 {
        self.0
    }

    /// The value whose raw bits are `bits`.
    pub closed spec fn spec_from_bits(bits: u16) -> PrimitiveCount {
        PrimitiveCount(bits)
    }

    /// The raw bits of the value with the given count and shadow flag.
    pub open spec fn spec_encode(primitive_count: u16, allow_dynamic_shadows: bool) -> u16 {
        if allow_dynamic_shadows {
            primitive_count
        } else {
            (primitive_count | NO_DYNAMIC_SHADOWS_BIT) as u16
        }
    }

    /// This value with its count replaced.
    pub open spec fn with_primitive_count(self, primitive_count: u16) -> PrimitiveCount {
        Self::spec_from_bits(Self::spec_encode(primitive_count, self@.1))
    }

    /// This value with its shadow flag replaced.
    pub open spec fn with_allow_dynamic_shadows(self, allow: bool) -> PrimitiveCount {
        Self::spec_from_bits(Self::spec_encode(self@.0, allow))
    }

    /// The raw bits are exactly the encoding of the view, and the view of
    /// any raw bits is what `spec_encode` packed; so the view determines the
    /// value and every `u16` is the encoding of some view.
    pub proof fn lemma_bits_view(self)
        ensures
            self@.0 < 0x8000,
            self.spec_bits() == Self::spec_encode(self@.0, self@.1),
            Self::spec_from_bits(self.spec_bits()) == self,
    {
        let b = self.0;
        assert(b & 0x7FFF < 0x8000) by (bit_vector);
        assert(b & 0x8000 == 0 ==> b & 0x7FFF == b) by (bit_vector);
        assert(b & 0x8000 != 0 ==> (b & 0x7FFF) | 0x8000 == b) by (bit_vector);
    }

    /// The view of the encoding of a count below `0x8000` and a flag is that
    /// count and flag.
    pub proof fn lemma_encode_view(primitive_count: u16, allow: bool)
        requires
            primitive_count < 0x8000,
        ensures
            Self::spec_from_bits(Self::spec_encode(primitive_count, allow))@
                == (primitive_count, allow),
    {
        let c = primitive_count;
        assert(c < 0x8000 ==> c & 0x7FFF == c && c & 0x8000 == 0) by (bit_vector);
        assert(c < 0x8000 ==> (c | 0x8000) & 0x7FFF == c && (c | 0x8000) & 0x8000 != 0)
            by (bit_vector);
    }

    /// The raw bits of the value made from raw bits are those bits.
    pub proof fn lemma_from_bits(bits: u16)
        ensures
            Self::spec_from_bits(bits).spec_bits() == bits,
    {
    }

    /// The raw bits, as a face record stores them.
    pub(crate) fn bits(&self) -> (bits: u16)
        ensures
            bits == self.spec_bits(),
    {
        self.0
    }

    /// The value that a face record's raw bits hold.
    pub(crate) fn from_bits(bits: u16) -> (result: Self)
        ensures
            result == Self::spec_from_bits(bits),
    {
        PrimitiveCount(bits)
    }

    /// Two values with the same view are the same value.
    pub proof fn lemma_view_injective(a: PrimitiveCount, b: PrimitiveCount)
        requires
            a@ == b@,
        ensures
            a == b,
    {
        a.lemma_bits_view();
        b.lemma_bits_view();
    }

    pub fn new(primitive_count: u16, allow_dynamic_shadows: bool) -> (result: Self)
        requires
            primitive_count < 0x8000,
        ensures
            result@ == (primitive_count, allow_dynamic_shadows),
            result.spec_bits() == Self::spec_encode(primitive_count, allow_dynamic_shadows),
    {
        let mut instance = PrimitiveCount(0);
        instance.set_primitive_count(primitive_count);
        instance.set_allow_dynamic_shadows(allow_dynamic_shadows);
        proof {
            instance.lemma_bits_view();
        }
        instance
    }

    /// The text that `{:?}` prints of this value: its fields by name.
    pub open spec fn spec_debug_text(self) -> Seq<char> {
        "PrimitiveCount { allow_dynamic_shadows: "@ + bool_text(self@.1) + ", primitive_count: "@
            + decimal(self@.0 as nat) + " }"@
    }

    /// The debug text of this value: whether dynamic shadows are allowed,
    /// then the count.
    pub fn debug_string(&self) -> (text: String)
        ensures
            text@ == self.spec_debug_text(),
    {
        let mut text = String::from_str("PrimitiveCount { allow_dynamic_shadows: ");
        append_bool(&mut text, self.allow_dynamic_shadows());
        text.append(", primitive_count: ");
        append_decimal(&mut text, self.primitive_count() as u32);
        text.append(" }");
        text
    }

    pub fn allow_dynamic_shadows(&self) -> (allowed: bool)
        ensures
            allowed == self@.1,
    {
        self.0 & 0x8000 == 0
    }

    pub fn set_allow_dynamic_shadows(&mut self, allow_dynamic_shadows: bool)
        ensures
            *final(self) == old(self).with_allow_dynamic_shadows(allow_dynamic_shadows),
            final(self)@ == (old(self)@.0, allow_dynamic_shadows),
    {
        let b = self.0;
        if allow_dynamic_shadows {
            self.0 = b & !0x8000u16;
            assert(b & !0x8000u16 == b & 0x7FFF) by (bit_vector);
        } else {
            self.0 = b | 0x8000u16;
            assert(b | 0x8000u16 == (b & 0x7FFF) | 0x8000) by (bit_vector);
        }
        proof {
            old(self).lemma_bits_view();
            Self::lemma_encode_view(old(self)@.0, allow_dynamic_shadows);
        }
    }

    pub fn primitive_count(&self) -> (count: u16)
        ensures
            count == self@.0,
            count < 0x8000,
    {
        proof {
            self.lemma_bits_view();
        }
        self.0 & 0x7FFF
    }

    pub fn set_primitive_count(&mut self, primitive_count: u16)
        requires
            primitive_count < 0x8000,
        ensures
            *final(self) == old(self).with_primitive_count(primitive_count),
            final(self)@ == (primitive_count, old(self)@.1),
    {
        let b = self.0;
        let c = primitive_count;
        let cleared = b & !0x7FFFu16;
        let next = cleared | (c & 0x7FFF);
        assert(c < 0x8000 && b & 0x8000 == 0 ==> next == c) by (bit_vector)
            requires
                next == (b & !0x7FFFu16) | (c & 0x7FFF),
        ;
        assert(c < 0x8000 && b & 0x8000 != 0 ==> next == c | 0x8000) by (bit_vector)
            requires
                next == (b & !0x7FFFu16) | (c & 0x7FFF),
        ;
        self.0 = next;
        proof {
            Self::lemma_encode_view(c, old(self)@.1);
        }
    }
}

/// Setting the count and setting the shadow flag do not interfere: they
/// commute.
pub proof fn law_primitive_count_setters_commute(p: PrimitiveCount, count: u16, allow: bool)
    requires
        count < 0x8000,
    ensures
        p.with_primitive_count(count).with_allow_dynamic_shadows(allow)
            == p.with_allow_dynamic_shadows(allow).with_primitive_count(count),
        p.with_primitive_count(count).with_allow_dynamic_shadows(allow)@ == (count, allow),
{
    p.lemma_bits_view();
    PrimitiveCount::lemma_encode_view(count, p@.1);
    PrimitiveCount::lemma_encode_view(p@.0, allow);
    PrimitiveCount::lemma_encode_view(count, allow);
}

/// The last count set is the one that stays, and setting the count or the
/// flag a value already has leaves the value unchanged.
pub proof fn law_primitive_count_last_set_wins(p: PrimitiveCount, c1: u16, c2: u16, a1: bool, a2: bool)
    requires
        c1 < 0x8000,
        c2 < 0x8000,
    ensures
        p.with_primitive_count(c1).with_primitive_count(c2) == p.with_primitive_count(c2),
        p.with_allow_dynamic_shadows(a1).with_allow_dynamic_shadows(a2)
            == p.with_allow_dynamic_shadows(a2),
        p.with_primitive_count(p@.0) == p,
        p.with_allow_dynamic_shadows(p@.1) == p,
{
    p.lemma_bits_view();
    PrimitiveCount::lemma_encode_view(c1, p@.1);
    PrimitiveCount::lemma_encode_view(p@.0, a1);
}

} // verus!
