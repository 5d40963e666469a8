//! The kinds of world lights, and their numbering in a light record.
use vstd::prelude::*;
use vstd::string::StringExecFns;
use crate::valve::text::{append_decimal, decimal};

verus! {

/// Lights used to illuminate the world
#[derive(Clone, Copy, Debug, PartialEq, Eq, Structural, PartialOrd, Ord)]
pub enum EmitType {
    /// 90 degree spotlight
    Surface,
    /// simple point light source
    Point,
    /// Spotlight with penumbra
    Spotlight,
    /// Directional light with no falloff (surface must trace to SKY texture)
    SkyLight,
    /// Linear falloff, non-lambertian
    QuakeLight,
    /// Spherical light source with no falloff (surface must trace to SKY texture)
    SkyAmbient,
}

/// A number that names no `EmitType`.
#[derive(Clone, Copy, Debug, PartialEq, Eq, Structural)]
pub struct InvalidEmitType {
    /// The number that was given.
    pub input: u32,
}

/// The number of each kind of light, in declaration order from zero.
pub open spec fn spec_emit_type_repr(ty: EmitType) -> u32 {
    match ty {
        EmitType::Surface => 0,
        EmitType::Point => 1,
        EmitType::Spotlight => 2,
        EmitType::SkyLight => 3,
        EmitType::QuakeLight => 4,
        EmitType::SkyAmbient => 5,
    }
}

/// The kind of light that a number names, or the error that carries it.
pub open spec fn spec_emit_type_from_repr(v: u32) -> Result<EmitType, InvalidEmitType> {
    if v == 0 {
        Ok(EmitType::Surface)
    } else if v == 1 {
        Ok(EmitType::Point)
    } else if v == 2 {
        Ok(EmitType::Spotlight)
    } else if v == 3 {
        Ok(EmitType::SkyLight)
    } else if v == 4 {
        Ok(EmitType::QuakeLight)
    } else if v == 5 {
        Ok(EmitType::SkyAmbient)
    } else {
        Err(InvalidEmitType { input: v })
    }
}

impl InvalidEmitType {
    /// The message of this error: the number, in backquotes, does not name
    /// a kind of light.
    pub open spec fn spec_display_text(self) -> Seq<char> {
        "`"@ + decimal(self.input as nat) + "` does not correspond to a unit variant"@
    }

    /// The message of this error, as the error of a derived conversion from
    /// a number displays it.
    pub fn display_string(&self) -> (text: String)
        ensures
            text@ == self.spec_display_text(),
    {
        let mut text = String::from_str("`");
        append_decimal(&mut text, self.input);
        text.append("` does not correspond to a unit variant");
        text
    }
}

impl EmitType {
    /// The number of this kind of light, as a light record stores it.
    pub fn repr(self) -> (v: u32)
        ensures
            v == spec_emit_type_repr(self),
    {
        match self {
            EmitType::Surface => 0,
            EmitType::Point => 1,
            EmitType::Spotlight => 2,
            EmitType::SkyLight => 3,
            EmitType::QuakeLight => 4,
            EmitType::SkyAmbient => 5,
        }
    }
}

impl TryFrom<u32> for EmitType {
    type Error = InvalidEmitType;

    fn try_from(v: u32) -> (result: Result<EmitType, InvalidEmitType>)
        ensures
            result == spec_emit_type_from_repr(v),
    {
        if v == 0 {
            Ok(EmitType::Surface)
        } else if v == 1 {
            Ok(EmitType::Point)
        } else if v == 2 {
            Ok(EmitType::Spotlight)
        } else if v == 3 {
            Ok(EmitType::SkyLight)
        } else if v == 4 {
            Ok(EmitType::QuakeLight)
        } else if v == 5 {
            Ok(EmitType::SkyAmbient)
        } else {
            Err(InvalidEmitType { input: v })
        }
    }
}

impl vstd::std_specs::convert::TryFromSpecImpl<u32> for EmitType {
    open spec fn obeys_try_from_spec() -> bool {
        true
    }

    open spec fn try_from_spec(v: u32) -> Result<EmitType, InvalidEmitType> {
        spec_emit_type_from_repr(v)
    }
}

/// A kind of light read back from its number is that kind of light.
pub proof fn law_emit_type_repr_roundtrip(ty: EmitType)
    ensures
        spec_emit_type_from_repr(spec_emit_type_repr(ty)) == Ok::<EmitType, InvalidEmitType>(ty),
{
}

/// A number is accepted exactly when it is below six, and then the kind of
/// light it names has that number.
pub proof fn law_emit_type_from_repr(v: u32)
    ensures
        spec_emit_type_from_repr(v) is Ok <==> v < 6,
        spec_emit_type_from_repr(v) matches Ok(ty) ==> spec_emit_type_repr(ty) == v,
        spec_emit_type_from_repr(v) matches Err(e) ==> e.input == v,
{
}

} // verus!
