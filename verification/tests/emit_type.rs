use bsp::valve::{Contents, EmitType, InvalidEmitType, SurfaceFlags, LeafFlags, MASK_OPAQUE, LIGHTMAP_COUNT};

#[test]
fn emit_type_from_number() {
    assert_eq!(EmitType::try_from(0u32), Ok(EmitType::Surface));
    assert_eq!(EmitType::try_from(1u32), Ok(EmitType::Point));
    assert_eq!(EmitType::try_from(2u32), Ok(EmitType::Spotlight));
    assert_eq!(EmitType::try_from(3u32), Ok(EmitType::SkyLight));
    assert_eq!(EmitType::try_from(4u32), Ok(EmitType::QuakeLight));
    assert_eq!(EmitType::try_from(5u32), Ok(EmitType::SkyAmbient));
}

#[test]
fn emit_type_out_of_range() {
    assert_eq!(EmitType::try_from(6u32), Err(InvalidEmitType { input: 6 }));
    assert_eq!(EmitType::try_from(u32::MAX), Err(InvalidEmitType { input: u32::MAX }));
}

#[test]
fn emit_type_repr_roundtrip() {
    for ty in [
        EmitType::Surface,
        EmitType::Point,
        EmitType::Spotlight,
        EmitType::SkyLight,
        EmitType::QuakeLight,
        EmitType::SkyAmbient,
    ] {
        assert_eq!(EmitType::try_from(ty.repr()), Ok(ty));
    }
    assert_eq!(EmitType::SkyAmbient.repr(), 5);
}

#[test]
fn emit_type_order() {
    assert!(EmitType::Surface < EmitType::Point);
    assert!(EmitType::QuakeLight < EmitType::SkyAmbient);
}

#[test]
fn flag_constants() {
    assert_eq!(MASK_OPAQUE, 0x4081);
    assert_eq!(MASK_OPAQUE, Contents::SOLID | Contents::MOVEABLE | Contents::OPAQUE);
    assert_eq!(SurfaceFlags::HITBOX, 0x8000);
    assert_eq!(LeafFlags::SKY2D, 0x04);
    assert_eq!(Contents::HITBOX, 0x40000000);
    assert_eq!(LIGHTMAP_COUNT, 4);
}

#[test]
fn invalid_emit_type_message() {
    assert_eq!(
        InvalidEmitType { input: 6 }.display_string(),
        "`6` does not correspond to a unit variant"
    );
    assert_eq!(
        InvalidEmitType { input: u32::MAX }.display_string(),
        derive_more::TryFromReprError::new(u32::MAX).to_string()
    );
    let err = EmitType::try_from(1000u32).unwrap_err();
    assert_eq!(err.display_string(), derive_more::TryFromReprError::new(1000u32).to_string());
}
