use bsp::valve::{AreaFlags, LeafFlags, PrimitiveCount};

#[test]
fn primitive_count() {
    let mut primitive_count = PrimitiveCount::new(0, false);
    assert_eq!(primitive_count.allow_dynamic_shadows(), false);
    assert_eq!(primitive_count.primitive_count(), 0);

    primitive_count.set_allow_dynamic_shadows(true);
    assert_eq!(primitive_count.allow_dynamic_shadows(), true);
    assert_eq!(primitive_count.primitive_count(), 0);

    primitive_count.set_primitive_count(512);
    assert_eq!(primitive_count.allow_dynamic_shadows(), true);
    assert_eq!(primitive_count.primitive_count(), 512);
}

#[test]
fn area_flags() {
    let mut af = AreaFlags::new(0, 0);
    assert_eq!(af.area(), 0);
    assert_eq!(af.flags(), 0);

    af.set_area(511);
    assert_eq!(af.area(), 511);
    assert_eq!(af.flags(), 0);

    af.set_flags(LeafFlags::SKY | LeafFlags::SKY2D);
    assert_eq!(af.area(), 511);
    assert_eq!(af.flags(), LeafFlags::SKY | LeafFlags::SKY2D);

    af.set_area(42);
    assert_eq!(af.area(), 42);
    assert_eq!(af.flags(), LeafFlags::SKY | LeafFlags::SKY2D);
}

#[test]
fn primitive_count_extremes() {
    let p = PrimitiveCount::new(0x7FFF, true);
    assert_eq!(p.primitive_count(), 0x7FFF);
    assert!(p.allow_dynamic_shadows());

    let mut q = PrimitiveCount::new(0x7FFF, false);
    assert_eq!(q.primitive_count(), 0x7FFF);
    assert!(!q.allow_dynamic_shadows());
    q.set_primitive_count(0);
    assert_eq!(q.primitive_count(), 0);
    assert!(!q.allow_dynamic_shadows());
}

#[test]
fn primitive_count_setters_commute() {
    let mut a = PrimitiveCount::new(17, true);
    a.set_primitive_count(300);
    a.set_allow_dynamic_shadows(false);
    let mut b = PrimitiveCount::new(17, true);
    b.set_allow_dynamic_shadows(false);
    b.set_primitive_count(300);
    assert_eq!(a.primitive_count(), b.primitive_count());
    assert_eq!(a.allow_dynamic_shadows(), b.allow_dynamic_shadows());
    assert_eq!(a.primitive_count(), 300);
    assert!(!a.allow_dynamic_shadows());
}

#[test]
fn primitive_count_last_set_wins() {
    let mut p = PrimitiveCount::new(5, false);
    p.set_primitive_count(9);
    p.set_primitive_count(4);
    p.set_allow_dynamic_shadows(true);
    p.set_allow_dynamic_shadows(false);
    assert_eq!(p.primitive_count(), 4);
    assert!(!p.allow_dynamic_shadows());
}

#[test]
fn area_flags_extremes() {
    let af = AreaFlags::new(511, 0x7F);
    assert_eq!(af.area(), 511);
    assert_eq!(af.flags(), 0x7F);

    let mut bf = AreaFlags::new(0, 0x7F);
    bf.set_area(1);
    assert_eq!(bf.area(), 1);
    assert_eq!(bf.flags(), 0x7F);
    bf.set_flags(LeafFlags::RADIAL);
    assert_eq!(bf.area(), 1);
    assert_eq!(bf.flags(), LeafFlags::RADIAL);
}

#[test]
fn area_flags_setters_commute() {
    let mut a = AreaFlags::new(3, 1);
    a.set_area(200);
    a.set_flags(6);
    let mut b = AreaFlags::new(3, 1);
    b.set_flags(6);
    b.set_area(200);
    assert_eq!((a.area(), a.flags()), (b.area(), b.flags()));
    assert_eq!((a.area(), a.flags()), (200, 6));
}

#[test]
fn area_flags_last_set_wins() {
    let mut a = AreaFlags::new(3, 1);
    a.set_area(7);
    a.set_area(8);
    a.set_flags(2);
    a.set_flags(3);
    assert_eq!((a.area(), a.flags()), (8, 3));
}

#[test]
fn primitive_count_debug_text() {
    assert_eq!(
        PrimitiveCount::new(0, false).debug_string(),
        "PrimitiveCount { allow_dynamic_shadows: false, primitive_count: 0 }"
    );
    assert_eq!(
        PrimitiveCount::new(512, true).debug_string(),
        "PrimitiveCount { allow_dynamic_shadows: true, primitive_count: 512 }"
    );
    assert_eq!(
        PrimitiveCount::new(0x7FFF, false).debug_string(),
        "PrimitiveCount { allow_dynamic_shadows: false, primitive_count: 32767 }"
    );
}

#[test]
fn area_flags_debug_text() {
    assert_eq!(AreaFlags::new(0, 0).debug_string(), "AreaFlags { area: 0, flags: 0 }");
    assert_eq!(
        AreaFlags::new(511, LeafFlags::SKY | LeafFlags::SKY2D).debug_string(),
        "AreaFlags { area: 511, flags: 5 }"
    );
    assert_eq!(AreaFlags::new(42, 127).debug_string(), "AreaFlags { area: 42, flags: 127 }");
}
