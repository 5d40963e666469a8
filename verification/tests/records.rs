use bsp::valve::{
    read_record, read_records, record_size, write_record, write_records, AreaFlags, Brush,
    BrushSide, ColorRGBExp32, Edge, Face, Leaf, Lightmap, Model, Node, Plane, PrimitiveCount,
    SurfaceEdge, TextureData, TextureInfo, TextureMapping, Vertex, WorldLight,
};

fn sample_face() -> Face {
    Face {
        plane_index: 7,
        side: 1,
        is_on_node: 0,
        edge_index: 1000,
        edge_count: 4,
        texture_info_index: 12,
        displacement_info_index: -1,
        surface_fog_volume_id: -1,
        styles: [0, 255, 255, 255],
        light_offset: 0x1234,
        area: 64.0f32.to_bits(),
        lightmap: Lightmap { mins: [-3, 4], maxs: [5, -6] },
        original_face: 99,
        primitive_count: PrimitiveCount::new(300, false),
        primitive_index: 2,
        smoothing_groups: 0xDEADBEEF,
    }
}

#[test]
fn record_sizes() {
    assert_eq!(record_size::<Plane>(), 20);
    assert_eq!(record_size::<Vertex>(), 12);
    assert_eq!(record_size::<Edge>(), 4);
    assert_eq!(record_size::<SurfaceEdge>(), 4);
    assert_eq!(record_size::<ColorRGBExp32>(), 4);
    assert_eq!(record_size::<Lightmap>(), 16);
    assert_eq!(record_size::<TextureMapping>(), 16);
    assert_eq!(record_size::<TextureInfo>(), 72);
    assert_eq!(record_size::<TextureData>(), 32);
    assert_eq!(record_size::<PrimitiveCount>(), 2);
    assert_eq!(record_size::<AreaFlags>(), 2);
    assert_eq!(record_size::<Face>(), 56);
    assert_eq!(record_size::<WorldLight>(), 88);
    assert_eq!(record_size::<Model>(), 48);
    assert_eq!(record_size::<Brush>(), 12);
    assert_eq!(record_size::<BrushSide>(), 8);
    assert_eq!(record_size::<Node>(), 32);
    assert_eq!(record_size::<Leaf>(), 32);
}

#[test]
fn edge_little_endian() {
    let e = read_record::<Edge>(&[1, 2, 0xff, 0xff]).unwrap();
    assert_eq!(e.edge, [513, 65535]);
    assert_eq!(write_record(&e), vec![1, 2, 0xff, 0xff]);
}

#[test]
fn wrong_length_is_refused() {
    assert!(read_record::<Edge>(&[1, 2, 3]).is_none());
    assert!(read_record::<Edge>(&[1, 2, 3, 4, 5]).is_none());
    assert!(read_record::<Face>(&[0; 55]).is_none());
    assert!(read_record::<Face>(&[0; 56]).is_some());
}

#[test]
fn signed_fields_are_twos_complement() {
    let s = SurfaceEdge { edge_index: -1 };
    assert_eq!(write_record(&s), vec![0xff, 0xff, 0xff, 0xff]);
    let c = ColorRGBExp32 { r: 1, g: 2, b: 3, exponent: -2 };
    assert_eq!(write_record(&c), vec![1, 2, 3, 0xfe]);
    let back = read_record::<ColorRGBExp32>(&[1, 2, 3, 0xfe]).unwrap();
    assert_eq!((back.r, back.g, back.b, back.exponent), (1, 2, 3, -2));
    let side = read_record::<BrushSide>(&[5, 0, 0xfe, 0xff, 1, 0, 0, 0x80]).unwrap();
    assert_eq!((side.plane_num, side.tex_info, side.disp_info, side.bevel), (5, -2, 1, i16::MIN));
}

#[test]
fn face_layout() {
    let face = sample_face();
    let bytes = write_record(&face);
    assert_eq!(bytes.len(), 56);
    assert_eq!(&bytes[0..2], &[7, 0]);
    assert_eq!(bytes[2], 1);
    assert_eq!(&bytes[4..8], &1000i32.to_le_bytes());
    assert_eq!(&bytes[12..14], &[0xff, 0xff]);
    assert_eq!(&bytes[16..20], &[0, 255, 255, 255]);
    assert_eq!(&bytes[24..28], &64.0f32.to_le_bytes());
    assert_eq!(&bytes[28..32], &(-3i32).to_le_bytes());
    assert_eq!(&bytes[44..48], &99i32.to_le_bytes());
    // 300 with the no-shadow bit: 0x812C.
    assert_eq!(&bytes[48..50], &[0x2C, 0x81]);
    assert_eq!(&bytes[52..56], &[0xEF, 0xBE, 0xAD, 0xDE]);
}

#[test]
fn face_roundtrip() {
    let face = sample_face();
    let back = read_record::<Face>(&write_record(&face)).unwrap();
    assert_eq!(back.plane_index, 7);
    assert_eq!(back.side, 1);
    assert_eq!(back.edge_index, 1000);
    assert_eq!(back.displacement_info_index, -1);
    assert_eq!(back.styles, [0, 255, 255, 255]);
    assert_eq!(f32::from_bits(back.area), 64.0);
    assert_eq!(back.lightmap.mins, [-3, 4]);
    assert_eq!(back.lightmap.maxs, [5, -6]);
    assert_eq!(back.primitive_count.primitive_count(), 300);
    assert!(!back.primitive_count.allow_dynamic_shadows());
    assert_eq!(back.smoothing_groups, 0xDEADBEEF);
}

#[test]
fn bytes_roundtrip() {
    let bytes: Vec<u8> = (0u8..56).map(|i| i.wrapping_mul(37)).collect();
    let face = read_record::<Face>(&bytes).unwrap();
    assert_eq!(write_record(&face), bytes);

    let bytes: Vec<u8> = (0u8..88).map(|i| i.wrapping_mul(11).wrapping_add(3)).collect();
    let light = read_record::<WorldLight>(&bytes).unwrap();
    assert_eq!(write_record(&light), bytes);

    let bytes: Vec<u8> = (0u8..72).collect();
    let info = read_record::<TextureInfo>(&bytes).unwrap();
    assert_eq!(write_record(&info), bytes);
}

#[test]
fn leaf_area_flags_layout() {
    let leaf = Leaf {
        contents: 1,
        cluster: -1,
        area_flags: AreaFlags::new(42, 5),
        mins: [-16, -16, 0],
        maxs: [16, 16, 64],
        first_leaf_face: 1,
        num_leaf_faces: 2,
        first_leaf_brush: 3,
        num_leaf_brushes: 4,
        leaf_water_data_id: -1,
        _padding: 0,
    };
    let bytes = write_record(&leaf);
    assert_eq!(bytes.len(), 32);
    // 42 | 5 << 9 == 0x0A2A.
    assert_eq!(&bytes[6..8], &[0x2A, 0x0A]);
    let back = read_record::<Leaf>(&bytes).unwrap();
    assert_eq!(back.area_flags.area(), 42);
    assert_eq!(back.area_flags.flags(), 5);
    assert_eq!(back.mins, [-16, -16, 0]);
    assert_eq!(back.leaf_water_data_id, -1);
}

#[test]
fn bitfields_read_from_any_bits() {
    let p = read_record::<PrimitiveCount>(&[0xff, 0xff]).unwrap();
    assert_eq!(p.primitive_count(), 0x7FFF);
    assert!(!p.allow_dynamic_shadows());
    assert_eq!(write_record(&p), vec![0xff, 0xff]);

    let a = read_record::<AreaFlags>(&[0xff, 0xff]).unwrap();
    assert_eq!(a.area(), 511);
    assert_eq!(a.flags(), 0x7F);
    assert_eq!(write_record(&a), vec![0xff, 0xff]);
}

#[test]
fn plane_float_bits() {
    let plane = Plane { normal: [0.0f32.to_bits(), 0.0f32.to_bits(), 1.0f32.to_bits()], dist: (-128.5f32).to_bits(), ty: 2 };
    let bytes = write_record(&plane);
    assert_eq!(&bytes[8..12], &1.0f32.to_le_bytes());
    assert_eq!(&bytes[12..16], &(-128.5f32).to_le_bytes());
    let back = read_record::<Plane>(&bytes).unwrap();
    assert_eq!(f32::from_bits(back.dist), -128.5);
    assert_eq!(back.ty, 2);
}

#[test]
fn lump_of_edges() {
    let lump = [1, 0, 2, 0, 3, 0, 4, 0, 5, 0, 6, 0];
    let edges = read_records::<Edge>(&lump).unwrap();
    assert_eq!(edges.len(), 3);
    assert_eq!(edges[0].edge, [1, 2]);
    assert_eq!(edges[2].edge, [5, 6]);
    assert_eq!(write_records(&edges), lump.to_vec());
}

#[test]
fn partial_lump_is_refused() {
    assert!(read_records::<Edge>(&[1, 0, 2, 0, 3]).is_none());
    assert!(read_records::<Face>(&[0; 57]).is_none());
    assert_eq!(read_records::<Face>(&[]).unwrap().len(), 0);
}

#[test]
fn lump_roundtrip() {
    let brushes = vec![
        Brush { first_side: 0, num_sides: 6, contents: 1 },
        Brush { first_side: 6, num_sides: 5, contents: -1 },
    ];
    let bytes = write_records(&brushes);
    assert_eq!(bytes.len(), 24);
    let back = read_records::<Brush>(&bytes).unwrap();
    assert_eq!(back.len(), 2);
    assert_eq!((back[1].first_side, back[1].num_sides, back[1].contents), (6, 5, -1));
}

#[test]
fn node_and_model_layout() {
    let node = Node {
        plane_num: 3,
        children: [1, -2],
        mins: [-1, -2, -3],
        maxs: [1, 2, 3],
        first_face: 10,
        num_faces: 2,
        area: 1,
        _padding: 0,
    };
    let bytes = write_record(&node);
    assert_eq!(&bytes[8..12], &(-2i32).to_le_bytes());
    assert_eq!(&bytes[12..14], &(-1i16).to_le_bytes());
    let back = read_record::<Node>(&bytes).unwrap();
    assert_eq!(back.children, [1, -2]);
    assert_eq!(back.maxs, [1, 2, 3]);

    let model = Model {
        mins: [1, 2, 3],
        maxs: [4, 5, 6],
        origin: [7, 8, 9],
        head_node: 0,
        face_index: 5,
        face_count: 7,
    };
    let back = read_record::<Model>(&write_record(&model)).unwrap();
    assert_eq!((back.origin, back.face_count), ([7, 8, 9], 7));
}

#[test]
fn texture_records() {
    let data = TextureData {
        reflectivity: [1, 2, 3],
        name_index: 4,
        width: 256,
        height: 128,
        view_width: 256,
        view_height: 128,
    };
    let bytes = write_record(&data);
    assert_eq!(&bytes[16..20], &256i32.to_le_bytes());
    let info = TextureInfo {
        texels: [TextureMapping { xyz: [1, 2, 3], offset: 4 }, TextureMapping { xyz: [5, 6, 7], offset: 8 }],
        luxels: [TextureMapping { xyz: [9, 10, 11], offset: 12 }, TextureMapping { xyz: [13, 14, 15], offset: 16 }],
        flags: 0x400,
        texture_data_index: 3,
    };
    let bytes = write_record(&info);
    for k in 0..16u32 {
        let at = (k * 4) as usize;
        assert_eq!(&bytes[at..at + 4], &(k + 1).to_le_bytes());
    }
    let back = read_record::<TextureInfo>(&bytes).unwrap();
    assert_eq!(back.luxels[1].xyz, [13, 14, 15]);
    assert_eq!(back.texture_data_index, 3);
}

#[test]
fn world_light_layout() {
    let light = WorldLight {
        origin: [0; 3],
        intensity: [0; 3],
        normal: [0; 3],
        cluster: 5,
        ty: 2,
        style: 0,
        penumbra_start: 0,
        penumbra_end: 0,
        exponent: 0,
        radius: 0,
        constant_attn: 0,
        linear_attn: 0,
        quadratic_attn: 0,
        flags: 1,
        texinfo: -1,
        owner: 0,
    };
    let bytes = write_record(&light);
    assert_eq!(&bytes[36..40], &5i32.to_le_bytes());
    assert_eq!(&bytes[40..44], &2u32.to_le_bytes());
    assert_eq!(&bytes[80..84], &(-1i32).to_le_bytes());
}
