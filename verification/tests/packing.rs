use sifu_render::dim::Dim;
use sifu_render::errors::ErrorKind;
use sifu_render::field::RawField;
use sifu_render::field::RepeatedRawField;
use sifu_render::raw_value::RawValueCount;
use sifu_render::scalar::RustScalar;
use sifu_render::scalar::WgslScalar;
use sifu_render::uniform_layout::UniformField;
use sifu_render::uniform_layout::UniformLayout;
use sifu_render::vertex_layout::shader_location_count;
use sifu_render::vertex_layout::vertex_attributes_quote;
use sifu_render::vertex_layout::vertex_stride;
use sifu_render::wgsl_type::VertexType;
use sifu_render::wgsl_type::WgslType;

fn vertex_field(name: &str, ty: WgslType<RustScalar>) -> RawField<RustScalar> {
    RawField::single(name.to_string(), ty)
}

fn uniform_field(name: &str, ty: WgslType<WgslScalar>) -> RawField<WgslScalar> {
    RawField::single(name.to_string(), ty)
}

fn vec_of<S>(dim: Dim, scalar: S) -> WgslType<S> {
    WgslType::Vec { dim, scalar }
}

/// The entries of a layout as (is padding, name, size).
fn entries(layout: &UniformLayout<WgslScalar>) -> Vec<(bool, String, usize)> {
    layout
        .fields
        .iter()
        .map(|slot| (slot.is_padding(), slot.ident(), slot.byte_count()))
        .collect()
}

#[test]
fn sequential_position_and_color() {
    let fields = vec![
        vertex_field("position", vec_of(Dim::D3, RustScalar::F32)),
        vertex_field("color", vec_of(Dim::D4, RustScalar::F32)),
    ];
    let units = RepeatedRawField::iter(&fields);
    let attributes = vertex_attributes_quote(&units, None).unwrap();
    assert_eq!(attributes.len(), 2);
    assert_eq!(attributes[0].format, "Float32x3");
    assert_eq!(attributes[0].offset, 0);
    assert_eq!(attributes[0].shader_location, 0);
    assert_eq!(attributes[1].format, "Float32x4");
    assert_eq!(attributes[1].offset, 12);
    assert_eq!(attributes[1].shader_location, 1);
    assert_eq!(vertex_stride(&units), 28);
    assert_eq!(shader_location_count(&units), 2);
}

#[test]
fn sequential_offsets_are_prefix_sums() {
    let fields = vec![
        vertex_field("a", WgslType::Scalar(RustScalar::U8)),
        vertex_field("b", vec_of(Dim::D2, RustScalar::I16)),
        vertex_field("c", vec_of(Dim::D3, RustScalar::F32)),
        vertex_field("d", WgslType::Scalar(RustScalar::U16)),
        vertex_field("e", vec_of(Dim::D4, RustScalar::U8)),
    ];
    let units = RepeatedRawField::iter(&fields);
    let attributes = vertex_attributes_quote(&units, None).unwrap();
    let mut sum: u64 = 0;
    for (unit, attribute) in units.iter().zip(attributes.iter()) {
        assert_eq!(attribute.offset, sum);
        sum += unit.byte_count() as u64;
    }
    let offsets: Vec<u64> = attributes.iter().map(|a| a.offset).collect();
    assert_eq!(offsets, vec![0, 1, 5, 17, 19]);
    assert_eq!(vertex_stride(&units), 23);
    assert_eq!(sum, 23);
}

#[test]
fn sequential_slots_continue_after_offset() {
    let fields = vec![
        vertex_field("mat", WgslType::Mat { dim_x: Dim::D4, dim_y: Dim::D4, scalar: RustScalar::F32 }),
    ];
    let units = RepeatedRawField::iter(&fields);
    let attributes = vertex_attributes_quote(&units, Some(2)).unwrap();
    let slots: Vec<u32> = attributes.iter().map(|a| a.shader_location).collect();
    assert_eq!(slots, vec![2, 3, 4, 5]);
    let offsets: Vec<u64> = attributes.iter().map(|a| a.offset).collect();
    assert_eq!(offsets, vec![0, 16, 32, 48]);
}

#[test]
fn aligned_color_and_thing() {
    let fields = vec![
        uniform_field("color", vec_of(Dim::D3, WgslScalar::F32)),
        uniform_field("thing", vec_of(Dim::D2, WgslScalar::U32)),
    ];
    let layout = UniformLayout::from_iter(RepeatedRawField::iter(&fields));
    assert_eq!(
        entries(&layout),
        vec![
            (false, "color".to_string(), 12),
            (true, "padding0".to_string(), 4),
            (false, "thing".to_string(), 8),
            (true, "padding1".to_string(), 8),
        ]
    );
    assert_eq!(layout.offsets(), vec![0, 12, 16, 24]);
    assert_eq!(layout.byte_count(), 32);
    assert_eq!(layout.padding_index, 2);
}

#[test]
fn aligned_units_start_at_multiples_of_their_alignment() {
    let fields = vec![
        uniform_field("a", WgslType::Scalar(WgslScalar::F32)),
        uniform_field("b", vec_of(Dim::D2, WgslScalar::I32)),
        uniform_field("c", WgslType::Scalar(WgslScalar::U32)),
        uniform_field("d", vec_of(Dim::D4, WgslScalar::F32)),
        uniform_field("e", vec_of(Dim::D3, WgslScalar::F32)),
        uniform_field("f", WgslType::Mat { dim_x: Dim::D3, dim_y: Dim::D2, scalar: WgslScalar::F32 }),
    ];
    let layout = UniformLayout::from_iter(RepeatedRawField::iter(&fields));
    let offsets = layout.offsets();
    let mut units = 0;
    for (slot, offset) in layout.fields.iter().zip(offsets.iter()) {
        if let UniformField::Field(unit) = slot {
            assert_eq!(offset % unit.byte_align(), 0);
            units += 1;
        }
    }
    assert_eq!(units, 7);
    assert_eq!(layout.byte_count() % 16, 0);
    let sizes: usize = layout.fields.iter().map(|slot| slot.byte_count()).sum();
    assert_eq!(sizes, layout.byte_count());
    assert_eq!(offsets, vec![0, 4, 8, 16, 20, 32, 48, 60, 64, 76, 80, 92]);
    assert_eq!(layout.byte_count(), 96);
}

#[test]
fn empty_uniform_block_has_no_entries() {
    let fields: Vec<RawField<WgslScalar>> = Vec::new();
    let layout = UniformLayout::from_iter(RepeatedRawField::iter(&fields));
    assert_eq!(layout.fields.len(), 0);
    assert_eq!(layout.byte_count(), 0);
}

#[test]
fn align_to_adds_what_is_missing() {
    let mut layout: UniformLayout<WgslScalar> = UniformLayout::new();
    layout.align_to(16);
    assert_eq!(layout.fields.len(), 0);
    let fields = vec![uniform_field("x", WgslType::Scalar(WgslScalar::F32))];
    for unit in RepeatedRawField::iter(&fields) {
        layout.push(unit);
    }
    assert_eq!(layout.byte_count(), 4);
    layout.align_to(8);
    assert_eq!(layout.byte_count(), 8);
    layout.align_to(8);
    assert_eq!(layout.byte_count(), 8);
    layout.align_to(16);
    assert_eq!(layout.byte_count(), 16);
    assert_eq!(
        entries(&layout),
        vec![
            (false, "x".to_string(), 4),
            (true, "padding0".to_string(), 4),
            (true, "padding1".to_string(), 8),
        ]
    );
}

#[test]
fn packing_twice_gives_the_same_layout() {
    let fields = vec![
        uniform_field("color", vec_of(Dim::D3, WgslScalar::F32)),
        uniform_field("value", WgslType::Scalar(WgslScalar::F32)),
        uniform_field("mat", WgslType::Mat { dim_x: Dim::D2, dim_y: Dim::D3, scalar: WgslScalar::I32 }),
    ];
    let first = UniformLayout::from_iter(RepeatedRawField::iter(&fields));
    let second = UniformLayout::from_iter(RepeatedRawField::iter(&fields));
    assert_eq!(entries(&first), entries(&second));
    assert_eq!(first.offsets(), second.offsets());
    assert_eq!(first.byte_count(), second.byte_count());
    let vertex_fields = vec![
        vertex_field("position", vec_of(Dim::D3, RustScalar::F32)),
        vertex_field("id", WgslType::Scalar(RustScalar::U16)),
    ];
    let units = RepeatedRawField::iter(&vertex_fields);
    assert_eq!(
        vertex_attributes_quote(&units, None).unwrap(),
        vertex_attributes_quote(&units, None).unwrap()
    );
}

#[test]
fn vec3_is_aligned_as_four_and_sized_as_three() {
    let ty = VertexType::Vec { dim: Dim::D3, scalar: WgslScalar::F32 };
    assert_eq!(ty.byte_align(), 16);
    assert_eq!(ty.byte_count(), 12);
    let narrow = VertexType::Vec { dim: Dim::D3, scalar: RustScalar::U8 };
    assert_eq!(narrow.byte_align(), 4);
    assert_eq!(narrow.byte_count(), 3);
    let fields = vec![
        uniform_field("lead", vec_of(Dim::D2, WgslScalar::F32)),
        uniform_field("a", vec_of(Dim::D3, WgslScalar::F32)),
        uniform_field("b", vec_of(Dim::D3, WgslScalar::F32)),
        uniform_field("c", vec_of(Dim::D2, WgslScalar::F32)),
    ];
    let layout = UniformLayout::from_iter(RepeatedRawField::iter(&fields));
    // lead 0..8, padding 8..16, a 16..28, padding 28..32, b 32..44,
    // padding 44..48, c 48..56, padding 56..64
    assert_eq!(layout.offsets(), vec![0, 8, 16, 28, 32, 44, 48, 56]);
    assert_eq!(layout.byte_count(), 64);
}

#[test]
fn scalar_after_vec3_takes_the_fourth_slot() {
    let fields = vec![
        uniform_field("color", vec_of(Dim::D3, WgslScalar::F32)),
        uniform_field("value", WgslType::Scalar(WgslScalar::F32)),
    ];
    let layout = UniformLayout::from_iter(RepeatedRawField::iter(&fields));
    assert_eq!(
        entries(&layout),
        vec![(false, "color".to_string(), 12), (false, "value".to_string(), 4)]
    );
    assert_eq!(layout.offsets(), vec![0, 12]);
    assert_eq!(layout.byte_count(), 16);
}

#[test]
fn matrix_four_by_four_expands_to_four_contiguous_rows() {
    let fields = vec![uniform_field(
        "view_proj",
        WgslType::Mat { dim_x: Dim::D4, dim_y: Dim::D4, scalar: WgslScalar::F32 },
    )];
    let units = RepeatedRawField::iter(&fields);
    let names: Vec<String> = units.iter().map(|u| u.ident()).collect();
    assert_eq!(names, vec!["view_proj0", "view_proj1", "view_proj2", "view_proj3"]);
    for (k, unit) in units.iter().enumerate() {
        assert_eq!(unit.repeat, Some(k));
        assert_eq!(unit.source, 0);
        assert_eq!(unit.ty, VertexType::Vec { dim: Dim::D4, scalar: WgslScalar::F32 });
        assert_eq!(unit.byte_count(), 16);
    }
    let layout = UniformLayout::from_iter(units);
    assert_eq!(layout.fields.len(), 4);
    assert!(layout.fields.iter().all(|slot| !slot.is_padding()));
    assert_eq!(layout.offsets(), vec![0, 16, 32, 48]);
    assert_eq!(layout.byte_count(), 64);

    let vertex_fields = vec![vertex_field(
        "view_proj",
        WgslType::Mat { dim_x: Dim::D4, dim_y: Dim::D4, scalar: RustScalar::F32 },
    )];
    let vertex_units = RepeatedRawField::iter(&vertex_fields);
    let attributes = vertex_attributes_quote(&vertex_units, None).unwrap();
    let offsets: Vec<u64> = attributes.iter().map(|a| a.offset).collect();
    assert_eq!(offsets, vec![0, 16, 32, 48]);
    assert!(attributes.iter().all(|a| a.format == "Float32x4"));
    assert_eq!(vertex_stride(&vertex_units), 64);
}

#[test]
fn plain_fields_expand_to_one_unit_without_index() {
    let fields = vec![
        vertex_field("a", WgslType::Scalar(RustScalar::I8)),
        vertex_field("b", vec_of(Dim::D2, RustScalar::F32)),
    ];
    let units = RepeatedRawField::iter(&fields);
    assert_eq!(units.len(), 2);
    assert_eq!(units[0].repeat, None);
    assert_eq!(units[0].ident(), "a");
    assert_eq!(units[0].ty, VertexType::Scalar(RustScalar::I8));
    assert_eq!(units[1].repeat, None);
    assert_eq!(units[1].ident(), "b");
    assert_eq!(units[1].source, 1);
}

#[test]
fn repeated_fields_expand_once_for_each_repeat() {
    let single = RawField::repeated(
        "one".to_string(),
        vec_of(Dim::D2, RustScalar::U16),
        RawValueCount::N1,
    );
    let triple = RawField::repeated(
        "bone".to_string(),
        vec_of(Dim::D4, RustScalar::U8),
        RawValueCount::N3,
    );
    let matrices = RawField::repeated(
        "m".to_string(),
        WgslType::Mat { dim_x: Dim::D2, dim_y: Dim::D2, scalar: RustScalar::F32 },
        RawValueCount::N2,
    );
    assert_eq!(single.unit_count(), 1);
    assert_eq!(single.byte_count(), 4);
    assert_eq!(triple.unit_count(), 3);
    assert_eq!(triple.byte_count(), 12);
    assert_eq!(matrices.unit_count(), 4);
    assert_eq!(matrices.byte_count(), 32);
    let fields = vec![single, triple, matrices];
    let units = RepeatedRawField::iter(&fields);
    let names: Vec<String> = units.iter().map(|u| u.ident()).collect();
    assert_eq!(names, vec!["one0", "bone0", "bone1", "bone2", "m0", "m1", "m2", "m3"]);
    let total: usize = units.iter().map(|u| u.byte_count()).sum();
    let declared: usize = fields.iter().map(|f| f.byte_count()).sum();
    assert_eq!(total, declared);
    assert_eq!(total, 48);
}

#[test]
fn narrow_vec3_is_rejected_in_vertex_streams() {
    for scalar in [RustScalar::I8, RustScalar::I16, RustScalar::U8, RustScalar::U16] {
        let ty = VertexType::Vec { dim: Dim::D3, scalar };
        assert_eq!(ty.vertex_format(), None);
    }
    for scalar in [RustScalar::I32, RustScalar::U32, RustScalar::F32] {
        let ty = VertexType::Vec { dim: Dim::D3, scalar };
        assert!(ty.vertex_format().is_some());
    }
    let fields = vec![
        vertex_field("ok", vec_of(Dim::D3, RustScalar::F32)),
        vertex_field("bad", vec_of(Dim::D3, RustScalar::U8)),
        vertex_field("fine", vec_of(Dim::D4, RustScalar::U8)),
        vertex_field("worse", WgslType::Mat { dim_x: Dim::D3, dim_y: Dim::D2, scalar: RustScalar::I16 }),
    ];
    let units = RepeatedRawField::iter(&fields);
    let error = vertex_attributes_quote(&units, None).unwrap_err();
    assert_eq!(error.len(), 3);
    let found: Vec<(ErrorKind, Option<usize>, Option<String>)> = error
        .diagnostics
        .iter()
        .map(|d| (d.kind, d.position, d.field.clone()))
        .collect();
    assert_eq!(
        found,
        vec![
            (ErrorKind::Format, Some(1), Some("bad".to_string())),
            (ErrorKind::Format, Some(3), Some("worse".to_string())),
            (ErrorKind::Format, Some(3), Some("worse".to_string())),
        ]
    );
    assert!(error
        .diagnostics
        .iter()
        .all(|d| d.message == "vec3 is not allowed for 8 and 16 bit values"));
}

#[test]
fn vertex_formats_are_named_by_scalar_and_width() {
    assert_eq!(VertexType::Scalar(RustScalar::F32).vertex_format().unwrap(), "Float32");
    assert_eq!(VertexType::Scalar(RustScalar::U8).vertex_format().unwrap(), "Uint8");
    assert_eq!(
        VertexType::Vec { dim: Dim::D2, scalar: RustScalar::I16 }.vertex_format().unwrap(),
        "Sint16x2"
    );
    assert_eq!(
        VertexType::Vec { dim: Dim::D3, scalar: RustScalar::F32 }.vertex_format().unwrap(),
        "Float32x3"
    );
    assert_eq!(
        VertexType::Vec { dim: Dim::D4, scalar: RustScalar::U32 }.vertex_format().unwrap(),
        "Uint32x4"
    );
}

#[test]
fn sizes_and_alignments_follow_the_table() {
    let sizes: Vec<usize> = [
        RustScalar::I8,
        RustScalar::I16,
        RustScalar::I32,
        RustScalar::U8,
        RustScalar::U16,
        RustScalar::U32,
        RustScalar::F32,
    ]
    .iter()
    .map(|s| s.byte_count())
    .collect();
    assert_eq!(sizes, vec![1, 2, 4, 1, 2, 4, 4]);
    assert_eq!(WgslScalar::I32.byte_count(), 4);
    assert_eq!(VertexType::Scalar(RustScalar::U16).byte_align(), 2);
    assert_eq!(VertexType::Vec { dim: Dim::D2, scalar: RustScalar::U16 }.byte_align(), 4);
    assert_eq!(VertexType::Vec { dim: Dim::D3, scalar: RustScalar::U16 }.byte_align(), 8);
    assert_eq!(VertexType::Vec { dim: Dim::D4, scalar: RustScalar::U16 }.byte_align(), 8);
    assert_eq!(VertexType::Vec { dim: Dim::D2, scalar: WgslScalar::F32 }.byte_align(), 8);
    assert_eq!(VertexType::Vec { dim: Dim::D4, scalar: WgslScalar::F32 }.byte_align(), 16);
    assert_eq!(
        WgslType::Mat { dim_x: Dim::D3, dim_y: Dim::D4, scalar: WgslScalar::F32 }.byte_count(),
        48
    );
    assert_eq!(WgslType::Vec { dim: Dim::D3, scalar: RustScalar::I16 }.byte_count(), 6);
    assert_eq!(WgslType::Scalar(RustScalar::U8).byte_count(), 1);
}

#[test]
fn shapes_are_made_from_their_dimensions() {
    assert_eq!(WgslType::new(RustScalar::F32, None, None), WgslType::Scalar(RustScalar::F32));
    assert_eq!(
        WgslType::new(RustScalar::F32, None, Some(Dim::D3)),
        WgslType::Scalar(RustScalar::F32)
    );
    assert_eq!(
        WgslType::new(RustScalar::F32, Some(Dim::D3), None),
        WgslType::Vec { dim: Dim::D3, scalar: RustScalar::F32 }
    );
    assert_eq!(
        WgslType::new(RustScalar::F32, Some(Dim::D3), Some(Dim::D2)),
        WgslType::Mat { dim_x: Dim::D3, dim_y: Dim::D2, scalar: RustScalar::F32 }
    );
    let rows = WgslType::Mat { dim_x: Dim::D3, dim_y: Dim::D2, scalar: RustScalar::F32 }
        .to_vertex_type();
    assert_eq!(
        rows,
        vec![
            (VertexType::Vec { dim: Dim::D3, scalar: RustScalar::F32 }, Some(0)),
            (VertexType::Vec { dim: Dim::D3, scalar: RustScalar::F32 }, Some(1)),
        ]
    );
    assert_eq!(
        WgslType::Scalar(RustScalar::U8).to_vertex_type(),
        vec![(VertexType::Scalar(RustScalar::U8), None)]
    );
    let widened: VertexType<WgslScalar> =
        VertexType::Vec { dim: Dim::D2, scalar: RustScalar::U8 }.scalar_into();
    assert_eq!(widened, VertexType::Vec { dim: Dim::D2, scalar: WgslScalar::U32 });
    assert_eq!(
        VertexType::Scalar(RustScalar::I16).into_wgsl_type(),
        WgslType::Scalar(RustScalar::I16)
    );
}

#[test]
fn a_pushed_unit_is_the_last_entry_at_an_aligned_offset() {
    let fields = vec![
        uniform_field("a", WgslType::Scalar(WgslScalar::F32)),
        uniform_field("b", vec_of(Dim::D4, WgslScalar::I32)),
        uniform_field("c", vec_of(Dim::D2, WgslScalar::U32)),
        uniform_field("d", vec_of(Dim::D3, WgslScalar::F32)),
    ];
    let mut layout: UniformLayout<WgslScalar> = UniformLayout::new();
    for unit in RepeatedRawField::iter(&fields) {
        let before = layout.byte_count();
        let name = unit.ident();
        let size = unit.byte_count();
        let align = unit.byte_align();
        layout.push(unit);
        let start = layout.byte_count() - size;
        assert_eq!(start % align, 0);
        assert!(start >= before && start < before + align);
        match layout.fields.last().unwrap() {
            UniformField::Field(last) => assert_eq!(last.ident(), name),
            UniformField::Padding { .. } => panic!("the last entry is padding"),
        }
        let sizes: usize = layout.fields.iter().map(|slot| slot.byte_count()).sum();
        assert_eq!(sizes, layout.byte_count());
    }
    assert_eq!(layout.byte_count(), 60);
    let cursor = layout.byte_count();
    let packed = UniformLayout::from_iter(RepeatedRawField::iter(&fields));
    assert_eq!(packed.byte_count(), 64);
    assert!(packed.byte_count() >= cursor && packed.byte_count() < cursor + 16);
}
