use sifu_render::color::Color;
use sifu_render::convert::convert;
use sifu_render::convert::push_scalar;
use sifu_render::convert::read_scalar;
use sifu_render::convert::read_unit;
use sifu_render::convert::scalar_fits;
use sifu_render::convert::LogicalField;
use sifu_render::dim::Dim;
use sifu_render::field::RawField;
use sifu_render::field::RepeatedRawField;
use sifu_render::gpu_buffer::concat_bytes;
use sifu_render::gpu_buffer::flatten_indices;
use sifu_render::gpu_buffer::narrow_indices;
use sifu_render::gpu_buffer::BufferAction;
use sifu_render::gpu_buffer::GpuBuffer;
use sifu_render::gpu_buffer::IndexBuf;
use sifu_render::gpu_buffer::IndexFormat;
use sifu_render::gpu_buffer::InstanceBuf;
use sifu_render::gpu_buffer::InstanceCount;
use sifu_render::gpu_buffer::Mesh;
use sifu_render::gpu_buffer::UniformBuf;
use sifu_render::gpu_buffer::VertexBuf;
use sifu_render::raw_struct::sequential_layout;
use sifu_render::scalar::RustScalar;
use sifu_render::scalar::WgslScalar;
use sifu_render::uniform_layout::UniformField;
use sifu_render::uniform_layout::UniformLayout;
use sifu_render::wgsl_type::WgslType;

fn unit(scalars: &[u32]) -> Vec<u32> {
    scalars.to_vec()
}

fn bits(value: f32) -> u32 {
    value.to_bits()
}

#[test]
fn scalars_are_stored_least_significant_byte_first() {
    let mut out = vec![9u8];
    push_scalar(&mut out, 0x1234_5678, 4);
    push_scalar(&mut out, 0xabcd, 2);
    push_scalar(&mut out, 0xef, 1);
    assert_eq!(out, vec![9, 0x78, 0x56, 0x34, 0x12, 0xcd, 0xab, 0xef]);
    assert_eq!(read_scalar(&out, 1, 4), 0x1234_5678);
    assert_eq!(read_scalar(&out, 5, 2), 0xabcd);
    assert_eq!(read_scalar(&out, 7, 1), 0xef);
    assert!(scalar_fits(0xff, 1));
    assert!(!scalar_fits(0x100, 1));
    assert!(scalar_fits(0xffff, 2));
    assert!(!scalar_fits(0x1_0000, 2));
    assert!(scalar_fits(u32::MAX, 4));
    let mut float = Vec::new();
    push_scalar(&mut float, bits(1.0), 4);
    assert_eq!(float, 1.0f32.to_le_bytes().to_vec());
}

#[test]
fn uniform_record_round_trip() {
    let fields = vec![
        RawField::single(
            "color".to_string(),
            WgslType::Vec { dim: Dim::D3, scalar: WgslScalar::F32 },
        ),
        RawField::single(
            "thing".to_string(),
            WgslType::Vec { dim: Dim::D2, scalar: WgslScalar::U32 },
        ),
        RawField::single(
            "m".to_string(),
            WgslType::Mat { dim_x: Dim::D3, dim_y: Dim::D2, scalar: WgslScalar::I32 },
        ),
    ];
    let layout = UniformLayout::from_iter(RepeatedRawField::iter(&fields));
    let record = vec![
        LogicalField { units: vec![unit(&[bits(1.0), bits(0.0), bits(0.5)])] },
        LogicalField { units: vec![unit(&[7, 0xffff_ffff])] },
        LogicalField {
            units: vec![
                unit(&[(-1i32) as u32, 2, 3]),
                unit(&[4, (-5i32) as u32, i32::MIN as u32]),
            ],
        },
    ];
    let bytes = convert(&layout.fields, &record).unwrap();
    assert_eq!(bytes.len(), layout.byte_count());
    assert_eq!(bytes.len(), 64);
    let offsets = layout.offsets();
    for (slot, offset) in layout.fields.iter().zip(offsets.iter()) {
        match slot {
            UniformField::Field(unit) => {
                let index = unit.repeat.unwrap_or(0);
                let width = unit.byte_count() / unit.ty_scalar_size();
                let read = read_unit(&bytes, *offset, width, unit.ty_scalar_size()).unwrap();
                assert_eq!(read, record[unit.source].units[index]);
            }
            UniformField::Padding { byte_count, .. } => {
                assert!(bytes[*offset..*offset + *byte_count].iter().all(|b| *b == 0));
            }
        }
    }
    let mut expected = Vec::new();
    expected.extend_from_slice(&1.0f32.to_le_bytes());
    expected.extend_from_slice(&0.0f32.to_le_bytes());
    expected.extend_from_slice(&0.5f32.to_le_bytes());
    expected.extend_from_slice(&[0; 4]);
    expected.extend_from_slice(&7u32.to_le_bytes());
    expected.extend_from_slice(&u32::MAX.to_le_bytes());
    expected.extend_from_slice(&[0; 8]);
    for value in [-1i32, 2, 3] {
        expected.extend_from_slice(&value.to_le_bytes());
    }
    expected.extend_from_slice(&[0; 4]);
    for value in [4i32, -5, i32::MIN] {
        expected.extend_from_slice(&value.to_le_bytes());
    }
    expected.extend_from_slice(&[0; 4]);
    assert_eq!(bytes, expected);
}

#[test]
fn vertex_record_round_trip() {
    let fields = vec![
        RawField::single(
            "position".to_string(),
            WgslType::Vec { dim: Dim::D3, scalar: RustScalar::F32 },
        ),
        RawField::single("id".to_string(), WgslType::Scalar(RustScalar::U16)),
        RawField::single(
            "weights".to_string(),
            WgslType::Vec { dim: Dim::D4, scalar: RustScalar::U8 },
        ),
        RawField::single("bias".to_string(), WgslType::Scalar(RustScalar::I8)),
    ];
    let units = RepeatedRawField::iter(&fields);
    let slots = sequential_layout(&units);
    assert_eq!(slots.len(), 4);
    let record = vec![
        LogicalField { units: vec![unit(&[bits(-2.5), bits(3.0), bits(0.25)])] },
        LogicalField { units: vec![unit(&[0xbeef])] },
        LogicalField { units: vec![unit(&[1, 2, 3, 255])] },
        LogicalField { units: vec![unit(&[(-3i8) as u8 as u32])] },
    ];
    let bytes = convert(&slots, &record).unwrap();
    let mut expected = Vec::new();
    expected.extend_from_slice(&(-2.5f32).to_le_bytes());
    expected.extend_from_slice(&3.0f32.to_le_bytes());
    expected.extend_from_slice(&0.25f32.to_le_bytes());
    expected.extend_from_slice(&0xbeefu16.to_le_bytes());
    expected.extend_from_slice(&[1, 2, 3, 255]);
    expected.extend_from_slice(&(-3i8).to_le_bytes());
    assert_eq!(bytes, expected);
    assert_eq!(bytes.len(), 19);
    assert_eq!(read_unit(&bytes, 0, 3, 4).unwrap(), record[0].units[0]);
    assert_eq!(read_unit(&bytes, 12, 1, 2).unwrap(), record[1].units[0]);
    assert_eq!(read_unit(&bytes, 14, 4, 1).unwrap(), record[2].units[0]);
    assert_eq!(read_unit(&bytes, 18, 1, 1).unwrap(), record[3].units[0]);
}

#[test]
fn records_that_do_not_conform_are_not_converted() {
    let fields = vec![
        RawField::single(
            "a".to_string(),
            WgslType::Vec { dim: Dim::D2, scalar: RustScalar::U8 },
        ),
        RawField::single(
            "m".to_string(),
            WgslType::Mat { dim_x: Dim::D2, dim_y: Dim::D2, scalar: RustScalar::U16 },
        ),
    ];
    let slots = sequential_layout(&RepeatedRawField::iter(&fields));
    let good = vec![
        LogicalField { units: vec![unit(&[1, 2])] },
        LogicalField { units: vec![unit(&[3, 4]), unit(&[5, 6])] },
    ];
    assert_eq!(convert(&slots, &good).unwrap(), vec![1, 2, 3, 0, 4, 0, 5, 0, 6, 0]);
    let missing_field = vec![LogicalField { units: vec![unit(&[1, 2])] }];
    assert_eq!(convert(&slots, &missing_field), None);
    let missing_row = vec![
        LogicalField { units: vec![unit(&[1, 2])] },
        LogicalField { units: vec![unit(&[3, 4])] },
    ];
    assert_eq!(convert(&slots, &missing_row), None);
    let wrong_width = vec![
        LogicalField { units: vec![unit(&[1, 2, 3])] },
        LogicalField { units: vec![unit(&[3, 4]), unit(&[5, 6])] },
    ];
    assert_eq!(convert(&slots, &wrong_width), None);
    let too_wide = vec![
        LogicalField { units: vec![unit(&[1, 256])] },
        LogicalField { units: vec![unit(&[3, 4]), unit(&[5, 6])] },
    ];
    assert_eq!(convert(&slots, &too_wide), None);
    let no_slots: Vec<UniformField<RepeatedRawField<RustScalar>>> = Vec::new();
    assert_eq!(convert(&no_slots, &Vec::new()), Some(Vec::new()));
}

#[test]
fn reading_outside_the_bytes_gives_nothing() {
    let bytes = vec![1u8, 2, 3, 4, 5, 6, 7, 8];
    assert_eq!(read_unit(&bytes, 0, 2, 4), Some(vec![0x0403_0201, 0x0807_0605]));
    assert_eq!(read_unit(&bytes, 4, 2, 2), Some(vec![0x0605, 0x0807]));
    assert_eq!(read_unit(&bytes, 8, 0, 4), Some(Vec::new()));
    assert_eq!(read_unit(&bytes, 4, 2, 4), None);
    assert_eq!(read_unit(&bytes, 9, 0, 1), None);
    assert_eq!(read_unit(&bytes, 0, 5, 1), None);
    assert_eq!(read_unit(&bytes, 0, 1, 3), None);
}

#[test]
fn small_indices_are_stored_in_16_bits() {
    let buffer: GpuBuffer<IndexBuf<3>> = GpuBuffer::indices(vec![[0, 1, 2], [2, 1, 65535]]);
    assert_eq!(buffer.count(), 6);
    assert_eq!(buffer.index_format(), IndexFormat::Uint16);
    let mut expected = Vec::new();
    for index in [0u16, 1, 2, 2, 1, 65535] {
        expected.extend_from_slice(&index.to_ne_bytes());
    }
    assert_eq!(buffer.slice(), &expected);
    assert_eq!(buffer.slice().len(), 12);
}

#[test]
fn one_large_index_widens_all() {
    let buffer: GpuBuffer<IndexBuf<2>> = GpuBuffer::indices(vec![[0, 1], [65536, 3]]);
    assert_eq!(buffer.count(), 4);
    assert_eq!(buffer.index_format(), IndexFormat::Uint32);
    let mut expected = Vec::new();
    for index in [0u32, 1, 65536, 3] {
        expected.extend_from_slice(&index.to_ne_bytes());
    }
    assert_eq!(buffer.slice(), &expected);
    let empty: GpuBuffer<IndexBuf<3>> = GpuBuffer::indices(Vec::new());
    assert_eq!(empty.count(), 0);
    assert_eq!(empty.index_format(), IndexFormat::Uint16);
    assert_eq!(empty.slice().len(), 0);
}

#[test]
fn index_helpers() {
    assert_eq!(flatten_indices(&vec![[1u32, 2, 3], [4, 5, 6]]), vec![1, 2, 3, 4, 5, 6]);
    assert_eq!(narrow_indices(&vec![1, 65535]), Some(vec![1u16, 65535]));
    assert_eq!(narrow_indices(&vec![1, 65536]), None);
    assert_eq!(narrow_indices(&Vec::new()), Some(Vec::new()));
    assert_eq!(concat_bytes(&vec![vec![1u8, 2], vec![], vec![3]]), vec![1, 2, 3]);
}

#[test]
fn vertex_and_instance_buffers_hold_their_records() {
    let records = vec![vec![1u8, 2, 3], vec![4, 5, 6]];
    let vertices: GpuBuffer<VertexBuf> = GpuBuffer::vertices(&records);
    assert_eq!(vertices.slice(), &vec![1, 2, 3, 4, 5, 6]);
    assert_eq!(vertices.extra, 2);
    let mut instances: GpuBuffer<InstanceBuf> = GpuBuffer::instances(&records);
    assert_eq!(instances.count(), 2);
    assert_eq!(instances.extra, InstanceCount { count: 2, capacity: 2 });
    assert_eq!(InstanceCount::new(5), InstanceCount { count: 5, capacity: 5 });

    let action = instances.update(&vec![vec![7u8, 8, 9]]);
    assert_eq!(action, BufferAction::Recreate);
    assert_eq!(instances.extra, InstanceCount { count: 1, capacity: 1 });
    assert_eq!(instances.slice(), &vec![7, 8, 9]);

    let action = instances.update(&vec![vec![1u8], vec![2], vec![3]]);
    assert_eq!(action, BufferAction::Write);
    assert_eq!(instances.extra, InstanceCount { count: 3, capacity: 1 });
    assert_eq!(instances.slice(), &vec![1, 2, 3]);

    let mut uniform: GpuBuffer<UniformBuf> = GpuBuffer::uniform(vec![0; 16]);
    assert_eq!(uniform.slice().len(), 16);
    uniform.update(vec![1; 32]);
    assert_eq!(uniform.slice(), &vec![1u8; 32]);
    let raw: GpuBuffer<VertexBuf> = GpuBuffer::new_raw(vec![5, 6], 1);
    assert_eq!(raw.slice(), &vec![5, 6]);
}

#[test]
fn a_mesh_holds_vertices_and_indices() {
    let mesh: Mesh<3> = Mesh::new(&vec![vec![0u8; 24], vec![1; 24], vec![2; 24]], vec![[0, 1, 2]]);
    assert_eq!(mesh.vertices.extra, 3);
    assert_eq!(mesh.vertices.slice().len(), 72);
    assert_eq!(mesh.indices.count(), 3);
    assert_eq!(mesh.indices.index_format(), IndexFormat::Uint16);
}

#[test]
fn colors() {
    assert_eq!(Color::new(1, 2, 3, 4), Color { r: 1, g: 2, b: 3, a: 4 });
    assert_eq!(Color::red(), Color::new(255, 0, 0, 255));
    assert_eq!(Color::green(), Color::new(0, 255, 0, 255));
    assert_eq!(Color::blue(), Color::new(0, 0, 255, 255));
    assert_eq!(Color::white(), Color::new(255, 255, 255, 255));
    assert_eq!(Color::black(), Color::new(0, 0, 0, 255));
    assert_eq!(Color::transparent(), Color::new(255, 255, 255, 0));
    assert_eq!(Color::new(1, 2, 3, 4).to_bytes(), vec![1, 2, 3, 4]);
}
