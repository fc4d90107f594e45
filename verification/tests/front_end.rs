use sifu_render::dim::Dim;
use sifu_render::dim::ParseDimError;
use sifu_render::errors::Diagnostic;
use sifu_render::errors::Error;
use sifu_render::errors::ErrorKind;
use sifu_render::field::RawField;
use sifu_render::parse::FieldInput;
use sifu_render::parse::ParsedStruct;
use sifu_render::parse::StructInput;
use sifu_render::quotes::instance_quote;
use sifu_render::quotes::uniform_quote;
use sifu_render::quotes::vertex_quote;
use sifu_render::quotes::VertexStepMode;
use sifu_render::raw_struct::RawValue;
use sifu_render::raw_value::InvalidType;
use sifu_render::raw_value::RawValueCount;
use sifu_render::raw_value::RawValueError;
use sifu_render::raw_value::RawValueType;
use sifu_render::scalar::NotAUniformScalar;
use sifu_render::scalar::NotAVertexScalar;
use sifu_render::scalar::RustScalar;
use sifu_render::scalar::WgslScalar;
use sifu_render::uniform_binding::impl_uniform_binding_quote;
use sifu_render::wgsl_type::RawRustType;
use sifu_render::wgsl_type::WgslType;

fn field(name: &str, ty: &str, dim_x: Option<&str>, dim_y: Option<&str>) -> FieldInput {
    FieldInput {
        ident: Some(name.to_string()),
        ty: ty.to_string(),
        dim_x: dim_x.map(|s| s.to_string()),
        dim_y: dim_y.map(|s| s.to_string()),
        multiplier: None,
    }
}

fn record(name: &str, fields: Vec<FieldInput>) -> StructInput {
    StructInput { ident: name.to_string(), is_struct: true, fields, vertex_attr: None }
}

#[test]
fn dimensions_are_read_from_numerals() {
    assert_eq!(Dim::from_str("2").unwrap(), Dim::D2);
    assert_eq!(Dim::from_str("3").unwrap(), Dim::D3);
    assert_eq!(Dim::from_str("4").unwrap(), Dim::D4);
    assert_eq!(Dim::from_str("+4").unwrap(), Dim::D4);
    assert_eq!(Dim::from_str("003").unwrap(), Dim::D3);
    assert_eq!(Dim::from_number(3).unwrap(), Dim::D3);
    assert_eq!(Dim::D3.to_u8(), 3);
    assert_eq!(u8::from(Dim::D2), 2);
    assert_eq!(usize::from(Dim::D4), 4);
    assert_eq!(usize::from(RawValueCount::N3), 3);
    assert_eq!(Dim::D4.to_string(), "4");
    assert_eq!(Dim::D3.times(4), 12);
}

#[test]
fn dimensions_outside_two_to_four_are_rejected() {
    for (text, number) in [("0", 0u8), ("1", 1), ("5", 5), ("255", 255)] {
        match Dim::from_str(text) {
            Err(ParseDimError::InvalidDim(n)) => assert_eq!(n, number),
            other => panic!("{:?}", other),
        }
    }
    match Dim::from_number(9) {
        Err(ParseDimError::InvalidDim(9)) => {}
        other => panic!("{:?}", other),
    }
    assert_eq!(
        ParseDimError::InvalidDim(5).message(),
        "`5` is not allowed as a dimension\n\nallowed dimensions are\n- 2, 3, 4"
    );
}

#[test]
fn texts_that_are_no_byte_are_rejected() {
    for text in ["", "+", "x", "3 ", " 3", "-3", "256", "3u8", "1_0", "++3"] {
        match Dim::from_str(text) {
            Err(ParseDimError::Int(_)) => {}
            other => panic!("{}: {:?}", text, other),
        }
    }
    let error = Dim::from_str("three").unwrap_err();
    assert_eq!(error.message(), "invalid digit found in string");
    let error = Dim::from_str("300").unwrap_err();
    assert_eq!(error.message(), "number too large to fit in target type");
}

#[test]
fn repeat_counts_are_read_from_numerals() {
    assert_eq!(RawValueCount::from_str("1").unwrap(), RawValueCount::N1);
    assert_eq!(RawValueCount::from_str("4").unwrap(), RawValueCount::N4);
    assert_eq!(RawValueCount::from_number(2).unwrap(), RawValueCount::N2);
    match RawValueCount::from_str("5") {
        Err(RawValueError::InvalidNumber(5)) => {}
        other => panic!("{:?}", other),
    }
    match RawValueCount::from_str("0") {
        Err(RawValueError::InvalidNumber(0)) => {}
        other => panic!("{:?}", other),
    }
    match RawValueCount::from_str("many") {
        Err(RawValueError::Int(_)) => {}
        other => panic!("{:?}", other),
    }
    assert_eq!(
        RawValueError::InvalidNumber(7).diagnostic(),
        "invalid number. The only valid numbers are 1, 2, 3, 4"
    );
    assert_eq!(RawValueError::message(), "invalid number. The only valid numbers are 1, 2, 3, 4");
    assert_eq!(
        RawValueCount::from_str("many").unwrap_err().diagnostic(),
        "invalid digit found in string"
    );
}

#[test]
fn scalars_are_read_from_type_names() {
    let names = ["i8", "i16", "i32", "u8", "u16", "u32", "f32"];
    let scalars = [
        RustScalar::I8,
        RustScalar::I16,
        RustScalar::I32,
        RustScalar::U8,
        RustScalar::U16,
        RustScalar::U32,
        RustScalar::F32,
    ];
    for (name, scalar) in names.iter().zip(scalars.iter()) {
        assert_eq!(RustScalar::try_from_str(name), Ok(*scalar));
        assert_eq!(scalar.as_ref(), *name);
    }
    assert_eq!(RustScalar::try_from_str("f64"), Err(()));
    assert_eq!(RustScalar::try_from_str(""), Err(()));
    assert_eq!(WgslScalar::try_from_str("i32"), Ok(WgslScalar::I32));
    assert_eq!(WgslScalar::try_from_str("u32"), Ok(WgslScalar::U32));
    assert_eq!(WgslScalar::try_from_str("f32"), Ok(WgslScalar::F32));
    assert_eq!(WgslScalar::try_from_str("u8"), Err(()));
    assert_eq!(RustScalar::from(WgslScalar::U32), RustScalar::U32);
    assert_eq!(WgslScalar::from(RustScalar::I8), WgslScalar::I32);
    assert_eq!(WgslScalar::from(RustScalar::U16), WgslScalar::U32);
    assert_eq!(WgslScalar::from(RustScalar::F32), WgslScalar::F32);
    assert_eq!(RawValueType::try_from_str("u16").unwrap(), RawValueType::UInt16);
    let InvalidType(name) = RawValueType::try_from_str("bool").unwrap_err();
    assert_eq!(name, "bool");
    assert_eq!(
        InvalidType::message(),
        "invalid type; \nallowed are u8, u16, u32, i8, i16, i32, f32"
    );
}

#[test]
fn unsupported_scalars_name_the_type() {
    let NotAVertexScalar(name) = RustScalar::try_from_type("Vec<u8>").unwrap_err();
    assert_eq!(name, "Vec<u8>");
    assert_eq!(
        NotAVertexScalar("f64".to_string()).message(),
        "`f64` is not a valid vertex scalar type\n\nallowed types are\n- `u8`, `u16`, `u32`\n- `i8`, `i16`, `i32`\n- `f32`\n"
    );
    let error = WgslScalar::try_from_type("u8").unwrap_err();
    assert_eq!(
        error.message(),
        "`u8` is not a valid uniform scalar type\n\nallowed types are\n- `u32`\n- `i32`\n- `f32`\n"
    );
    assert_eq!(RustScalar::try_from_type("u8").unwrap(), RustScalar::U8);
    assert_eq!(WgslScalar::try_from_type("f32").unwrap(), WgslScalar::F32);
}

#[test]
fn a_field_declares_its_shape() {
    let parsed: RawField<RustScalar> =
        RawField::new(&field("position", "f32", Some("3"), None), 0).unwrap();
    assert_eq!(parsed.ident, "position");
    assert_eq!(parsed.raw_ty, WgslType::Vec { dim: Dim::D3, scalar: RustScalar::F32 });
    assert_eq!(parsed.multiplier, None);
    let parsed: RawField<WgslScalar> =
        RawField::new(&field("view_proj", "f32", Some("4"), Some("4")), 2).unwrap();
    assert_eq!(
        parsed.raw_ty,
        WgslType::Mat { dim_x: Dim::D4, dim_y: Dim::D4, scalar: WgslScalar::F32 }
    );
    let parsed: RawField<WgslScalar> = RawField::new(&field("value", "f32", None, None), 0).unwrap();
    assert_eq!(parsed.raw_ty, WgslType::Scalar(WgslScalar::F32));
    let mut repeated = field("bones", "u8", Some("4"), None);
    repeated.multiplier = Some("2".to_string());
    let parsed: RawField<RustScalar> = RawField::new(&repeated, 0).unwrap();
    assert_eq!(parsed.multiplier, Some(RawValueCount::N2));
    assert_eq!(parsed.ident(), "bones");
}

#[test]
fn the_first_fault_of_a_field_is_reported() {
    let both = field("both", "f64", Some("7"), Some("9"));
    let error = RawField::<RustScalar>::new(&both, 4).unwrap_err();
    assert_eq!(error.len(), 1);
    let finding = &error.diagnostics[0];
    assert_eq!(finding.kind, ErrorKind::Dimension);
    assert_eq!(finding.position, Some(4));
    assert_eq!(finding.field, Some("both".to_string()));
    assert_eq!(
        finding.message,
        "`7` is not allowed as a dimension\n\nallowed dimensions are\n- 2, 3, 4"
    );
    let second = field("second", "f64", Some("2"), Some("9"));
    let error = RawField::<RustScalar>::new(&second, 0).unwrap_err();
    assert_eq!(
        error.diagnostics[0].message,
        "`9` is not allowed as a dimension\n\nallowed dimensions are\n- 2, 3, 4"
    );
    let mut count = field("count", "f64", Some("2"), None);
    count.multiplier = Some("8".to_string());
    let error = RawField::<RustScalar>::new(&count, 0).unwrap_err();
    assert_eq!(error.diagnostics[0].kind, ErrorKind::Dimension);
    assert_eq!(
        error.diagnostics[0].message,
        "invalid number. The only valid numbers are 1, 2, 3, 4"
    );
    let ty = field("ty", "f64", Some("2"), None);
    let error = RawField::<RustScalar>::new(&ty, 0).unwrap_err();
    assert_eq!(error.diagnostics[0].kind, ErrorKind::Type);
    let unreadable = field("dim", "f32", Some("two"), None);
    let error = RawField::<RustScalar>::new(&unreadable, 0).unwrap_err();
    assert_eq!(error.diagnostics[0].kind, ErrorKind::Dimension);
    assert_eq!(error.diagnostics[0].message, "invalid digit found in string");
    let mut unnamed = field("x", "f32", None, None);
    unnamed.ident = None;
    let error = RawField::<RustScalar>::new(&unnamed, 3).unwrap_err();
    assert_eq!(error.diagnostics[0].kind, ErrorKind::Structure);
    assert_eq!(error.diagnostics[0].field, None);
    assert_eq!(error.diagnostics[0].position, Some(3));
    assert_eq!(error.diagnostics[0].message, "unnamed fields are not allowed");
}

#[test]
fn three_malformed_fields_give_three_findings() {
    let input = record(
        "Broken",
        vec![
            field("position", "f32", Some("3"), None),
            field("a", "f64", Some("3"), None),
            field("b", "f32", Some("5"), None),
            field("color", "u8", Some("4"), None),
            field("c", "u8", Some("4"), Some("1")),
        ],
    );
    let error = ParsedStruct::<RustScalar>::parse(input, "Vertex").unwrap_err();
    let found: Vec<(ErrorKind, Option<usize>, Option<String>)> = error
        .diagnostics
        .iter()
        .map(|d| (d.kind, d.position, d.field.clone()))
        .collect();
    assert_eq!(
        found,
        vec![
            (ErrorKind::Type, Some(1), Some("a".to_string())),
            (ErrorKind::Dimension, Some(2), Some("b".to_string())),
            (ErrorKind::Dimension, Some(4), Some("c".to_string())),
        ]
    );
    assert_eq!(
        error.diagnostics[0].message,
        "`f64` is not a valid vertex scalar type\n\nallowed types are\n- `u8`, `u16`, `u32`\n- `i8`, `i16`, `i32`\n- `f32`\n"
    );
}

#[test]
fn uniform_blocks_take_no_narrow_scalars() {
    let input = record("Narrow", vec![field("a", "u8", None, None), field("b", "u32", None, None)]);
    let error = ParsedStruct::<WgslScalar>::parse(input, "Uniform").unwrap_err();
    assert_eq!(error.len(), 1);
    assert_eq!(error.diagnostics[0].kind, ErrorKind::Type);
    assert_eq!(error.diagnostics[0].field, Some("a".to_string()));
    assert_eq!(
        error.diagnostics[0].message,
        "`u8` is not a valid uniform scalar type\n\nallowed types are\n- `u32`\n- `i32`\n- `f32`\n"
    );
}

#[test]
fn structural_faults_end_the_reading() {
    let mut no_struct = record("E", vec![field("a", "f64", None, None)]);
    no_struct.is_struct = false;
    let error = ParsedStruct::<RustScalar>::parse(no_struct, "Vertex").unwrap_err();
    assert_eq!(error.len(), 1);
    assert_eq!(error.diagnostics[0].kind, ErrorKind::Structure);
    assert_eq!(error.diagnostics[0].position, None);
    assert_eq!(error.diagnostics[0].message, "Vertex only works on structs");

    let mut unnamed = field("x", "f32", None, None);
    unnamed.ident = None;
    let tuple = record("T", vec![field("a", "f64", None, None), unnamed]);
    let error = ParsedStruct::<RustScalar>::parse(tuple, "MeshInstance").unwrap_err();
    assert_eq!(error.len(), 1);
    assert_eq!(error.diagnostics[0].kind, ErrorKind::Structure);
    assert_eq!(
        error.diagnostics[0].message,
        "MeshInstance only works on structs with named fields"
    );
}

#[test]
fn errors_combine_in_order() {
    let mut first = Error::new(Diagnostic::new(ErrorKind::Type, "one".to_string()));
    let mut second = Error::new(Diagnostic::at_field(
        ErrorKind::Dimension,
        3,
        "f".to_string(),
        "two".to_string(),
    ));
    second.combine(Error::new(Diagnostic::new(ErrorKind::Format, "three".to_string())));
    first.combine(second);
    assert_eq!(first.len(), 3);
    let messages: Vec<&str> = first.diagnostics.iter().map(|d| d.message.as_str()).collect();
    assert_eq!(messages, vec!["one", "two", "three"]);
    assert_eq!(first.diagnostics[1].position, Some(3));
    assert_eq!(first.diagnostics[1].field, Some("f".to_string()));
    assert_eq!(first.diagnostics[0].field, None);
}

#[test]
fn vertex_artifacts_agree() {
    let input = record(
        "SampleVertex",
        vec![field("position", "f32", Some("3"), None), field("color", "f32", Some("4"), None)],
    );
    let parsed = ParsedStruct::<RustScalar>::parse(input, "Vertex").unwrap();
    assert_eq!(parsed.raw_ident(), "SampleVertexRawVertex");
    let artifacts = vertex_quote(parsed).unwrap();
    assert_eq!(artifacts.raw_struct.ident, "SampleVertexRawVertex");
    assert_eq!(artifacts.raw_struct.byte_count, 28);
    let entries: Vec<(&str, RawRustType, u64, RawValue)> = artifacts
        .raw_struct
        .fields
        .iter()
        .map(|f| (f.ident.as_str(), f.ty, f.offset, f.value))
        .collect();
    assert_eq!(
        entries,
        vec![
            (
                "position",
                RawRustType::Array { scalar: RustScalar::F32, len: Dim::D3 },
                0,
                RawValue::Field { source: 0 }
            ),
            (
                "color",
                RawRustType::Array { scalar: RustScalar::F32, len: Dim::D4 },
                12,
                RawValue::Field { source: 1 }
            ),
        ]
    );
    let layout = &artifacts.vertex.layout;
    assert_eq!(layout.array_stride, 28);
    assert_eq!(layout.step_mode, VertexStepMode::Vertex);
    assert_eq!(layout.attributes.len(), artifacts.raw_struct.fields.len());
    for (attribute, entry) in layout.attributes.iter().zip(artifacts.raw_struct.fields.iter()) {
        assert_eq!(attribute.offset, entry.offset);
    }
    assert_eq!(artifacts.vertex.shader_location_count, 2);
    assert_eq!(artifacts.vertex.shader_struct.locations, vec![0, 1]);
    assert_eq!(
        artifacts.vertex.shader_struct.format,
        "struct SampleVertex {{\n  @location({}) position: vec3<f32>,\n  @location({}) color: vec4<f32>,\n}}"
    );
}

#[test]
fn instance_artifacts_follow_the_vertex_record() {
    let mut input = record("SampleInstance", vec![field("mat", "f32", Some("4"), Some("4"))]);
    input.vertex_attr = Some("SampleVertex".to_string());
    let parsed = ParsedStruct::<RustScalar>::parse(input, "MeshInstance").unwrap();
    let artifacts = instance_quote(parsed, 2).unwrap();
    assert_eq!(artifacts.raw_struct.ident, "SampleInstanceRawMeshInstance");
    assert_eq!(artifacts.instance.vertex_ty, "SampleVertex");
    assert_eq!(artifacts.instance.layout.step_mode, VertexStepMode::Instance);
    assert_eq!(artifacts.instance.layout.array_stride, 64);
    let slots: Vec<u32> =
        artifacts.instance.layout.attributes.iter().map(|a| a.shader_location).collect();
    assert_eq!(slots, vec![2, 3, 4, 5]);
    assert_eq!(artifacts.instance.shader_struct.locations, slots);
    let values: Vec<RawValue> = artifacts.raw_struct.fields.iter().map(|f| f.value).collect();
    assert_eq!(
        values,
        vec![
            RawValue::Element { source: 0, index: 0 },
            RawValue::Element { source: 0, index: 1 },
            RawValue::Element { source: 0, index: 2 },
            RawValue::Element { source: 0, index: 3 },
        ]
    );
}

#[test]
fn instance_without_vertex_record_is_rejected() {
    let input = record("Lonely", vec![field("mat", "u8", Some("3"), None)]);
    let parsed = ParsedStruct::<RustScalar>::parse(input, "MeshInstance").unwrap();
    let error = instance_quote(parsed, 0).unwrap_err();
    assert_eq!(error.len(), 1);
    assert_eq!(error.diagnostics[0].kind, ErrorKind::Structure);
    assert_eq!(error.diagnostics[0].message, "#[vertex(…)] attribute missing");
}

#[test]
fn vertex_record_with_narrow_vec3_is_rejected() {
    let input = record(
        "Bad",
        vec![field("ok", "u8", Some("4"), None), field("normal", "i8", Some("3"), None)],
    );
    let parsed = ParsedStruct::<RustScalar>::parse(input, "Vertex").unwrap();
    let error = vertex_quote(parsed).unwrap_err();
    assert_eq!(error.len(), 1);
    assert_eq!(error.diagnostics[0].kind, ErrorKind::Format);
    assert_eq!(error.diagnostics[0].field, Some("normal".to_string()));
    assert_eq!(error.diagnostics[0].position, Some(1));
}

#[test]
fn uniform_artifacts_agree() {
    let input = record(
        "SampleUniform",
        vec![field("color", "f32", Some("3"), None), field("thing", "u32", Some("2"), None)],
    );
    let parsed = ParsedStruct::<WgslScalar>::parse(input, "Uniform").unwrap();
    let artifacts = uniform_quote(parsed);
    assert_eq!(artifacts.raw_struct.ident, "SampleUniformRawUniform");
    assert_eq!(artifacts.raw_struct.byte_count, 32);
    let entries: Vec<(&str, String, u64, RawValue)> = artifacts
        .raw_struct
        .fields
        .iter()
        .map(|f| (f.ident.as_str(), f.ty.to_string(), f.offset, f.value))
        .collect();
    assert_eq!(
        entries,
        vec![
            ("color", "[f32; 3]".to_string(), 0, RawValue::Field { source: 0 }),
            ("padding0", "[u8; 4]".to_string(), 12, RawValue::Zero),
            ("thing", "[u32; 2]".to_string(), 16, RawValue::Field { source: 1 }),
            ("padding1", "[u8; 8]".to_string(), 24, RawValue::Zero),
        ]
    );
    let sizes: u64 = artifacts.raw_struct.fields.iter().map(|f| f.ty.byte_count() as u64).sum();
    assert_eq!(sizes, artifacts.raw_struct.byte_count);
    assert_eq!(artifacts.layout.byte_count(), 32);
    assert_eq!(artifacts.uniform.shader_struct_name, "SampleUniform");
    assert_eq!(
        artifacts.uniform.shader_struct,
        "struct SampleUniform {\n  color: vec3<f32>,\n  thing: vec2<u32>,\n}\n"
    );
}

#[test]
fn bind_groups_number_their_fields() {
    let input = record(
        "FooUniforms",
        vec![
            field("sample", "&'a UniformBuffer<SampleUniform>", None, None),
            field("camera", "&'a UniformBuffer<CameraUniform>", None, None),
            field("texture", "&'a ImageTexture<ColorPixel>", None, None),
        ],
    );
    let binding = impl_uniform_binding_quote(&input).unwrap();
    assert_eq!(binding.ident, "FooUniforms");
    let fields: Vec<(u32, &str, &str)> = binding
        .fields
        .iter()
        .map(|f| (f.binding, f.ident.as_str(), f.ty.as_str()))
        .collect();
    assert_eq!(
        fields,
        vec![
            (0, "sample", "&'a UniformBuffer<SampleUniform>"),
            (1, "camera", "&'a UniformBuffer<CameraUniform>"),
            (2, "texture", "&'a ImageTexture<ColorPixel>"),
        ]
    );
    let mut no_struct = record("E", Vec::new());
    no_struct.is_struct = false;
    let error = impl_uniform_binding_quote(&no_struct).unwrap_err();
    assert_eq!(error.diagnostics[0].message, "UniformBinding only works on structs");
    let mut unnamed = field("x", "Sampler", None, None);
    unnamed.ident = None;
    let error = impl_uniform_binding_quote(&record("T", vec![unnamed])).unwrap_err();
    assert_eq!(error.len(), 1);
    assert_eq!(error.diagnostics[0].kind, ErrorKind::Structure);
    assert_eq!(error.diagnostics[0].message, "UniformBinding does only work for named fields");
}
