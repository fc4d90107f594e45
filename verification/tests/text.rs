use sifu_render::dim::Dim;
use sifu_render::errors::ErrorKind;
use sifu_render::field::RawField;
use sifu_render::field::RepeatedRawField;
use sifu_render::format::resolve;
use sifu_render::quotes::UniformImpl;
use sifu_render::raw_value::RawValueCount;
use sifu_render::raw_value::RawValueType;
use sifu_render::scalar::RustScalar;
use sifu_render::scalar::WgslScalar;
use sifu_render::shader::preprocess_shader;
use sifu_render::shader::Shader;
use sifu_render::shader::ENTRY_POINT_FRAGMENT;
use sifu_render::shader::ENTRY_POINT_VERTEX;
use sifu_render::shader_struct::shader_struct_format_quote;
use sifu_render::shader_struct::shader_struct_format_str;
use sifu_render::shader_struct::shader_struct_str;
use sifu_render::shader_struct::uniform_shader_struct_str;
use sifu_render::text::decimal_string;
use sifu_render::text::str_eq;
use sifu_render::uniform_binding::glsl_vars;
use sifu_render::uniform_binding::ColorPixel;
use sifu_render::uniform_binding::DepthStencilPixel;
use sifu_render::uniform_binding::DisplayPixel;
use sifu_render::uniform_binding::GlslUniformType;
use sifu_render::uniform_binding::GlslUniformVar;
use sifu_render::uniform_binding::NamedResource;
use sifu_render::wgsl_type::RawRustType;
use sifu_render::wgsl_type::VertexType;
use sifu_render::wgsl_type::WgslType;

fn sample_vertex() -> Vec<RawField<RustScalar>> {
    vec![
        RawField::single(
            "position".to_string(),
            WgslType::Vec { dim: Dim::D3, scalar: RustScalar::F32 },
        ),
        RawField::single(
            "color".to_string(),
            WgslType::Vec { dim: Dim::D3, scalar: RustScalar::F32 },
        ),
    ]
}

fn sample_instance() -> Vec<RawField<RustScalar>> {
    vec![RawField::single(
        "mat".to_string(),
        WgslType::Mat { dim_x: Dim::D4, dim_y: Dim::D4, scalar: RustScalar::F32 },
    )]
}

#[test]
fn decimal_numerals() {
    assert_eq!(decimal_string(0), "0");
    assert_eq!(decimal_string(7), "7");
    assert_eq!(decimal_string(10), "10");
    assert_eq!(decimal_string(409), "409");
    assert_eq!(decimal_string(65535), "65535");
    assert!(str_eq("vec3", "vec3"));
    assert!(!str_eq("vec3", "vec4"));
    assert!(!str_eq("vec", "vec3"));
}

#[test]
fn vertex_struct_with_open_slots() {
    let units = RepeatedRawField::iter(&sample_vertex());
    assert_eq!(
        shader_struct_format_str("SampleVertex", &units),
        "struct SampleVertex {{\n  @location({}) position: vec3<f32>,\n  @location({}) color: vec3<f32>,\n}}"
    );
    let format = shader_struct_format_quote("SampleVertex", &units, None);
    assert_eq!(format.format, shader_struct_format_str("SampleVertex", &units));
    assert_eq!(format.locations, vec![0, 1]);
}

#[test]
fn vertex_struct_with_slots() {
    let units = RepeatedRawField::iter(&sample_vertex());
    assert_eq!(
        shader_struct_str("SampleVertex", &units, None),
        "struct SampleVertex {\n  @location(0) position: vec3<f32>,\n  @location(1) color: vec3<f32>,\n}"
    );
}

#[test]
fn instance_struct_continues_the_vertex_slots() {
    let units = RepeatedRawField::iter(&sample_instance());
    assert_eq!(
        shader_struct_str("SampleInstance", &units, Some(2)),
        "struct SampleInstance {\n  @location(2) mat0: vec4<f32>,\n  @location(3) mat1: vec4<f32>,\n  @location(4) mat2: vec4<f32>,\n  @location(5) mat3: vec4<f32>,\n}"
    );
    let format = shader_struct_format_quote("SampleInstance", &units, Some(2));
    assert_eq!(format.locations, vec![2, 3, 4, 5]);
    assert_eq!(
        format.format,
        "struct SampleInstance {{\n  @location({}) mat0: vec4<f32>,\n  @location({}) mat1: vec4<f32>,\n  @location({}) mat2: vec4<f32>,\n  @location({}) mat3: vec4<f32>,\n}}"
    );
}

#[test]
fn narrow_integers_widen_in_shader_source() {
    let fields = vec![
        RawField::single("a".to_string(), WgslType::Scalar(RustScalar::U8)),
        RawField::single(
            "b".to_string(),
            WgslType::Vec { dim: Dim::D2, scalar: RustScalar::I16 },
        ),
    ];
    let units = RepeatedRawField::iter(&fields);
    assert_eq!(
        shader_struct_str("Narrow", &units, None),
        "struct Narrow {\n  @location(0) a: u32,\n  @location(1) b: vec2<i32>,\n}"
    );
}

#[test]
fn empty_struct_texts() {
    let units: Vec<RepeatedRawField<RustScalar>> = Vec::new();
    assert_eq!(shader_struct_str("Empty", &units, None), "struct Empty {\n}");
    assert_eq!(shader_struct_format_str("Empty", &units), "struct Empty {{\n}}");
    let fields: Vec<RawField<WgslScalar>> = Vec::new();
    assert_eq!(uniform_shader_struct_str("Empty", &fields), "struct Empty {\n}\n");
}

#[test]
fn uniform_struct_is_read_by_name() {
    let fields = vec![
        RawField::single("value".to_string(), WgslType::Scalar(WgslScalar::F32)),
        RawField::single(
            "color".to_string(),
            WgslType::Vec { dim: Dim::D3, scalar: WgslScalar::F32 },
        ),
        RawField::single(
            "view_proj".to_string(),
            WgslType::Mat { dim_x: Dim::D4, dim_y: Dim::D4, scalar: WgslScalar::F32 },
        ),
        RawField::repeated(
            "lights".to_string(),
            WgslType::Vec { dim: Dim::D4, scalar: WgslScalar::U32 },
            RawValueCount::N3,
        ),
    ];
    assert_eq!(
        uniform_shader_struct_str("SampleUniform", &fields),
        "struct SampleUniform {\n  value: f32,\n  color: vec3<f32>,\n  view_proj: mat4x4<f32>,\n  lights: array<vec4<u32>, 3>,\n}\n"
    );
}

#[test]
fn shader_types_by_shape() {
    assert_eq!(WgslType::Scalar(WgslScalar::I32).wgsl_type_str(), "i32");
    assert_eq!(
        WgslType::Vec { dim: Dim::D2, scalar: WgslScalar::U32 }.wgsl_type_str(),
        "vec2<u32>"
    );
    assert_eq!(
        WgslType::Mat { dim_x: Dim::D2, dim_y: Dim::D3, scalar: WgslScalar::F32 }.wgsl_type_str(),
        "mat2x3<f32>"
    );
    assert_eq!(VertexType::Scalar(RustScalar::I8).wgsl_type_str(), "i32");
    assert_eq!(
        VertexType::Vec { dim: Dim::D4, scalar: RustScalar::U16 }.wgsl_type_str(),
        "vec4<u32>"
    );
    assert_eq!(WgslScalar::F32.wgsl_type_str(), "f32");
    assert_eq!(WgslScalar::U32.raw_rust_type(), "u32");
}

#[test]
fn raw_types_as_rust_source() {
    assert_eq!(RawRustType::Scalar(RustScalar::F32).to_string(), "f32");
    assert_eq!(
        RawRustType::Array { scalar: RustScalar::F32, len: Dim::D3 }.to_string(),
        "[f32; 3]"
    );
    assert_eq!(
        RawRustType::Matrix { scalar: RustScalar::U8, dim_x: Dim::D4, dim_y: Dim::D2 }.to_string(),
        "[[u8; 4]; 2]"
    );
    assert_eq!(RawRustType::Bytes { count: 12 }.to_string(), "[u8; 12]");
    assert_eq!(RawRustType::Bytes { count: 12 }.byte_count(), 12);
    assert_eq!(
        RawRustType::Matrix { scalar: RustScalar::I16, dim_x: Dim::D3, dim_y: Dim::D4 }.byte_count(),
        24
    );
    assert_eq!(
        WgslType::Mat { dim_x: Dim::D4, dim_y: Dim::D4, scalar: WgslScalar::F32 }.raw_rust_type(),
        RawRustType::Matrix { scalar: RustScalar::F32, dim_x: Dim::D4, dim_y: Dim::D4 }
    );
    assert_eq!(
        VertexType::Vec { dim: Dim::D2, scalar: RustScalar::I8 }.raw_rust_type(),
        RawRustType::Array { scalar: RustScalar::I8, len: Dim::D2 }
    );
    assert_eq!(RustScalar::U16.as_ref(), "u16");
    assert_eq!(RustScalar::I8.raw_rust_type(), "i8");
    assert_eq!(RustScalar::F32.vertex_format_name(), "Float32");
    assert_eq!(RustScalar::I16.vertex_format_name(), "Sint16");
}

#[test]
fn format_tables() {
    assert_eq!(RawValueCount::N1.vertex_format_part(), "");
    assert_eq!(RawValueCount::N2.vertex_format_part(), "x2");
    assert_eq!(RawValueCount::N3.vertex_format_part(), "x3");
    assert_eq!(RawValueCount::N4.vertex_format_part(), "x4");
    assert_eq!(RawValueCount::N1.glsl_type(), None);
    assert_eq!(RawValueCount::N2.glsl_type(), Some("vec2"));
    assert_eq!(RawValueCount::N3.glsl_type(), Some("vec3"));
    assert_eq!(RawValueCount::N4.glsl_type(), Some("vec4"));
    assert_eq!(RawValueCount::default(), RawValueCount::N1);
    assert_eq!(RawValueCount::N3.to_usize(), 3);
    assert_eq!(RawValueCount::N3.times(5), 15);
    assert_eq!(RawValueType::UInt8.byte_count(), 1);
    assert_eq!(RawValueType::SInt16.byte_count(), 2);
    assert_eq!(RawValueType::Float32.byte_count(), 4);
    assert_eq!(RawValueType::UInt16.vertex_format_part(), "Uint16");
    assert_eq!(RawValueType::SInt32.vertex_format_part(), "Sint32");
    assert_eq!(RawValueType::UInt8.glsl_type(), "u32");
    assert_eq!(RawValueType::SInt16.glsl_type(), "i32");
    assert_eq!(RawValueType::Float32.glsl_type(), "f32");
    assert_eq!(RawValueType::SInt8.rust_type(), "i8");
    assert_eq!(RawValueType::UInt32.rust_type(), "u32");
}

#[test]
fn binding_variables() {
    let uniform = UniformImpl {
        shader_struct: "struct SampleUniform {\n  value: f32,\n}\n".to_string(),
        shader_struct_name: "SampleUniform".to_string(),
    };
    let resources = vec![
        NamedResource { name: "sample".to_string(), uniform: GlslUniformType::uniform_buffer(&uniform) },
        NamedResource { name: "texture".to_string(), uniform: GlslUniformType::texture::<ColorPixel>() },
        NamedResource { name: "tex_sampler".to_string(), uniform: GlslUniformType::sampler() },
        NamedResource { name: "depth".to_string(), uniform: GlslUniformType::texture::<DepthStencilPixel>() },
    ];
    let vars = glsl_vars(1, &resources);
    let texts: Vec<String> = vars.iter().map(|v| v.to_string()).collect();
    assert_eq!(
        texts,
        vec![
            "@group(1) @binding(0) var<uniform> sample: SampleUniform",
            "@group(1) @binding(1) var texture: texture_2d<f32>",
            "@group(1) @binding(2) var tex_sampler: sampler",
            "@group(1) @binding(3) var depth: texture_depth_2d",
        ]
    );
    assert_eq!(GlslUniformType::texture::<DisplayPixel>().type_ident, "texture_2d<f32>");
    assert_eq!(vars[0].uniform.type_struct_str, Some(uniform.shader_struct.clone()));
    assert_eq!(vars[1].uniform.type_struct_str, None);
}

#[test]
fn shader_source_is_composed_in_order() {
    let uniform = UniformImpl {
        shader_struct: "struct U {\n  value: f32,\n}\n".to_string(),
        shader_struct_name: "U".to_string(),
    };
    let group0 = glsl_vars(
        0,
        &vec![
            NamedResource { name: "u".to_string(), uniform: GlslUniformType::uniform_buffer(&uniform) },
            NamedResource { name: "s".to_string(), uniform: GlslUniformType::sampler() },
        ],
    );
    let group1: Vec<GlslUniformVar> = Vec::new();
    let shader = Shader::new("struct V {\n}", "struct I {\n}", &group0, &group1, "fn main() {}\n");
    assert_eq!(
        shader.code(),
        "struct V {\n}\nstruct I {\n}\nstruct U {\n  value: f32,\n}\n\n@group(0) @binding(0) var<uniform> u: U;\n@group(0) @binding(1) var s: sampler;\nfn main() {}\n"
    );
    let mut out = String::from("// head\n");
    Shader::append_uniforms(&group0, &mut out);
    assert_eq!(
        out,
        "// head\nstruct U {\n  value: f32,\n}\n\n@group(0) @binding(0) var<uniform> u: U;\n@group(0) @binding(1) var s: sampler;\n"
    );
    assert_eq!(preprocess_shader("A", "B", "C"), "A\nB\nC");
    assert_eq!(
        Shader::preprocess_shader("A", "B", &group1, &group1, "C"),
        preprocess_shader("A", "B", "C")
    );
    assert_eq!(ENTRY_POINT_VERTEX, "vertex");
    assert_eq!(ENTRY_POINT_FRAGMENT, "fragment");
}

#[test]
fn open_slots_resolve_to_the_declaration() {
    let units = RepeatedRawField::iter(&sample_instance());
    for offset in [None, Some(0), Some(2), Some(40)] {
        let format = shader_struct_format_quote("SampleInstance", &units, offset);
        assert_eq!(
            format.resolve().unwrap(),
            shader_struct_str("SampleInstance", &units, offset)
        );
    }
    let vertex = RepeatedRawField::iter(&sample_vertex());
    let format = shader_struct_format_quote("SampleVertex", &vertex, None);
    assert_eq!(
        format.resolve().unwrap(),
        "struct SampleVertex {\n  @location(0) position: vec3<f32>,\n  @location(1) color: vec3<f32>,\n}"
    );
}

#[test]
fn format_strings() {
    assert_eq!(resolve("", &vec![]), Some(String::new()));
    assert_eq!(resolve("a{}b{}", &vec![7, 12]), Some("a7b12".to_string()));
    assert_eq!(resolve("{{}}", &vec![]), Some("{}".to_string()));
    assert_eq!(resolve("{{{}}}", &vec![3]), Some("{3}".to_string()));
    assert_eq!(resolve("x{}", &vec![]), None);
    assert_eq!(resolve("x", &vec![1]), None);
    assert_eq!(resolve("{", &vec![]), None);
    assert_eq!(resolve("a}b", &vec![]), None);
    assert_eq!(resolve("}{", &vec![]), None);
    assert_eq!(resolve("{a}", &vec![1]), None);
    assert_eq!(resolve("äö{}ü", &vec![4294967295]), Some("äö4294967295ü".to_string()));
}

#[test]
fn a_brace_in_a_name_is_an_internal_format_error() {
    let units = RepeatedRawField::iter(&sample_vertex());
    let format = shader_struct_format_quote("Bad{", &units, None);
    let error = format.resolve().unwrap_err();
    assert_eq!(error.len(), 1);
    assert_eq!(error.diagnostics[0].kind, ErrorKind::InternalFormat);
    assert_eq!(error.diagnostics[0].message, "internal format error");
    assert_eq!(error.diagnostics[0].position, None);
    let mut short = shader_struct_format_quote("Good", &units, None);
    short.locations.pop();
    assert_eq!(short.resolve().unwrap_err().diagnostics[0].kind, ErrorKind::InternalFormat);
}
