//! The artifacts of a schema, by domain: the raw record, the vertex buffer
//! layout and the shader-side declaration, all derived from one expansion
//! of the schema, so that they agree on order, names and sizes.

use vstd::prelude::*;
use crate::errors::Diagnostic;
use crate::errors::DiagnosticView;
use crate::errors::Error;
use crate::errors::ErrorKind;
use crate::field::expand;
use crate::field::fields_view;
use crate::field::units_view;
use crate::field::RepeatedRawField;
use crate::field::UnitSpec;
use crate::laws::well_packed;
use crate::parse::ParsedStruct;
use crate::raw_struct::entries_view;
use crate::raw_struct::raw_entries;
use crate::raw_struct::raw_struct_quote;
use crate::raw_struct::raw_uniform_struct_quote;
use crate::raw_struct::sequential_slots;
use crate::raw_struct::RawStruct;
use crate::scalar::RustScalar;
use crate::scalar::WgslScalar;
use crate::shader_struct::format_text;
use crate::shader_struct::shader_struct_format_quote;
use crate::shader_struct::uniform_shader_struct_str;
use crate::shader_struct::uniform_struct_text;
use crate::shader_struct::ShaderStructFormat;
use crate::uniform_layout::LayoutSpec;
use crate::uniform_layout::UniformLayout;
use crate::vertex_layout::attributes_of;
use crate::vertex_layout::attributes_view;
use crate::vertex_layout::format_findings;
use crate::vertex_layout::formats_allowed;
use crate::vertex_layout::slot_base;
use crate::vertex_layout::units_size;
use crate::vertex_layout::vertex_attributes_quote;
use crate::vertex_layout::vertex_stride;
use crate::vertex_layout::VertexAttribute;

verus! {

/// Whether a buffer advances once for each vertex or once for each
/// instance.
#[derive(Debug, Clone, Copy, PartialEq, Eq, Structural)]
pub enum VertexStepMode {
    Vertex,
    Instance,
}

/// How a vertex buffer is read: the distance from one record to the next,
/// the step, and the attribute of each unit.
#[derive(Debug)]
pub struct VertexBufferLayout {
    pub array_stride: u64,
    pub step_mode: VertexStepMode,
    pub attributes: Vec<VertexAttribute>,
}

/// What implements a vertex record: its buffer layout, the number of input
/// slots that it takes, and its shader-side declaration.
#[derive(Debug)]
pub struct VertexImpl {
    pub layout: VertexBufferLayout,
    pub shader_location_count: u32,
    pub shader_struct: ShaderStructFormat,
}

/// What implements an instance record: the vertex record that it goes with,
/// its buffer layout, and its shader-side declaration.
#[derive(Debug)]
pub struct InstanceImpl {
    pub vertex_ty: String,
    pub layout: VertexBufferLayout,
    pub shader_struct: ShaderStructFormat,
}

/// What implements a uniform block: its shader-side declaration, and the
/// name under which shader source refers to it.
#[derive(Debug)]
pub struct UniformImpl {
    pub shader_struct: String,
    pub shader_struct_name: String,
}

/// The artifacts of a vertex record.
#[derive(Debug)]
pub struct VertexArtifacts {
    pub raw_struct: RawStruct,
    pub vertex: VertexImpl,
}

/// The artifacts of an instance record.
#[derive(Debug)]
pub struct InstanceArtifacts {
    pub raw_struct: RawStruct,
    pub instance: InstanceImpl,
}

/// The artifacts of a uniform block.
#[derive(Debug)]
pub struct UniformArtifacts {
    pub raw_struct: RawStruct,
    pub layout: UniformLayout<WgslScalar>,
    pub uniform: UniformImpl,
}

/// The finding about an instance record that names no vertex record.
pub open spec fn vertex_missing() -> DiagnosticView {
    DiagnosticView {
        kind: ErrorKind::Structure,
        position: None,
        field: None,
        message: "#[vertex(…)] attribute missing"@,
    }
}

/// Whether `layout` reads the units as a sequentially packed buffer does:
/// the stride is the size of all units, and unit `i` has the attribute of
/// its format, its offset and the slot `base + i`.
pub open spec fn layout_of(
    layout: VertexBufferLayout,
    units: Seq<UnitSpec<RustScalar>>,
    step_mode: VertexStepMode,
    initial_offset: Option<u32>,
) -> bool {
    &&& layout.array_stride == units_size(units)
    &&& layout.step_mode == step_mode
    &&& attributes_view(layout.attributes@) == attributes_of(units, initial_offset)
}

/// Whether `format` is the declaration of the units with open input slots,
/// with the slot `base + i` for placeholder `i`.
pub open spec fn declaration_of(
    format: ShaderStructFormat,
    name: Seq<char>,
    units: Seq<UnitSpec<RustScalar>>,
    initial_offset: Option<u32>,
) -> bool {
    &&& format.format@ == format_text(name, units)
    &&& format.locations@.len() == units.len()
    &&& forall|i: int|
        0 <= i < units.len() ==> #[trigger] format.locations@[i] == slot_base(initial_offset) + i
}

/// The buffer layout and the declaration of a vertex record.
pub fn impl_vertex_quote(ident: &str, units: &Vec<RepeatedRawField<RustScalar>>) -> (r: Result<
    VertexImpl,
    Error,
>)
    requires
        units.len() <= u32::MAX,
    ensures
        match r {
            Ok(vertex) => {
                &&& formats_allowed(units_view(units@))
                &&& layout_of(vertex.layout, units_view(units@), VertexStepMode::Vertex, None)
                &&& vertex.shader_location_count == units@.len()
                &&& declaration_of(vertex.shader_struct, ident@, units_view(units@), None)
            },
            Err(error) => !formats_allowed(units_view(units@)) && error@ == format_findings(
                units_view(units@),
            ),
        },
{
    let shader_struct = shader_struct_format_quote(ident, units, None);
    let shader_location_count = units.len() as u32;
    let attributes = match vertex_attributes_quote(units, None) {
        Ok(attributes) => attributes,
        Err(error) => {
            return Err(error);
        },
    };
    Ok(
        VertexImpl {
            layout: VertexBufferLayout {
                array_stride: vertex_stride(units),
                step_mode: VertexStepMode::Vertex,
                attributes,
            },
            shader_location_count,
            shader_struct,
        },
    )
}

/// The buffer layout and the declaration of an instance record whose
/// vertex record takes `vertex_location_count` input slots: the instance
/// record's slots follow them.
pub fn impl_instance_quote(
    ident: &str,
    vertex_ty: String,
    vertex_location_count: u32,
    units: &Vec<RepeatedRawField<RustScalar>>,
) -> (r: Result<InstanceImpl, Error>)
    requires
        units.len() + vertex_location_count <= u32::MAX,
    ensures
        match r {
            Ok(instance) => {
                &&& formats_allowed(units_view(units@))
                &&& instance.vertex_ty@ == vertex_ty@
                &&& layout_of(
                    instance.layout,
                    units_view(units@),
                    VertexStepMode::Instance,
                    Some(vertex_location_count),
                )
                &&& declaration_of(
                    instance.shader_struct,
                    ident@,
                    units_view(units@),
                    Some(vertex_location_count),
                )
            },
            Err(error) => !formats_allowed(units_view(units@)) && error@ == format_findings(
                units_view(units@),
            ),
        },
{
    let shader_struct = shader_struct_format_quote(ident, units, Some(vertex_location_count));
    let attributes = match vertex_attributes_quote(units, Some(vertex_location_count)) {
        Ok(attributes) => attributes,
        Err(error) => {
            return Err(error);
        },
    };
    Ok(
        InstanceImpl {
            vertex_ty,
            layout: VertexBufferLayout {
                array_stride: vertex_stride(units),
                step_mode: VertexStepMode::Instance,
                attributes,
            },
            shader_struct,
        },
    )
}

/// The declaration of a uniform block and the name that refers to it.
pub fn impl_uniform_quote(ident: &str, input: &ParsedStruct<WgslScalar>) -> (r: UniformImpl)
    ensures
        r.shader_struct_name@ == ident@,
        r.shader_struct@ == uniform_struct_text(ident@, fields_view(input.fields@)),
{
    UniformImpl {
        shader_struct: uniform_shader_struct_str(ident, &input.fields),
        shader_struct_name: String::from_str(ident),
    }
}

/// The artifacts of a vertex record.
///
/// The schema is expanded once; the raw record, the attributes and the
/// declaration all follow that expansion. A unit without a vertex format
/// fails the whole record, with a finding for every such unit.
pub fn vertex_quote(input: ParsedStruct<RustScalar>) -> (r: Result<VertexArtifacts, Error>)
    requires
        expand(fields_view(input.fields@)).len() <= u32::MAX,
    ensures
        match r {
            Ok(artifacts) => {
                let units = expand(fields_view(input.fields@));
                &&& formats_allowed(units)
                &&& artifacts.raw_struct.ident@ == ParsedStruct::<RustScalar>::raw_ident_text(
                    input.ident@,
                    input.name@,
                )
                &&& entries_view(artifacts.raw_struct.fields@) == raw_entries(
                    sequential_slots(units),
                )
                &&& artifacts.raw_struct.byte_count == units_size(units)
                &&& layout_of(artifacts.vertex.layout, units, VertexStepMode::Vertex, None)
                &&& artifacts.vertex.shader_location_count == units.len()
                &&& declaration_of(artifacts.vertex.shader_struct, input.ident@, units, None)
            },
            Err(error) => {
                let units = expand(fields_view(input.fields@));
                !formats_allowed(units) && error@ == format_findings(units)
            },
        },
{
    let raw_ident = input.raw_ident();
    let units = RepeatedRawField::iter(&input.fields);
    assert(units@.len() == units_view(units@).len());
    let raw_struct = raw_struct_quote(raw_ident, &units);
    match impl_vertex_quote(input.ident.as_str(), &units) {
        Ok(vertex) => Ok(VertexArtifacts { raw_struct, vertex }),
        Err(error) => Err(error),
    }
}

/// The artifacts of an instance record whose vertex record takes
/// `vertex_location_count` input slots.
///
/// A schema that names no vertex record fails at once, with that one
/// finding. Otherwise the record is treated as a vertex record is, with its
/// input slots following those of the vertex record.
pub fn instance_quote(input: ParsedStruct<RustScalar>, vertex_location_count: u32) -> (r: Result<
    InstanceArtifacts,
    Error,
>)
    requires
        expand(fields_view(input.fields@)).len() + vertex_location_count <= u32::MAX,
    ensures
        match r {
            Ok(artifacts) => {
                let units = expand(fields_view(input.fields@));
                &&& input.vertex_attr is Some
                &&& formats_allowed(units)
                &&& artifacts.instance.vertex_ty@ == input.vertex_attr.unwrap()@
                &&& artifacts.raw_struct.ident@ == ParsedStruct::<RustScalar>::raw_ident_text(
                    input.ident@,
                    input.name@,
                )
                &&& entries_view(artifacts.raw_struct.fields@) == raw_entries(
                    sequential_slots(units),
                )
                &&& artifacts.raw_struct.byte_count == units_size(units)
                &&& layout_of(
                    artifacts.instance.layout,
                    units,
                    VertexStepMode::Instance,
                    Some(vertex_location_count),
                )
                &&& declaration_of(
                    artifacts.instance.shader_struct,
                    input.ident@,
                    units,
                    Some(vertex_location_count),
                )
            },
            Err(error) => {
                let units = expand(fields_view(input.fields@));
                if input.vertex_attr is None {
                    error@ == seq![vertex_missing()]
                } else {
                    !formats_allowed(units) && error@ == format_findings(units)
                }
            },
        },
{
    let raw_ident = input.raw_ident();
    let vertex_ty = match &input.vertex_attr {
        Some(ty) => ty.clone(),
        None => {
            return Err(
                Error::new(
                    Diagnostic::new(
                        ErrorKind::Structure,
                        String::from_str("#[vertex(…)] attribute missing"),
                    ),
                ),
            );
        },
    };
    let units = RepeatedRawField::iter(&input.fields);
    assert(units@.len() == units_view(units@).len());
    let raw_struct = raw_struct_quote(raw_ident, &units);
    match impl_instance_quote(input.ident.as_str(), vertex_ty, vertex_location_count, &units) {
        Ok(instance) => Ok(InstanceArtifacts { raw_struct, instance }),
        Err(error) => Err(error),
    }
}

/// The artifacts of a uniform block.
///
/// The schema is expanded once and packed with alignment and padding; the
/// raw record follows the packed layout, padding included, and the
/// declaration follows the schema.
pub fn uniform_quote(input: ParsedStruct<WgslScalar>) -> (r: UniformArtifacts)
    requires
        expand(fields_view(input.fields@)).len() * 32 + 32 <= usize::MAX,
    ensures
        r.layout@ == LayoutSpec::of_units(expand(fields_view(input.fields@))),
        r.layout@.consistent(),
        r.layout@.offset % 16 == 0,
        well_packed(r.layout@),
        r.raw_struct.ident@ == ParsedStruct::<WgslScalar>::raw_ident_text(
            input.ident@,
            input.name@,
        ),
        entries_view(r.raw_struct.fields@) == raw_entries(r.layout@.slots),
        r.raw_struct.byte_count == r.layout@.offset,
        r.uniform.shader_struct_name@ == input.ident@,
        r.uniform.shader_struct@ == uniform_struct_text(input.ident@, fields_view(input.fields@)),
{
    let raw_ident = input.raw_ident();
    let units = RepeatedRawField::iter(&input.fields);
    assert(units@.len() == units_view(units@).len());
    let layout = UniformLayout::from_iter(units);
    let raw_struct = raw_uniform_struct_quote(raw_ident, &layout);
    let uniform = impl_uniform_quote(input.ident.as_str(), &input);
    UniformArtifacts { raw_struct, layout, uniform }
}

} // verus!
