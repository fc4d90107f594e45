//! Bindings: the resources of a bind group, numbered in the order of their
//! fields, and the shader variables that read them.

use vstd::prelude::*;
use crate::errors::Diagnostic;
use crate::errors::DiagnosticView;
use crate::errors::Error;
use crate::errors::ErrorKind;
use crate::parse::inputs_view;
use crate::parse::some_unnamed;
use crate::parse::FieldInputSpec;
use crate::parse::StructInput;
use crate::quotes::UniformImpl;
use crate::text::decimal;
use crate::text::push_decimal;

verus! {

/// How shader source declares the type of a bound resource.
#[derive(Debug, Clone, PartialEq, Eq)]
pub struct GlslUniformType {
    /// Whether the variable lives in the uniform address space.
    pub is_uniform: bool,
    pub type_ident: String,
    /// The declaration of the type, where shader source needs one.
    pub type_struct_str: Option<String>,
}

/// A shader variable that reads a bound resource.
#[derive(Debug, Clone, PartialEq, Eq)]
pub struct GlslUniformVar {
    pub group_id: u32,
    pub binding_id: u32,
    pub name: String,
    pub uniform: GlslUniformType,
}

/// A resource of a bind group: the name of its field and its type.
#[derive(Debug)]
pub struct BindingField {
    pub binding: u32,
    pub ident: String,
    pub ty: String,
}

/// What implements a bind group: its name and its resources in binding
/// order.
#[derive(Debug)]
pub struct UniformBindingImpl {
    pub ident: String,
    pub fields: Vec<BindingField>,
}

/// A resource before it is numbered: the name of its field and how shader
/// source declares its type.
#[derive(Debug)]
pub struct NamedResource {
    pub name: String,
    pub uniform: GlslUniformType,
}

/// The texel layouts that a texture can have.
pub trait PixelFormat {
    /// The shader type of a texture of this layout.
    spec fn texture_type_text() -> Seq<char>;

    /// The shader type of a texture of this layout.
    fn glsl_texture_type() -> (s: &'static str)
        ensures
            s@ == Self::texture_type_text(),
    ;
}

/// Depth of 24 bits and a stencil of 8.
pub struct DepthStencilPixel;

/// Four 8-bit channels, red first, in sRGB.
pub struct ColorPixel;

/// Four 8-bit channels, blue first, in sRGB: what a display surface takes.
pub struct DisplayPixel;

impl PixelFormat for DepthStencilPixel {
    open spec fn texture_type_text() -> Seq<char> {
        "texture_depth_2d"@
    }

    fn glsl_texture_type() -> (s: &'static str) {
        "texture_depth_2d"
    }
}

impl PixelFormat for ColorPixel {
    open spec fn texture_type_text() -> Seq<char> {
        "texture_2d<f32>"@
    }

    fn glsl_texture_type() -> (s: &'static str) {
        "texture_2d<f32>"
    }
}

impl PixelFormat for DisplayPixel {
    open spec fn texture_type_text() -> Seq<char> {
        "texture_2d<f32>"@
    }

    fn glsl_texture_type() -> (s: &'static str) {
        "texture_2d<f32>"
    }
}

impl GlslUniformType {
    /// The type of a uniform buffer: the block's name, declared by the
    /// block's declaration, in the uniform address space.
    pub fn uniform_buffer(uniform: &UniformImpl) -> (r: GlslUniformType)
        ensures
            r.is_uniform,
            r.type_ident@ == uniform.shader_struct_name@,
            r.type_struct_str is Some,
            r.type_struct_str.unwrap()@ == uniform.shader_struct@,
    {
        GlslUniformType {
            is_uniform: true,
            type_ident: uniform.shader_struct_name.clone(),
            type_struct_str: Some(uniform.shader_struct.clone()),
        }
    }

    /// The type of a texture of the texel layout `P`: a handle, which needs
    /// no declaration.
    pub fn texture<P: PixelFormat>() -> (r: GlslUniformType)
        ensures
            !r.is_uniform,
            r.type_ident@ == P::texture_type_text(),
            r.type_struct_str is None,
    {
        GlslUniformType {
            is_uniform: false,
            type_ident: String::from_str(P::glsl_texture_type()),
            type_struct_str: None,
        }
    }

    /// The type of a sampler.
    pub fn sampler() -> (r: GlslUniformType)
        ensures
            !r.is_uniform,
            r.type_ident@ == "sampler"@,
            r.type_struct_str is None,
    {
        GlslUniformType {
            is_uniform: false,
            type_ident: String::from_str("sampler"),
            type_struct_str: None,
        }
    }
}

/// The declaration of a shader variable, without the closing semicolon.
pub open spec fn var_text(
    group_id: u32,
    binding_id: u32,
    is_uniform: bool,
    name: Seq<char>,
    type_ident: Seq<char>,
) -> Seq<char> {
    "@group("@ + decimal(group_id as nat) + ") @binding("@ + decimal(binding_id as nat) + ") var"@
        + (if is_uniform {
        "<uniform>"@
    } else {
        ""@
    }) + " "@ + name + ": "@ + type_ident
}

impl GlslUniformVar {
    /// The declaration of the variable as a mathematical value.
    pub open spec fn text(&self) -> Seq<char> {
        var_text(
            self.group_id,
            self.binding_id,
            self.uniform.is_uniform,
            self.name@,
            self.uniform.type_ident@,
        )
    }

    /// The declaration of the variable: its group and binding, its address
    /// space if it is a uniform, its name and its type.
    pub fn to_string(&self) -> (s: String)
        ensures
            s@ == self.text(),
    {
        let mut s = String::from_str("@group(");
        push_decimal(&mut s, self.group_id as usize);
        s.append(") @binding(");
        push_decimal(&mut s, self.binding_id as usize);
        s.append(") var");
        if self.uniform.is_uniform {
            s.append("<uniform>");
        } else {
            s.append("");
        }
        s.append(" ");
        s.append(self.name.as_str());
        s.append(": ");
        s.append(self.uniform.type_ident.as_str());
        s
    }
}

/// A copy of a type.
pub fn clone_type(ty: &GlslUniformType) -> (r: GlslUniformType)
    ensures
        r.is_uniform == ty.is_uniform,
        r.type_ident@ == ty.type_ident@,
        r.type_struct_str is Some <==> ty.type_struct_str is Some,
        r.type_struct_str is Some ==> r.type_struct_str.unwrap()@ == ty.type_struct_str.unwrap()@,
{
    GlslUniformType {
        is_uniform: ty.is_uniform,
        type_ident: ty.type_ident.clone(),
        type_struct_str: match &ty.type_struct_str {
            Some(s) => Some(s.clone()),
            None => None,
        },
    }
}

/// The shader variables of a bind group: resource `i` is read at binding
/// `i` of group `group_id`, under its field's name.
pub fn glsl_vars(group_id: u32, resources: &Vec<NamedResource>) -> (vars: Vec<GlslUniformVar>)
    requires
        resources.len() <= u32::MAX,
    ensures
        vars@.len() == resources@.len(),
        forall|i: int|
            0 <= i < vars@.len() ==> {
                &&& (#[trigger] vars@[i]).group_id == group_id
                &&& vars@[i].binding_id == i
                &&& vars@[i].name@ == resources@[i].name@
                &&& vars@[i].uniform.is_uniform == resources@[i].uniform.is_uniform
                &&& vars@[i].uniform.type_ident@ == resources@[i].uniform.type_ident@
                &&& vars@[i].uniform.type_struct_str is Some
                    <==> resources@[i].uniform.type_struct_str is Some
                &&& vars@[i].uniform.type_struct_str is Some
                    ==> vars@[i].uniform.type_struct_str.unwrap()@
                    == resources@[i].uniform.type_struct_str.unwrap()@
            },
{
    let mut vars: Vec<GlslUniformVar> = Vec::new();
    let mut i: usize = 0;
    while i < resources.len()
        invariant
            i <= resources.len(),
            resources.len() <= u32::MAX,
            vars@.len() == i,
            forall|j: int|
                0 <= j < i ==> {
                    &&& (#[trigger] vars@[j]).group_id == group_id
                    &&& vars@[j].binding_id == j
                    &&& vars@[j].name@ == resources@[j].name@
                    &&& vars@[j].uniform.is_uniform == resources@[j].uniform.is_uniform
                    &&& vars@[j].uniform.type_ident@ == resources@[j].uniform.type_ident@
                    &&& vars@[j].uniform.type_struct_str is Some
                        <==> resources@[j].uniform.type_struct_str is Some
                    &&& vars@[j].uniform.type_struct_str is Some
                        ==> vars@[j].uniform.type_struct_str.unwrap()@
                        == resources@[j].uniform.type_struct_str.unwrap()@
                },
        decreases resources.len() - i,
    {
        let resource = &resources[i];
        vars.push(
            GlslUniformVar {
                group_id,
                binding_id: i as u32,
                name: resource.name.clone(),
                uniform: clone_type(&resource.uniform),
            },
        );
        i = i + 1;
    }
    vars
}

/// The finding about a bind group that is no struct.
pub open spec fn binding_not_a_struct() -> DiagnosticView {
    DiagnosticView {
        kind: ErrorKind::Structure,
        position: None,
        field: None,
        message: "UniformBinding only works on structs"@,
    }
}

/// The finding about a bind group with a field that has no name.
pub open spec fn binding_not_named() -> DiagnosticView {
    DiagnosticView {
        kind: ErrorKind::Structure,
        position: None,
        field: None,
        message: "UniformBinding does only work for named fields"@,
    }
}

/// Whether `fields` number the found fields in order: resource `i` has
/// binding `i`, and the name and type of field `i`.
pub open spec fn bindings_of(fields: Seq<BindingField>, inputs: Seq<FieldInputSpec>) -> bool {
    &&& fields.len() == inputs.len()
    &&& forall|i: int|
        0 <= i < fields.len() ==> {
            &&& (#[trigger] fields[i]).binding == i
            &&& Some(fields[i].ident@) == inputs[i].ident
            &&& fields[i].ty@ == inputs[i].ty
        }
}

/// Reads a found record as a bind group.
///
/// An item that is no struct, and a struct with a field without a name,
/// fail with that one finding. Otherwise every field is a resource, bound
/// at its position in the struct.
pub fn impl_uniform_binding_quote(input: &StructInput) -> (r: Result<UniformBindingImpl, Error>)
    requires
        input.fields.len() <= u32::MAX,
    ensures
        match r {
            Ok(binding) => {
                &&& input.is_struct
                &&& !some_unnamed(inputs_view(input.fields@))
                &&& binding.ident@ == input.ident@
                &&& bindings_of(binding.fields@, inputs_view(input.fields@))
            },
            Err(error) => if !input.is_struct {
                error@ == seq![binding_not_a_struct()]
            } else {
                some_unnamed(inputs_view(input.fields@)) && error@ == seq![binding_not_named()]
            },
        },
{
    let ghost inputs = inputs_view(input.fields@);
    if !input.is_struct {
        return Err(
            Error::new(
                Diagnostic::new(
                    ErrorKind::Structure,
                    String::from_str("UniformBinding only works on structs"),
                ),
            ),
        );
    }
    let mut fields: Vec<BindingField> = Vec::new();
    let mut i: usize = 0;
    while i < input.fields.len()
        invariant
            i <= input.fields.len(),
            input.fields.len() <= u32::MAX,
            input.is_struct,
            inputs == inputs_view(input.fields@),
            fields@.len() == i,
            forall|j: int| 0 <= j < i ==> (#[trigger] inputs[j]).ident is Some,
            forall|j: int|
                0 <= j < i ==> {
                    &&& (#[trigger] fields@[j]).binding == j
                    &&& Some(fields@[j].ident@) == inputs[j].ident
                    &&& fields@[j].ty@ == inputs[j].ty
                },
        decreases input.fields.len() - i,
    {
        let field = &input.fields[i];
        assert(inputs[i as int] == field@);
        match &field.ident {
            Some(ident) => {
                fields.push(
                    BindingField { binding: i as u32, ident: ident.clone(), ty: field.ty.clone() },
                );
            },
            None => {
                assert(inputs[i as int].ident is None);
                assert(some_unnamed(inputs));
                return Err(
                    Error::new(
                        Diagnostic::new(
                            ErrorKind::Structure,
                            String::from_str("UniformBinding does only work for named fields"),
                        ),
                    ),
                );
            },
        }
        i = i + 1;
    }
    Ok(UniformBindingImpl { ident: input.ident.clone(), fields })
}

} // verus!
