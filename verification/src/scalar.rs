//! Scalar kinds: what a vertex stream may carry and what a uniform block
//! may carry.

use vstd::prelude::*;
use crate::text::str_eq;

verus! {

/// A scalar of a vertex or instance stream.
#[derive(Debug, Clone, Copy, PartialEq, Eq, Structural)]
pub enum RustScalar {
    I8,
    I16,
    I32,
    U8,
    U16,
    U32,
    F32,
}

/// A scalar of a uniform block. Uniform blocks hold 32-bit scalars only, so
/// a narrower one cannot even be written down.
#[derive(Debug, Clone, Copy, PartialEq, Eq, Structural)]
pub enum WgslScalar {
    I32,
    U32,
    F32,
}

/// A scalar kind of either domain, seen through the vertex scalar that
/// stores it.
pub trait Scalar: Copy {
    /// The vertex scalar that stores a value of this kind.
    spec fn rust_spec(self) -> RustScalar;

    /// The vertex scalar that stores a value of this kind.
    fn rust(self) -> (r: RustScalar)
        ensures
            r == self.rust_spec(),
    ;

    /// The scalar of this domain that a type name stands for.
    spec fn from_type_name(name: Seq<char>) -> Option<Self>;

    /// What a type name that stands for no scalar of this domain is
    /// reported with.
    spec fn type_error_text(name: Seq<char>) -> Seq<char>;

    /// The scalar of this domain that a type name stands for, or the
    /// diagnostic for a name that stands for none.
    fn parse_type(name: &str) -> (r: Result<Self, String>)
        ensures
            match r {
                Ok(scalar) => Self::from_type_name(name@) == Some(scalar),
                Err(message) => Self::from_type_name(name@) is None && message@
                    == Self::type_error_text(name@),
            },
    ;
}

/// A type name that stands for no vertex scalar; it holds the name.
#[derive(Debug)]
pub struct NotAVertexScalar(pub String);

/// A type name that stands for no uniform scalar; it holds the name.
#[derive(Debug)]
pub struct NotAUniformScalar(pub String);

impl NotAVertexScalar {
    /// The diagnostic for the type name `name`.
    pub open spec fn text(name: Seq<char>) -> Seq<char> {
        "`"@ + name
            + "` is not a valid vertex scalar type\n\nallowed types are\n- `u8`, `u16`, `u32`\n- `i8`, `i16`, `i32`\n- `f32`\n"@
    }

    /// The diagnostic: the name, and the types that are allowed.
    pub fn message(&self) -> (s: String)
        ensures
            s@ == Self::text(self.0@),
    {
        let mut s = String::from_str("`");
        s.append(self.0.as_str());
        s.append(
            "` is not a valid vertex scalar type\n\nallowed types are\n- `u8`, `u16`, `u32`\n- `i8`, `i16`, `i32`\n- `f32`\n",
        );
        s
    }
}

impl NotAUniformScalar {
    /// The diagnostic for the type name `name`.
    pub open spec fn text(name: Seq<char>) -> Seq<char> {
        "`"@ + name
            + "` is not a valid uniform scalar type\n\nallowed types are\n- `u32`\n- `i32`\n- `f32`\n"@
    }

    /// The diagnostic: the name, and the types that are allowed.
    pub fn message(&self) -> (s: String)
        ensures
            s@ == Self::text(self.0@),
    {
        let mut s = String::from_str("`");
        s.append(self.0.as_str());
        s.append(
            "` is not a valid uniform scalar type\n\nallowed types are\n- `u32`\n- `i32`\n- `f32`\n",
        );
        s
    }
}

impl RustScalar {
    /// Size in bytes.
    pub open spec fn size(self) -> nat {
        match self {
            RustScalar::I8 | RustScalar::U8 => 1,
            RustScalar::I16 | RustScalar::U16 => 2,
            RustScalar::I32 | RustScalar::U32 | RustScalar::F32 => 4,
        }
    }

    /// Whether the scalar is narrower than 32 bits.
    pub open spec fn is_narrow(self) -> bool {
        self.size() < 4
    }

    /// The name of the type in Rust source.
    pub open spec fn name(self) -> Seq<char> {
        match self {
            RustScalar::I8 => "i8"@,
            RustScalar::I16 => "i16"@,
            RustScalar::I32 => "i32"@,
            RustScalar::U8 => "u8"@,
            RustScalar::U16 => "u16"@,
            RustScalar::U32 => "u32"@,
            RustScalar::F32 => "f32"@,
        }
    }

    /// The scalar part of a vertex format identifier.
    pub open spec fn format_name(self) -> Seq<char> {
        match self {
            RustScalar::I8 => "Sint8"@,
            RustScalar::I16 => "Sint16"@,
            RustScalar::I32 => "Sint32"@,
            RustScalar::U8 => "Uint8"@,
            RustScalar::U16 => "Uint16"@,
            RustScalar::U32 => "Uint32"@,
            RustScalar::F32 => "Float32"@,
        }
    }

    /// The scalar that a type name stands for.
    pub open spec fn of_name(s: Seq<char>) -> Option<RustScalar> {
        if s == "i8"@ {
            Some(RustScalar::I8)
        } else if s == "i16"@ {
            Some(RustScalar::I16)
        } else if s == "i32"@ {
            Some(RustScalar::I32)
        } else if s == "u8"@ {
            Some(RustScalar::U8)
        } else if s == "u16"@ {
            Some(RustScalar::U16)
        } else if s == "u32"@ {
            Some(RustScalar::U32)
        } else if s == "f32"@ {
            Some(RustScalar::F32)
        } else {
            None
        }
    }

    /// The shader-side scalar: integers widen to 32 bits and keep their
    /// sign.
    pub open spec fn wgsl(self) -> WgslScalar {
        match self {
            RustScalar::I8 | RustScalar::I16 | RustScalar::I32 => WgslScalar::I32,
            RustScalar::U8 | RustScalar::U16 | RustScalar::U32 => WgslScalar::U32,
            RustScalar::F32 => WgslScalar::F32,
        }
    }

    /// Size in bytes: 1, 2 or 4.
    pub fn byte_count(&self) -> (n: usize)
        ensures
            n == self.size(),
            n == 1 || n == 2 || n == 4,
    {
        match self {
            RustScalar::I8 => 1,
            RustScalar::I16 => 2,
            RustScalar::I32 => 4,
            RustScalar::U8 => 1,
            RustScalar::U16 => 2,
            RustScalar::U32 => 4,
            RustScalar::F32 => 4,
        }
    }

    /// The name of the type in Rust source.
    pub fn as_ref(&self) -> (s: &'static str)
        ensures
            s@ == self.name(),
    {
        match self {
            RustScalar::I8 => "i8",
            RustScalar::I16 => "i16",
            RustScalar::I32 => "i32",
            RustScalar::U8 => "u8",
            RustScalar::U16 => "u16",
            RustScalar::U32 => "u32",
            RustScalar::F32 => "f32",
        }
    }

    /// The type that stores the scalar in a raw record: the scalar itself.
    pub fn raw_rust_type(&self) -> (s: &'static str)
        ensures
            s@ == self.name(),
    {
        self.as_ref()
    }

    /// The scalar part of a vertex format identifier.
    pub fn vertex_format_name(self) -> (s: &'static str)
        ensures
            s@ == self.format_name(),
    {
        match self {
            RustScalar::I8 => "Sint8",
            RustScalar::I16 => "Sint16",
            RustScalar::I32 => "Sint32",
            RustScalar::U8 => "Uint8",
            RustScalar::U16 => "Uint16",
            RustScalar::U32 => "Uint32",
            RustScalar::F32 => "Float32",
        }
    }

    /// The scalar that a type name stands for; any other text is rejected.
    pub fn try_from_str(value: &str) -> (r: Result<RustScalar, ()>)
        ensures
            r == match RustScalar::of_name(value@) {
                Some(k) => Ok::<RustScalar, ()>(k),
                None => Err::<RustScalar, ()>(()),
            },
    {
        if str_eq(value, "i8") {
            Ok(RustScalar::I8)
        } else if str_eq(value, "i16") {
            Ok(RustScalar::I16)
        } else if str_eq(value, "i32") {
            Ok(RustScalar::I32)
        } else if str_eq(value, "u8") {
            Ok(RustScalar::U8)
        } else if str_eq(value, "u16") {
            Ok(RustScalar::U16)
        } else if str_eq(value, "u32") {
            Ok(RustScalar::U32)
        } else if str_eq(value, "f32") {
            Ok(RustScalar::F32)
        } else {
            Err(())
        }
    }
}

impl WgslScalar {
    /// The vertex scalar of the same width and kind.
    pub open spec fn rust(self) -> RustScalar {
        match self {
            WgslScalar::I32 => RustScalar::I32,
            WgslScalar::U32 => RustScalar::U32,
            WgslScalar::F32 => RustScalar::F32,
        }
    }

    /// The name of the type, which is the same in shader and Rust source.
    pub open spec fn name(self) -> Seq<char> {
        match self {
            WgslScalar::I32 => "i32"@,
            WgslScalar::U32 => "u32"@,
            WgslScalar::F32 => "f32"@,
        }
    }

    /// The scalar that a type name stands for.
    pub open spec fn of_name(s: Seq<char>) -> Option<WgslScalar> {
        if s == "i32"@ {
            Some(WgslScalar::I32)
        } else if s == "u32"@ {
            Some(WgslScalar::U32)
        } else if s == "f32"@ {
            Some(WgslScalar::F32)
        } else {
            None
        }
    }

    /// Size in bytes: always 4.
    pub fn byte_count(&self) -> (n: usize)
        ensures
            n == 4,
            n == self.rust().size(),
    {
        match self {
            WgslScalar::I32 => 4,
            WgslScalar::U32 => 4,
            WgslScalar::F32 => 4,
        }
    }

    /// The name of the type in shader source.
    pub fn wgsl_type_str(&self) -> (s: &'static str)
        ensures
            s@ == self.name(),
    {
        match self {
            WgslScalar::I32 => "i32",
            WgslScalar::U32 => "u32",
            WgslScalar::F32 => "f32",
        }
    }

    /// The type that stores the scalar in a raw record.
    pub fn raw_rust_type(&self) -> (s: &'static str)
        ensures
            s@ == self.name(),
            s@ == self.rust().name(),
    {
        self.wgsl_type_str()
    }

    /// The scalar that a type name stands for; any other text is rejected.
    pub fn try_from_str(value: &str) -> (r: Result<WgslScalar, ()>)
        ensures
            r == match WgslScalar::of_name(value@) {
                Some(k) => Ok::<WgslScalar, ()>(k),
                None => Err::<WgslScalar, ()>(()),
            },
    {
        if str_eq(value, "i32") {
            Ok(WgslScalar::I32)
        } else if str_eq(value, "u32") {
            Ok(WgslScalar::U32)
        } else if str_eq(value, "f32") {
            Ok(WgslScalar::F32)
        } else {
            Err(())
        }
    }
}

impl From<WgslScalar> for RustScalar {
    fn from(value: WgslScalar) -> (r: RustScalar) {
        match value {
            WgslScalar::I32 => RustScalar::I32,
            WgslScalar::U32 => RustScalar::U32,
            WgslScalar::F32 => RustScalar::F32,
        }
    }
}

impl vstd::std_specs::convert::FromSpecImpl<WgslScalar> for RustScalar {
    open spec fn obeys_from_spec() -> bool {
        true
    }

    open spec fn from_spec(value: WgslScalar) -> RustScalar {
        value.rust()
    }
}

impl From<RustScalar> for WgslScalar {
    fn from(value: RustScalar) -> (r: WgslScalar) {
        match value {
            RustScalar::I8 | RustScalar::I16 | RustScalar::I32 => WgslScalar::I32,
            RustScalar::U8 | RustScalar::U16 | RustScalar::U32 => WgslScalar::U32,
            RustScalar::F32 => WgslScalar::F32,
        }
    }
}

impl vstd::std_specs::convert::FromSpecImpl<RustScalar> for WgslScalar {
    open spec fn obeys_from_spec() -> bool {
        true
    }

    open spec fn from_spec(value: RustScalar) -> WgslScalar {
        value.wgsl()
    }
}

impl RustScalar {
    /// The scalar that a declared type stands for; any other type is
    /// rejected and handed back in the error.
    pub fn try_from_type(name: &str) -> (r: Result<RustScalar, NotAVertexScalar>)
        ensures
            match r {
                Ok(scalar) => RustScalar::of_name(name@) == Some(scalar),
                Err(error) => RustScalar::of_name(name@) is None && error.0@ == name@,
            },
    {
        match RustScalar::try_from_str(name) {
            Ok(scalar) => Ok(scalar),
            Err(_) => Err(NotAVertexScalar(String::from_str(name))),
        }
    }
}

impl WgslScalar {
    /// The scalar that a declared type stands for; any other type is
    /// rejected and handed back in the error.
    pub fn try_from_type(name: &str) -> (r: Result<WgslScalar, NotAUniformScalar>)
        ensures
            match r {
                Ok(scalar) => WgslScalar::of_name(name@) == Some(scalar),
                Err(error) => WgslScalar::of_name(name@) is None && error.0@ == name@,
            },
    {
        match WgslScalar::try_from_str(name) {
            Ok(scalar) => Ok(scalar),
            Err(_) => Err(NotAUniformScalar(String::from_str(name))),
        }
    }
}

impl Scalar for RustScalar {
    open spec fn rust_spec(self) -> RustScalar {
        self
    }

    fn rust(self) -> (r: RustScalar) {
        self
    }

    open spec fn from_type_name(name: Seq<char>) -> Option<RustScalar> {
        RustScalar::of_name(name)
    }

    open spec fn type_error_text(name: Seq<char>) -> Seq<char> {
        NotAVertexScalar::text(name)
    }

    fn parse_type(name: &str) -> (r: Result<RustScalar, String>) {
        match RustScalar::try_from_type(name) {
            Ok(scalar) => Ok(scalar),
            Err(error) => Err(error.message()),
        }
    }
}

impl Scalar for WgslScalar {
    open spec fn rust_spec(self) -> RustScalar {
        self.rust()
    }

    fn rust(self) -> (r: RustScalar) {
        RustScalar::from(self)
    }

    open spec fn from_type_name(name: Seq<char>) -> Option<WgslScalar> {
        WgslScalar::of_name(name)
    }

    open spec fn type_error_text(name: Seq<char>) -> Seq<char> {
        NotAUniformScalar::text(name)
    }

    fn parse_type(name: &str) -> (r: Result<WgslScalar, String>) {
        match WgslScalar::try_from_type(name) {
            Ok(scalar) => Ok(scalar),
            Err(error) => Err(error.message()),
        }
    }
}

/// The names of the seven vertex scalars differ from one another, so a name
/// stands for at most one scalar, and each scalar is found by its name.
pub proof fn lemma_scalar_names(k: RustScalar)
    ensures
        RustScalar::of_name(k.name()) == Some(k),
{
    reveal_strlit("i8");
    reveal_strlit("i16");
    reveal_strlit("i32");
    reveal_strlit("u8");
    reveal_strlit("u16");
    reveal_strlit("u32");
    reveal_strlit("f32");
    assert("i8"@.len() == 2);
    assert("u8"@.len() == 2);
    assert("i16"@[1] == '1');
    assert("i32"@[1] == '3');
    assert("u16"@[1] == '1');
    assert("u32"@[1] == '3');
    assert("f32"@[0] == 'f');
    assert("i8"@[0] == 'i');
    assert("u8"@[0] == 'u');
    assert("i16"@[0] == 'i');
    assert("u16"@[0] == 'u');
    assert("i32"@[0] == 'i');
    assert("u32"@[0] == 'u');
}

/// Widening to the shader-side scalar and coming back keeps every 32-bit
/// scalar, and a uniform scalar survives the trip through its vertex scalar.
pub proof fn lemma_wgsl_round_trip(k: WgslScalar)
    ensures
        k.rust().wgsl() == k,
        k.rust().size() == 4,
        k.rust().name() == k.name(),
{
}

} // verus!
