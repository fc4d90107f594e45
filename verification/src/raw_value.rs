//! Repeat counts and the scalar table of vertex formats.

use vstd::prelude::*;
use crate::dim::parse_u8;
use crate::dim::parse_u8_spec;
use crate::text::str_eq;

verus! {

/// How many times a shape is repeated in one field: 1 to 4.
#[derive(Debug, Clone, Copy, PartialEq, Eq, Structural)]
pub enum RawValueCount {
    N1,
    N2,
    N3,
    N4,
}

/// Why a text is no repeat count.
#[derive(Debug)]
pub enum RawValueError {
    /// The numeral is none of 1, 2, 3 and 4.
    InvalidNumber(u8),
    /// The text is no numeral that fits in a byte.
    Int(core::num::ParseIntError),
}

/// A scalar as a vertex format names it.
#[derive(Debug, Clone, Copy, PartialEq, Eq, Structural)]
pub enum RawValueType {
    UInt8,
    UInt16,
    UInt32,
    SInt8,
    SInt16,
    SInt32,
    Float32,
}

/// A type name that stands for no scalar; it holds the name.
#[derive(Debug)]
pub struct InvalidType(pub String);

impl Default for RawValueCount {
    fn default() -> (r: RawValueCount)
        ensures
            r == RawValueCount::N1,
    {
        RawValueCount::N1
    }
}

impl RawValueCount {
    /// The count as a number.
    pub open spec fn count(self) -> nat {
        match self {
            RawValueCount::N1 => 1,
            RawValueCount::N2 => 2,
            RawValueCount::N3 => 3,
            RawValueCount::N4 => 4,
        }
    }

    /// The count that a number stands for.
    pub open spec fn of_count(n: nat) -> Option<RawValueCount> {
        if n == 1 {
            Some(RawValueCount::N1)
        } else if n == 2 {
            Some(RawValueCount::N2)
        } else if n == 3 {
            Some(RawValueCount::N3)
        } else if n == 4 {
            Some(RawValueCount::N4)
        } else {
            None
        }
    }

    /// The suffix that the count adds to a vertex format's scalar name.
    pub open spec fn format_part(self) -> Seq<char> {
        match self {
            RawValueCount::N1 => ""@,
            RawValueCount::N2 => "x2"@,
            RawValueCount::N3 => "x3"@,
            RawValueCount::N4 => "x4"@,
        }
    }

    /// The count as a number.
    pub fn to_usize(self) -> (n: usize)
        ensures
            n == self.count(),
    {
        match self {
            RawValueCount::N1 => 1,
            RawValueCount::N2 => 2,
            RawValueCount::N3 => 3,
            RawValueCount::N4 => 4,
        }
    }

    /// `n` times the count.
    pub open spec fn scaled(self, n: nat) -> nat {
        match self {
            RawValueCount::N1 => n,
            RawValueCount::N2 => 2 * n,
            RawValueCount::N3 => 3 * n,
            RawValueCount::N4 => 4 * n,
        }
    }

    /// `n` times the count.
    pub fn times(self, n: usize) -> (r: usize)
        requires
            n * 4 <= usize::MAX,
        ensures
            r == self.scaled(n as nat),
            r == n * self.count(),
    {
        match self {
            RawValueCount::N1 => n,
            RawValueCount::N2 => n * 2,
            RawValueCount::N3 => n * 3,
            RawValueCount::N4 => n * 4,
        }
    }

    /// The count that a number stands for; a number outside 1 to 4 is
    /// rejected and handed back in the error.
    pub fn from_number(n: u8) -> (r: Result<RawValueCount, RawValueError>)
        ensures
            match r {
                Ok(c) => RawValueCount::of_count(n as nat) == Some(c),
                Err(RawValueError::InvalidNumber(m)) => RawValueCount::of_count(n as nat) is None
                    && m == n,
                Err(RawValueError::Int(_)) => false,
            },
    {
        if n == 1 {
            Ok(RawValueCount::N1)
        } else if n == 2 {
            Ok(RawValueCount::N2)
        } else if n == 3 {
            Ok(RawValueCount::N3)
        } else if n == 4 {
            Ok(RawValueCount::N4)
        } else {
            Err(RawValueError::InvalidNumber(n))
        }
    }

    /// Reads a count from its decimal numeral.
    pub fn from_str(s: &str) -> (r: Result<RawValueCount, RawValueError>)
        ensures
            match r {
                Ok(c) => parse_u8_spec(s@) matches Some(n) && RawValueCount::of_count(n as nat)
                    == Some(c),
                Err(RawValueError::InvalidNumber(m)) => parse_u8_spec(s@) == Some(m)
                    && RawValueCount::of_count(m as nat) is None,
                Err(RawValueError::Int(_)) => parse_u8_spec(s@) is None,
            },
    {
        match parse_u8(s) {
            Ok(n) => RawValueCount::from_number(n),
            Err(err) => Err(RawValueError::Int(err)),
        }
    }

    /// The suffix that the count adds to a vertex format's scalar name:
    /// nothing for one, else `x` and the count.
    pub fn vertex_format_part(&self) -> (s: &'static str)
        ensures
            s@ == self.format_part(),
    {
        match self {
            RawValueCount::N1 => "",
            RawValueCount::N2 => "x2",
            RawValueCount::N3 => "x3",
            RawValueCount::N4 => "x4",
        }
    }

    /// The shader vector of that many components; one component is no
    /// vector.
    pub fn glsl_type(&self) -> (r: Option<&'static str>)
        ensures
            r is None <==> self == RawValueCount::N1,
            self == RawValueCount::N2 ==> r.unwrap()@ == "vec2"@,
            self == RawValueCount::N3 ==> r.unwrap()@ == "vec3"@,
            self == RawValueCount::N4 ==> r.unwrap()@ == "vec4"@,
    {
        match self {
            RawValueCount::N1 => None,
            RawValueCount::N2 => Some("vec2"),
            RawValueCount::N3 => Some("vec3"),
            RawValueCount::N4 => Some("vec4"),
        }
    }
}

impl RawValueError {
    /// What an invalid count is reported with.
    pub fn message() -> (s: &'static str)
        ensures
            s@ == "invalid number. The only valid numbers are 1, 2, 3, 4"@,
    {
        "invalid number. The only valid numbers are 1, 2, 3, 4"
    }
}

impl RawValueType {
    /// Size in bytes.
    pub open spec fn size(self) -> nat {
        match self {
            RawValueType::UInt8 | RawValueType::SInt8 => 1,
            RawValueType::UInt16 | RawValueType::SInt16 => 2,
            RawValueType::UInt32 | RawValueType::SInt32 | RawValueType::Float32 => 4,
        }
    }

    /// The scalar's name in a vertex format.
    pub open spec fn format_part(self) -> Seq<char> {
        match self {
            RawValueType::UInt8 => "Uint8"@,
            RawValueType::UInt16 => "Uint16"@,
            RawValueType::UInt32 => "Uint32"@,
            RawValueType::SInt8 => "Sint8"@,
            RawValueType::SInt16 => "Sint16"@,
            RawValueType::SInt32 => "Sint32"@,
            RawValueType::Float32 => "Float32"@,
        }
    }

    /// The scalar's name in shader source, where integers have 32 bits.
    pub open spec fn shader_name(self) -> Seq<char> {
        match self {
            RawValueType::UInt8 | RawValueType::UInt16 | RawValueType::UInt32 => "u32"@,
            RawValueType::SInt8 | RawValueType::SInt16 | RawValueType::SInt32 => "i32"@,
            RawValueType::Float32 => "f32"@,
        }
    }

    /// The scalar's name in Rust source.
    pub open spec fn rust_name(self) -> Seq<char> {
        match self {
            RawValueType::UInt8 => "u8"@,
            RawValueType::UInt16 => "u16"@,
            RawValueType::UInt32 => "u32"@,
            RawValueType::SInt8 => "i8"@,
            RawValueType::SInt16 => "i16"@,
            RawValueType::SInt32 => "i32"@,
            RawValueType::Float32 => "f32"@,
        }
    }

    /// The scalar that a Rust type name stands for.
    pub open spec fn of_name(s: Seq<char>) -> Option<RawValueType> {
        if s == "f32"@ {
            Some(RawValueType::Float32)
        } else if s == "u8"@ {
            Some(RawValueType::UInt8)
        } else if s == "u16"@ {
            Some(RawValueType::UInt16)
        } else if s == "u32"@ {
            Some(RawValueType::UInt32)
        } else if s == "i8"@ {
            Some(RawValueType::SInt8)
        } else if s == "i16"@ {
            Some(RawValueType::SInt16)
        } else if s == "i32"@ {
            Some(RawValueType::SInt32)
        } else {
            None
        }
    }

    /// Size in bytes.
    pub fn byte_count(&self) -> (n: usize)
        ensures
            n == self.size(),
    {
        match self {
            RawValueType::UInt8 => 1,
            RawValueType::UInt16 => 2,
            RawValueType::UInt32 => 4,
            RawValueType::SInt8 => 1,
            RawValueType::SInt16 => 2,
            RawValueType::SInt32 => 4,
            RawValueType::Float32 => 4,
        }
    }

    /// The scalar's name in a vertex format.
    pub fn vertex_format_part(&self) -> (s: &'static str)
        ensures
            s@ == self.format_part(),
    {
        match self {
            RawValueType::UInt8 => "Uint8",
            RawValueType::UInt16 => "Uint16",
            RawValueType::UInt32 => "Uint32",
            RawValueType::SInt8 => "Sint8",
            RawValueType::SInt16 => "Sint16",
            RawValueType::SInt32 => "Sint32",
            RawValueType::Float32 => "Float32",
        }
    }

    /// The scalar's name in shader source.
    pub fn glsl_type(&self) -> (s: &'static str)
        ensures
            s@ == self.shader_name(),
    {
        match self {
            RawValueType::UInt8 | RawValueType::UInt16 | RawValueType::UInt32 => "u32",
            RawValueType::SInt8 | RawValueType::SInt16 | RawValueType::SInt32 => "i32",
            RawValueType::Float32 => "f32",
        }
    }

    /// The scalar's name in Rust source.
    pub fn rust_type(&self) -> (s: &'static str)
        ensures
            s@ == self.rust_name(),
    {
        match self {
            RawValueType::UInt8 => "u8",
            RawValueType::UInt16 => "u16",
            RawValueType::UInt32 => "u32",
            RawValueType::SInt8 => "i8",
            RawValueType::SInt16 => "i16",
            RawValueType::SInt32 => "i32",
            RawValueType::Float32 => "f32",
        }
    }

    /// The scalar that a Rust type name stands for; any other name is
    /// rejected and handed back in the error.
    pub fn try_from_str(value: &str) -> (r: Result<RawValueType, InvalidType>)
        ensures
            match r {
                Ok(t) => RawValueType::of_name(value@) == Some(t),
                Err(e) => RawValueType::of_name(value@) is None && e.0@ == value@,
            },
    {
        if str_eq(value, "f32") {
            Ok(RawValueType::Float32)
        } else if str_eq(value, "u8") {
            Ok(RawValueType::UInt8)
        } else if str_eq(value, "u16") {
            Ok(RawValueType::UInt16)
        } else if str_eq(value, "u32") {
            Ok(RawValueType::UInt32)
        } else if str_eq(value, "i8") {
            Ok(RawValueType::SInt8)
        } else if str_eq(value, "i16") {
            Ok(RawValueType::SInt16)
        } else if str_eq(value, "i32") {
            Ok(RawValueType::SInt32)
        } else {
            Err(InvalidType(String::from_str(value)))
        }
    }
}

impl InvalidType {
    /// What an invalid type is reported with.
    pub fn message() -> (s: &'static str)
        ensures
            s@ == "invalid type; \nallowed are u8, u16, u32, i8, i16, i32, f32"@,
    {
        "invalid type; \nallowed are u8, u16, u32, i8, i16, i32, f32"
    }
}

impl From<RawValueCount> for usize {
    fn from(value: RawValueCount) -> (n: usize) {
        value.to_usize()
    }
}

impl vstd::std_specs::convert::FromSpecImpl<RawValueCount> for usize {
    open spec fn obeys_from_spec() -> bool {
        true
    }

    open spec fn from_spec(value: RawValueCount) -> usize {
        value.count() as usize
    }
}

/// Scaling by a repeat count is multiplying by the count.
pub proof fn lemma_count_scaled(count: RawValueCount, n: nat)
    ensures
        count.scaled(n) == n * count.count(),
        count.scaled(n) == count.count() * n,
{
}

} // verus!
