//! Shapes: a scalar, a vector or a matrix of scalars, and the vector units
//! that a shape is stored as.

use vstd::prelude::*;
use vstd::std_specs::convert::FromSpec;
use crate::dim::lemma_scaled;
use crate::dim::Dim;
use crate::scalar::RustScalar;
use crate::scalar::Scalar;
use crate::scalar::WgslScalar;
use crate::text::decimal;
use crate::text::push_decimal;

verus! {

/// The declared shape of a field.
///
/// A matrix is `dim_y` rows, each a vector of `dim_x` components.
#[derive(Debug, Clone, Copy, PartialEq, Eq)]
pub enum WgslType<T> {
    Scalar(T),
    Vec { dim: Dim, scalar: T },
    Mat { dim_x: Dim, dim_y: Dim, scalar: T },
}

/// The shape of one stored unit: a scalar or a single vector.
#[derive(Debug, Clone, Copy, PartialEq, Eq)]
pub enum VertexType<T> {
    Scalar(T),
    Vec { dim: Dim, scalar: T },
}

/// The type of one entry of a raw record.
#[derive(Debug, Clone, Copy, PartialEq, Eq)]
pub enum RawRustType {
    /// A single scalar.
    Scalar(RustScalar),
    /// `[scalar; len]`.
    Array { scalar: RustScalar, len: Dim },
    /// `[[scalar; dim_x]; dim_y]`.
    Matrix { scalar: RustScalar, dim_x: Dim, dim_y: Dim },
    /// `[u8; len]`, reserved bytes that hold zero.
    Bytes { count: usize },
}

/// `vec<dim><<scalar>>` as shader source writes it.
pub open spec fn vec_text(dim: Dim, scalar: Seq<char>) -> Seq<char> {
    "vec"@ + decimal(dim.count()) + "<"@ + scalar + ">"@
}

/// `mat<dim_x>x<dim_y><<scalar>>` as shader source writes it.
pub open spec fn mat_text(dim_x: Dim, dim_y: Dim, scalar: Seq<char>) -> Seq<char> {
    "mat"@ + decimal(dim_x.count()) + "x"@ + decimal(dim_y.count()) + "<"@ + scalar + ">"@
}

/// `[<element>; <len>]` as Rust source writes it.
pub open spec fn array_text(element: Seq<char>, len: nat) -> Seq<char> {
    "["@ + element + "; "@ + decimal(len) + "]"@
}

impl RawRustType {
    /// Size in bytes.
    pub open spec fn size(self) -> nat {
        match self {
            RawRustType::Scalar(scalar) => scalar.size(),
            RawRustType::Array { scalar, len } => len.scaled(scalar.size()),
            RawRustType::Matrix { scalar, dim_x, dim_y } => dim_y.scaled(
                dim_x.scaled(scalar.size()),
            ),
            RawRustType::Bytes { count } => count as nat,
        }
    }

    /// The type as Rust source writes it.
    pub open spec fn text(self) -> Seq<char> {
        match self {
            RawRustType::Scalar(scalar) => scalar.name(),
            RawRustType::Array { scalar, len } => array_text(scalar.name(), len.count()),
            RawRustType::Matrix { scalar, dim_x, dim_y } => array_text(
                array_text(scalar.name(), dim_x.count()),
                dim_y.count(),
            ),
            RawRustType::Bytes { count } => array_text("u8"@, count as nat),
        }
    }

    /// Size in bytes.
    pub fn byte_count(&self) -> (n: usize)
        ensures
            n == self.size(),
    {
        match self {
            RawRustType::Scalar(scalar) => scalar.byte_count(),
            RawRustType::Array { scalar, len } => len.times(scalar.byte_count()),
            RawRustType::Matrix { scalar, dim_x, dim_y } => {
                let row: usize = dim_x.times(scalar.byte_count());
                dim_y.times(row)
            },
            RawRustType::Bytes { count } => *count,
        }
    }

    /// The type as Rust source writes it.
    pub fn to_string(&self) -> (s: String)
        ensures
            s@ == self.text(),
    {
        match self {
            RawRustType::Scalar(scalar) => String::from_str(scalar.as_ref()),
            RawRustType::Array { scalar, len } => array_string(scalar.as_ref(), len.to_usize()),
            RawRustType::Matrix { scalar, dim_x, dim_y } => {
                let row = array_string(scalar.as_ref(), dim_x.to_usize());
                array_string(row.as_str(), dim_y.to_usize())
            },
            RawRustType::Bytes { count } => array_string("u8", *count),
        }
    }
}

/// `[<element>; <len>]` as Rust source writes it.
pub fn array_string(element: &str, len: usize) -> (s: String)
    ensures
        s@ == array_text(element@, len as nat),
{
    let mut s = String::from_str("[");
    s.append(element);
    s.append("; ");
    push_decimal(&mut s, len);
    s.append("]");
    s
}

impl<T> VertexType<T> {
    /// The scalar that the unit is made of.
    pub open spec fn scalar(self) -> T {
        match self {
            VertexType::Scalar(scalar) => scalar,
            VertexType::Vec { scalar, .. } => scalar,
        }
    }

    /// The number of scalars in the unit.
    pub open spec fn width(self) -> nat {
        match self {
            VertexType::Scalar(_) => 1,
            VertexType::Vec { dim, .. } => dim.count(),
        }
    }

    /// The same shape over the scalar `u`.
    pub open spec fn with_scalar<U>(self, u: U) -> VertexType<U> {
        match self {
            VertexType::Scalar(_) => VertexType::Scalar(u),
            VertexType::Vec { dim, .. } => VertexType::Vec { dim, scalar: u },
        }
    }

    /// The declared shape that consists of this one unit.
    pub open spec fn wgsl_type(self) -> WgslType<T> {
        match self {
            VertexType::Scalar(scalar) => WgslType::Scalar(scalar),
            VertexType::Vec { dim, scalar } => WgslType::Vec { dim, scalar },
        }
    }

    /// The same shape with its scalar converted.
    pub fn scalar_into<U>(self) -> (r: VertexType<U>) where T: Into<U>, U: From<T>
        ensures
            <U as FromSpec<T>>::obeys_from_spec() ==> r == self.with_scalar(
                <U as FromSpec<T>>::from_spec(self.scalar()),
            ),
            r.width() == self.width(),
    {
        match self {
            VertexType::Scalar(scalar) => VertexType::Scalar(scalar.into()),
            VertexType::Vec { dim, scalar } => VertexType::Vec { dim, scalar: scalar.into() },
        }
    }

    /// The declared shape that consists of this one unit.
    pub fn into_wgsl_type(self) -> (r: WgslType<T>)
        ensures
            r == self.wgsl_type(),
    {
        match self {
            VertexType::Scalar(v) => WgslType::Scalar(v),
            VertexType::Vec { dim, scalar } => WgslType::Vec { dim, scalar },
        }
    }
}

impl<T: Scalar> VertexType<T> {
    /// Size in bytes: the scalar's size times the number of scalars.
    pub open spec fn size(self) -> nat {
        match self {
            VertexType::Scalar(scalar) => scalar.rust_spec().size(),
            VertexType::Vec { dim, scalar } => dim.scaled(scalar.rust_spec().size()),
        }
    }

    /// Alignment in bytes: a scalar is aligned to its size, a vector of two
    /// to twice and a vector of three or four to four times its scalar's
    /// size.
    pub open spec fn align(self) -> nat {
        match self {
            VertexType::Scalar(scalar) => scalar.rust_spec().size(),
            VertexType::Vec { dim, scalar } => match dim {
                Dim::D2 => 2 * scalar.rust_spec().size(),
                Dim::D3 => 4 * scalar.rust_spec().size(),
                Dim::D4 => 4 * scalar.rust_spec().size(),
            },
        }
    }

    /// The type as shader source writes it.
    pub open spec fn wgsl_text(self) -> Seq<char> {
        match self {
            VertexType::Scalar(scalar) => scalar.rust_spec().wgsl().name(),
            VertexType::Vec { dim, scalar } => vec_text(dim, scalar.rust_spec().wgsl().name()),
        }
    }

    /// The type that stores the unit in a raw record.
    pub open spec fn raw_type(self) -> RawRustType {
        match self {
            VertexType::Scalar(scalar) => RawRustType::Scalar(scalar.rust_spec()),
            VertexType::Vec { dim, scalar } => RawRustType::Array {
                scalar: scalar.rust_spec(),
                len: dim,
            },
        }
    }

    /// Size in bytes.
    pub fn byte_count(&self) -> (n: usize)
        ensures
            n == self.size(),
            1 <= n <= 16,
    {
        match self {
            VertexType::Scalar(scalar) => scalar.rust().byte_count(),
            VertexType::Vec { dim, scalar } => dim.times(scalar.rust().byte_count()),
        }
    }

    /// Alignment in bytes.
    pub fn byte_align(&self) -> (n: usize)
        ensures
            n == self.align(),
            n == 1 || n == 2 || n == 4 || n == 8 || n == 16,
    {
        match self {
            VertexType::Scalar(scalar) => scalar.rust().byte_count(),
            VertexType::Vec { dim, scalar } => {
                let factor: usize = match dim {
                    Dim::D2 => 2,
                    Dim::D3 => 4,
                    Dim::D4 => 4,
                };
                scalar.rust().byte_count() * factor
            },
        }
    }

    /// The type that stores the unit in a raw record.
    pub fn raw_rust_type(&self) -> (r: RawRustType)
        ensures
            r == self.raw_type(),
            r.size() == self.size(),
    {
        match self {
            VertexType::Scalar(scalar) => RawRustType::Scalar(scalar.rust()),
            VertexType::Vec { dim, scalar } => RawRustType::Array {
                scalar: scalar.rust(),
                len: *dim,
            },
        }
    }

    /// The type as shader source writes it: the bare scalar, or
    /// `vecN<scalar>`, with integers widened to 32 bits.
    pub fn wgsl_type_str(&self) -> (s: String)
        ensures
            s@ == self.wgsl_text(),
    {
        match self {
            VertexType::Scalar(scalar) => {
                String::from_str(WgslScalar::from(scalar.rust()).wgsl_type_str())
            },
            VertexType::Vec { dim, scalar } => {
                let mut s = String::from_str("vec");
                push_decimal(&mut s, dim.to_usize());
                s.append("<");
                s.append(WgslScalar::from(scalar.rust()).wgsl_type_str());
                s.append(">");
                s
            },
        }
    }
}

impl VertexType<RustScalar> {
    /// Whether vertex fetch knows no format for the unit: a vector of three
    /// scalars of 8 or 16 bits.
    pub open spec fn format_disallowed(self) -> bool {
        self matches VertexType::Vec { dim, scalar } && dim == Dim::D3 && scalar.is_narrow()
    }

    /// The identifier of the unit's vertex format.
    pub open spec fn format_text(self) -> Seq<char> {
        match self {
            VertexType::Scalar(scalar) => scalar.format_name(),
            VertexType::Vec { dim, scalar } => scalar.format_name() + "x"@ + decimal(dim.count()),
        }
    }

    /// The identifier of the unit's vertex format, or `None` for the one
    /// combination that has none: three scalars of 8 or 16 bits.
    pub fn vertex_format(self) -> (r: Option<String>)
        ensures
            r is None <==> self.format_disallowed(),
            r matches Some(s) ==> s@ == self.format_text(),
    {
        match self {
            VertexType::Scalar(scalar) => Some(String::from_str(scalar.vertex_format_name())),
            VertexType::Vec { dim, scalar } => {
                let three = match dim {
                    Dim::D3 => true,
                    _ => false,
                };
                if three && scalar.byte_count() < 4 {
                    return None;
                }
                let mut s = String::from_str(scalar.vertex_format_name());
                s.append("x");
                push_decimal(&mut s, dim.to_usize());
                Some(s)
            },
        }
    }
}

impl<T> WgslType<T> {
    /// The shape that a scalar and up to two dimensions declare: no
    /// dimension is a scalar, one a vector, two a matrix. A second
    /// dimension without a first is not looked at.
    pub open spec fn new_spec(scalar: T, dim_x: Option<Dim>, dim_y: Option<Dim>) -> WgslType<T> {
        match (dim_x, dim_y) {
            (None, _) => WgslType::Scalar(scalar),
            (Some(dim), None) => WgslType::Vec { dim, scalar },
            (Some(dim_x), Some(dim_y)) => WgslType::Mat { dim_x, dim_y, scalar },
        }
    }

    /// The scalar that the shape is made of.
    pub open spec fn scalar(self) -> T {
        match self {
            WgslType::Scalar(scalar) => scalar,
            WgslType::Vec { scalar, .. } => scalar,
            WgslType::Mat { scalar, .. } => scalar,
        }
    }

    /// The number of scalars in the shape.
    pub open spec fn element_count(self) -> nat {
        match self {
            WgslType::Scalar(_) => 1,
            WgslType::Vec { dim, .. } => dim.count(),
            WgslType::Mat { dim_x, dim_y, .. } => dim_x.count() * dim_y.count(),
        }
    }

    /// The number of units that store the shape: the rows of a matrix, else
    /// one.
    pub open spec fn row_count(self) -> nat {
        match self {
            WgslType::Mat { dim_y, .. } => dim_y.count(),
            _ => 1,
        }
    }

    /// The unit that stores the shape, or each row of it.
    pub open spec fn row_type(self) -> VertexType<T> {
        match self {
            WgslType::Scalar(scalar) => VertexType::Scalar(scalar),
            WgslType::Vec { dim, scalar } => VertexType::Vec { dim, scalar },
            WgslType::Mat { dim_x, scalar, .. } => VertexType::Vec { dim: dim_x, scalar },
        }
    }

    /// The units that store the shape, in order, each with its row index if
    /// the shape is a matrix.
    pub open spec fn rows(self) -> Seq<(VertexType<T>, Option<usize>)> {
        Seq::new(
            self.row_count(),
            |i: int| (self.row_type(), if self is Mat { Some(i as usize) } else { None }),
        )
    }

    /// The shape that a scalar and up to two dimensions declare.
    pub fn new(scalar: T, dim_x: Option<Dim>, dim_y: Option<Dim>) -> (r: WgslType<T>)
        ensures
            r == WgslType::new_spec(scalar, dim_x, dim_y),
    {
        match (dim_x, dim_y) {
            (None, _) => WgslType::Scalar(scalar),
            (Some(dim), None) => WgslType::Vec { dim, scalar },
            (Some(dim_x), Some(dim_y)) => WgslType::Mat { dim_x, dim_y, scalar },
        }
    }
}

impl<T: Copy> WgslType<T> {
    /// The units that store the shape, in order: one for a scalar or a
    /// vector, without an index; for a matrix its rows, indexed from 0.
    pub fn to_vertex_type(self) -> (r: Vec<(VertexType<T>, Option<usize>)>)
        ensures
            r@ == self.rows(),
    {
        let mut out: Vec<(VertexType<T>, Option<usize>)> = Vec::new();
        match self {
            WgslType::Scalar(scalar) => {
                out.push((VertexType::Scalar(scalar), None));
            },
            WgslType::Vec { dim, scalar } => {
                out.push((VertexType::Vec { dim, scalar }, None));
            },
            WgslType::Mat { dim_x, dim_y, scalar } => {
                let count: usize = dim_y.to_usize();
                let mut i: usize = 0;
                while i < count
                    invariant
                        i <= count,
                        count == dim_y.count(),
                        self == (WgslType::Mat { dim_x, dim_y, scalar }),
                        out@ == self.rows().subrange(0, i as int),
                    decreases count - i,
                {
                    out.push((VertexType::Vec { dim: dim_x, scalar }, Some(i)));
                    i = i + 1;
                    assert(out@ =~= self.rows().subrange(0, i as int));
                }
            },
        }
        assert(out@ =~= self.rows());
        out
    }
}

impl<T: Scalar> WgslType<T> {
    /// Size in bytes: the scalar's size times the number of scalars.
    pub open spec fn size(self) -> nat {
        match self {
            WgslType::Scalar(scalar) => scalar.rust_spec().size(),
            WgslType::Vec { dim, scalar } => dim.scaled(scalar.rust_spec().size()),
            WgslType::Mat { dim_x, dim_y, scalar } => dim_y.scaled(
                dim_x.scaled(scalar.rust_spec().size()),
            ),
        }
    }

    /// The type as shader source writes it.
    pub open spec fn wgsl_text(self) -> Seq<char> {
        match self {
            WgslType::Scalar(scalar) => scalar.rust_spec().wgsl().name(),
            WgslType::Vec { dim, scalar } => vec_text(dim, scalar.rust_spec().wgsl().name()),
            WgslType::Mat { dim_x, dim_y, scalar } => mat_text(
                dim_x,
                dim_y,
                scalar.rust_spec().wgsl().name(),
            ),
        }
    }

    /// The type that stores the whole shape as one entry of a raw record.
    pub open spec fn raw_type(self) -> RawRustType {
        match self {
            WgslType::Scalar(scalar) => RawRustType::Scalar(scalar.rust_spec()),
            WgslType::Vec { dim, scalar } => RawRustType::Array {
                scalar: scalar.rust_spec(),
                len: dim,
            },
            WgslType::Mat { dim_x, dim_y, scalar } => RawRustType::Matrix {
                scalar: scalar.rust_spec(),
                dim_x,
                dim_y,
            },
        }
    }

    /// Size in bytes.
    pub fn byte_count(&self) -> (n: usize)
        ensures
            n == self.size(),
            1 <= n <= 64,
    {
        match self {
            WgslType::Scalar(scalar) => scalar.rust().byte_count(),
            WgslType::Vec { dim, scalar } => dim.times(scalar.rust().byte_count()),
            WgslType::Mat { dim_x, dim_y, scalar } => {
                let row: usize = dim_x.times(scalar.rust().byte_count());
                dim_y.times(row)
            },
        }
    }

    /// The type that stores the whole shape as one entry of a raw record: a
    /// scalar, an array, or an array of rows.
    pub fn raw_rust_type(&self) -> (r: RawRustType)
        ensures
            r == self.raw_type(),
    {
        match self {
            WgslType::Scalar(scalar) => RawRustType::Scalar(scalar.rust()),
            WgslType::Vec { dim, scalar } => RawRustType::Array {
                scalar: scalar.rust(),
                len: *dim,
            },
            WgslType::Mat { dim_x, dim_y, scalar } => RawRustType::Matrix {
                scalar: scalar.rust(),
                dim_x: *dim_x,
                dim_y: *dim_y,
            },
        }
    }

    /// The type as shader source writes it: the bare scalar, `vecN<scalar>`
    /// or `matXxY<scalar>`, with integers widened to 32 bits.
    pub fn wgsl_type_str(&self) -> (s: String)
        ensures
            s@ == self.wgsl_text(),
    {
        match self {
            WgslType::Scalar(scalar) => {
                String::from_str(WgslScalar::from(scalar.rust()).wgsl_type_str())
            },
            WgslType::Vec { dim, scalar } => {
                let mut s = String::from_str("vec");
                push_decimal(&mut s, dim.to_usize());
                s.append("<");
                s.append(WgslScalar::from(scalar.rust()).wgsl_type_str());
                s.append(">");
                s
            },
            WgslType::Mat { dim_x, dim_y, scalar } => {
                let mut s = String::from_str("mat");
                push_decimal(&mut s, dim_x.to_usize());
                s.append("x");
                push_decimal(&mut s, dim_y.to_usize());
                s.append("<");
                s.append(WgslScalar::from(scalar.rust()).wgsl_type_str());
                s.append(">");
                s
            },
        }
    }
}

/// The size of a shape is its scalar's size times the number of its
/// scalars. Its rows together hold exactly its bytes, and each row of a
/// matrix of two or four columns is as large as its alignment, so that no
/// padding comes between such rows.
pub proof fn lemma_rows_cover_shape<T: Scalar>(ty: WgslType<T>)
    ensures
        ty.size() == ty.scalar().rust_spec().size() * ty.element_count(),
        ty.rows().len() == ty.row_count(),
        ty.row_type().size() * ty.row_count() == ty.size(),
        ty matches WgslType::Mat { dim_x, .. } && dim_x != Dim::D3 ==> ty.row_type().size()
            == ty.row_type().align(),
{
    let s = ty.scalar().rust_spec().size();
    match ty {
        WgslType::Mat { dim_x, dim_y, scalar } => {
            let row = dim_x.scaled(s);
            lemma_scaled(dim_x, s);
            lemma_scaled(dim_y, row);
            assert(s * dim_x.count() * dim_y.count() == s * (dim_x.count() * dim_y.count()))
                by (nonlinear_arith);
        },
        WgslType::Vec { dim, .. } => {
            lemma_scaled(dim, s);
            assert(dim.scaled(s) * 1 == dim.scaled(s));
        },
        WgslType::Scalar(_) => {
            assert(s * 1 == s);
        },
    }
}

/// A unit has its scalar's size times its width in bytes, between 1 and 16,
/// and its alignment is one of 1, 2, 4, 8 and 16, at least its size rounded
/// to a power of two.
pub proof fn lemma_unit_bounds<T: Scalar>(ty: VertexType<T>)
    ensures
        ty.size() == ty.scalar().rust_spec().size() * ty.width(),
        1 <= ty.size() <= 16,
        ty.align() == 1 || ty.align() == 2 || ty.align() == 4 || ty.align() == 8 || ty.align()
            == 16,
        ty.size() <= ty.align(),
        ty.scalar().rust_spec().size() <= ty.align(),
{
    let s = ty.scalar().rust_spec().size();
    assert(s == 1 || s == 2 || s == 4);
    match ty {
        VertexType::Scalar(_) => {
            assert(s * 1 == s);
        },
        VertexType::Vec { dim, .. } => {
            lemma_scaled(dim, s);
        },
    }
}

} // verus!
