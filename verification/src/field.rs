//! Field schemas and their expansion into stored units.

use vstd::prelude::*;
use crate::raw_value::RawValueCount;
use crate::scalar::Scalar;
use crate::text::decimal;
use crate::text::push_decimal;
use crate::wgsl_type::RawRustType;
use crate::wgsl_type::VertexType;
use crate::wgsl_type::WgslType;

verus! {

/// A field of a schema: its name, its shape, and how often the shape is
/// repeated (an array of that many shapes), if it is.
#[derive(Debug)]
pub struct RawField<S> {
    pub ident: String,
    pub raw_ty: WgslType<S>,
    pub multiplier: Option<RawValueCount>,
}

/// A field of a schema as a mathematical value.
pub struct FieldSpec<S> {
    pub name: Seq<char>,
    pub ty: WgslType<S>,
    pub multiplier: Option<RawValueCount>,
}

/// One stored unit of a field: a scalar, a vector, a row of a matrix or one
/// repeat of a repeated shape.
#[derive(Debug)]
pub struct RepeatedRawField<S> {
    /// The position of the field in the schema.
    pub source: usize,
    pub source_ident: String,
    pub source_ty: WgslType<S>,
    /// The shape of the unit.
    pub ty: VertexType<S>,
    /// The index of the unit within its field, unless the field is a single
    /// unit by its declaration.
    pub repeat: Option<usize>,
}

/// A stored unit as a mathematical value.
pub struct UnitSpec<S> {
    pub source: usize,
    pub name: Seq<char>,
    pub source_ty: WgslType<S>,
    pub ty: VertexType<S>,
    pub repeat: Option<usize>,
}

impl<S> View for RawField<S> {
    type V = FieldSpec<S>;

    open spec fn view(&self) -> FieldSpec<S> {
        FieldSpec { name: self.ident@, ty: self.raw_ty, multiplier: self.multiplier }
    }
}

impl<S> View for RepeatedRawField<S> {
    type V = UnitSpec<S>;

    open spec fn view(&self) -> UnitSpec<S> {
        UnitSpec {
            source: self.source,
            name: self.source_ident@,
            source_ty: self.source_ty,
            ty: self.ty,
            repeat: self.repeat,
        }
    }
}

/// A schema as a mathematical value.
pub open spec fn fields_view<S>(fields: Seq<RawField<S>>) -> Seq<FieldSpec<S>> {
    fields.map_values(|f: RawField<S>| f@)
}

/// A list of units as a mathematical value.
pub open spec fn units_view<S>(units: Seq<RepeatedRawField<S>>) -> Seq<UnitSpec<S>> {
    units.map_values(|u: RepeatedRawField<S>| u@)
}

impl<S> FieldSpec<S> {
    /// How often the shape is stored.
    pub open spec fn repeat_count(self) -> nat {
        match self.multiplier {
            Some(count) => count.count(),
            None => 1,
        }
    }

    /// The number of units that store the field: its rows, once for each
    /// repeat.
    pub open spec fn unit_count(self) -> nat {
        match self.multiplier {
            Some(count) => count.scaled(self.ty.row_count()),
            None => self.ty.row_count(),
        }
    }

    /// Whether the units of the field carry an index: those of a matrix and
    /// those of a repeated shape do.
    pub open spec fn indexed(self) -> bool {
        self.ty is Mat || self.multiplier is Some
    }

    /// The unit of index `k`.
    pub open spec fn unit(self, source: usize, k: int) -> UnitSpec<S> {
        UnitSpec {
            source,
            name: self.name,
            source_ty: self.ty,
            ty: self.ty.row_type(),
            repeat: if self.indexed() {
                Some(k as usize)
            } else {
                None
            },
        }
    }

    /// The units of the field in storage order: the rows of the first
    /// repeat, then those of the second, and so on.
    pub open spec fn units(self, source: usize) -> Seq<UnitSpec<S>> {
        Seq::new(self.unit_count(), |k: int| self.unit(source, k))
    }
}

impl<S: Scalar> FieldSpec<S> {
    /// Size in bytes: the scalar's size times the number of scalars in the
    /// shape times the number of repeats.
    pub open spec fn size(self) -> nat {
        match self.multiplier {
            Some(count) => count.scaled(self.ty.size()),
            None => self.ty.size(),
        }
    }
}

/// The units of a whole schema: those of its fields, in schema order.
pub open spec fn expand<S>(fields: Seq<FieldSpec<S>>) -> Seq<UnitSpec<S>>
    decreases fields.len(),
{
    if fields.len() == 0 {
        Seq::empty()
    } else {
        expand(fields.drop_last()) + fields.last().units((fields.len() - 1) as usize)
    }
}

impl<S> UnitSpec<S> {
    /// The name of the unit in the generated artifacts: the field's name,
    /// followed by the unit's index if it has one.
    pub open spec fn ident(self) -> Seq<char> {
        match self.repeat {
            Some(k) => self.name + decimal(k as nat),
            None => self.name,
        }
    }
}

impl<S> RawField<S> {
    /// A field of one shape, not repeated.
    pub fn single(ident: String, raw_ty: WgslType<S>) -> (f: RawField<S>)
        ensures
            f@ == (FieldSpec { name: ident@, ty: raw_ty, multiplier: None }),
    {
        RawField { ident, raw_ty, multiplier: None }
    }

    /// A field that stores its shape `multiplier` times.
    pub fn repeated(ident: String, raw_ty: WgslType<S>, multiplier: RawValueCount) -> (f: RawField<
        S,
    >)
        ensures
            f@ == (FieldSpec { name: ident@, ty: raw_ty, multiplier: Some(multiplier) }),
    {
        RawField { ident, raw_ty, multiplier: Some(multiplier) }
    }

    /// The name of the field.
    pub fn ident(&self) -> (s: String)
        ensures
            s@ == self@.name,
    {
        self.ident.clone()
    }

    /// The number of units that store the field: between 1 and 16.
    pub fn unit_count(&self) -> (n: usize)
        ensures
            n == self@.unit_count(),
            1 <= n <= 16,
    {
        let rows: usize = match &self.raw_ty {
            WgslType::Mat { dim_y, .. } => dim_y.to_usize(),
            _ => 1,
        };
        match self.multiplier {
            Some(count) => count.times(rows),
            None => rows,
        }
    }
}

impl<S: Scalar> RawField<S> {
    /// Size in bytes.
    pub fn byte_count(&self) -> (n: usize)
        ensures
            n == self@.size(),
            1 <= n <= 256,
    {
        let one: usize = self.raw_ty.byte_count();
        match self.multiplier {
            Some(count) => count.times(one),
            None => one,
        }
    }
}

impl<S: Copy> RepeatedRawField<S> {
    /// Expands a schema into its stored units, in schema order. A scalar or
    /// vector field that is not repeated gives one unit without an index;
    /// any other field gives a unit for each row of each repeat, indexed
    /// from 0.
    pub fn iter(fields: &Vec<RawField<S>>) -> (units: Vec<RepeatedRawField<S>>)
        ensures
            units_view(units@) == expand(fields_view(fields@)),
    {
        let mut out: Vec<RepeatedRawField<S>> = Vec::new();
        let mut i: usize = 0;
        assert(fields_view(fields@).subrange(0, 0) =~= Seq::empty());
        assert(units_view(out@) =~= expand(fields_view(fields@).subrange(0, 0)));
        while i < fields.len()
            invariant
                i <= fields.len(),
                units_view(out@) == expand(fields_view(fields@).subrange(0, i as int)),
            decreases fields.len() - i,
        {
            let field = &fields[i];
            let count: usize = field.unit_count();
            let indexed: bool = match &field.raw_ty {
                WgslType::Mat { .. } => true,
                _ => field.multiplier.is_some(),
            };
            let ty: VertexType<S> = match field.raw_ty {
                WgslType::Scalar(scalar) => VertexType::Scalar(scalar),
                WgslType::Vec { dim, scalar } => VertexType::Vec { dim, scalar },
                WgslType::Mat { dim_x, scalar, .. } => VertexType::Vec { dim: dim_x, scalar },
            };
            let ghost before = units_view(out@);
            let ghost spec_field = field@;
            assert(fields_view(fields@)[i as int] == spec_field);
            let mut k: usize = 0;
            while k < count
                invariant
                    k <= count,
                    count == spec_field.unit_count(),
                    indexed == spec_field.indexed(),
                    ty == spec_field.ty.row_type(),
                    spec_field == field@,
                    units_view(out@) == before + spec_field.units(i).subrange(0, k as int),
                decreases count - k,
            {
                let unit = RepeatedRawField {
                    source: i,
                    source_ident: field.ident.clone(),
                    source_ty: field.raw_ty,
                    ty,
                    repeat: if indexed {
                        Some(k)
                    } else {
                        None
                    },
                };
                assert(unit@ == spec_field.unit(i, k as int));
                let ghost prev = out@;
                out.push(unit);
                assert(units_view(out@) =~= units_view(prev).push(unit@));
                assert(spec_field.units(i).subrange(0, k + 1) =~= spec_field.units(i).subrange(
                    0,
                    k as int,
                ).push(spec_field.unit(i, k as int)));
                k = k + 1;
                assert(units_view(out@) =~= before + spec_field.units(i).subrange(0, k as int));
            }
            assert(spec_field.units(i).subrange(0, count as int) =~= spec_field.units(i));
            proof {
                let prefix = fields_view(fields@).subrange(0, i + 1);
                assert(prefix.drop_last() =~= fields_view(fields@).subrange(0, i as int));
                assert(prefix.last() == spec_field);
            }
            i = i + 1;
        }
        assert(fields_view(fields@).subrange(0, i as int) =~= fields_view(fields@));
        out
    }

    /// The name of the unit in the generated artifacts: the field's name,
    /// followed by the unit's index if it has one.
    pub fn ident(&self) -> (s: String)
        ensures
            s@ == self@.ident(),
    {
        let mut s = self.source_ident.clone();
        match self.repeat {
            Some(k) => {
                push_decimal(&mut s, k);
            },
            None => {},
        }
        s
    }
}

impl<S: Copy> RepeatedRawField<S> {
    /// A copy of the unit.
    pub fn clone_unit(&self) -> (r: RepeatedRawField<S>)
        ensures
            r@ == self@,
    {
        RepeatedRawField {
            source: self.source,
            source_ident: self.source_ident.clone(),
            source_ty: self.source_ty,
            ty: self.ty,
            repeat: self.repeat,
        }
    }
}

impl<S: Scalar> RepeatedRawField<S> {
    /// Size in bytes.
    pub fn byte_count(&self) -> (n: usize)
        ensures
            n == self@.ty.size(),
            1 <= n <= 16,
    {
        self.ty.byte_count()
    }

    /// Alignment in bytes.
    pub fn byte_align(&self) -> (n: usize)
        ensures
            n == self@.ty.align(),
            n == 1 || n == 2 || n == 4 || n == 8 || n == 16,
    {
        self.ty.byte_align()
    }

    /// The type that stores the unit in a raw record.
    pub fn raw_rust_type(&self) -> (r: RawRustType)
        ensures
            r == self@.ty.raw_type(),
    {
        self.ty.raw_rust_type()
    }
}

/// Expanding a schema goes field by field: the units of a schema with one
/// more field are those of the schema, then those of the field.
pub proof fn lemma_expand_push<S>(fields: Seq<FieldSpec<S>>, field: FieldSpec<S>)
    ensures
        expand(fields.push(field)) == expand(fields) + field.units(fields.len() as usize),
{
    assert(fields.push(field).drop_last() =~= fields);
}

/// The number of units of a schema is the sum over its fields, and every
/// unit belongs to a field of the schema and has the shape of that field's
/// rows.
pub proof fn lemma_expand_units<S>(fields: Seq<FieldSpec<S>>, j: int)
    requires
        fields.len() <= usize::MAX,
        0 <= j < expand(fields).len(),
    ensures
        expand(fields)[j].source < fields.len(),
        expand(fields)[j].name == fields[expand(fields)[j].source as int].name,
        expand(fields)[j].source_ty == fields[expand(fields)[j].source as int].ty,
        expand(fields)[j].ty == fields[expand(fields)[j].source as int].ty.row_type(),
    decreases fields.len(),
{
    if fields.len() > 0 {
        let head = expand(fields.drop_last());
        if j < head.len() {
            lemma_expand_units(fields.drop_last(), j);
        }
    }
}

} // verus!
