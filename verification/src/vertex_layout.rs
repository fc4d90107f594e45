//! Sequential packing, as vertex and instance streams need it: every unit
//! starts where the one before it ends, and takes the next input slot.

use vstd::prelude::*;
use crate::errors::diagnostics_view;
use crate::errors::Diagnostic;
use crate::errors::DiagnosticView;
use crate::errors::Error;
use crate::errors::ErrorKind;
use crate::field::units_view;
use crate::field::RepeatedRawField;
use crate::field::UnitSpec;
use crate::scalar::RustScalar;
use crate::scalar::Scalar;
use crate::wgsl_type::lemma_unit_bounds;

verus! {

/// How vertex fetch reads one unit: its format, where it starts in the
/// record, and the input slot that the shader reads it from.
#[derive(Debug, Clone, PartialEq, Eq)]
pub struct VertexAttribute {
    pub format: String,
    pub offset: u64,
    pub shader_location: u32,
}

/// A vertex attribute as a mathematical value.
pub struct AttributeSpec {
    pub format: Seq<char>,
    pub offset: nat,
    pub shader_location: nat,
}

impl View for VertexAttribute {
    type V = AttributeSpec;

    open spec fn view(&self) -> AttributeSpec {
        AttributeSpec {
            format: self.format@,
            offset: self.offset as nat,
            shader_location: self.shader_location as nat,
        }
    }
}

/// A list of attributes as a mathematical value.
pub open spec fn attributes_view(attributes: Seq<VertexAttribute>) -> Seq<AttributeSpec> {
    attributes.map_values(|a: VertexAttribute| a@)
}

/// The size of a list of units: the sum of their sizes.
pub open spec fn units_size<S: Scalar>(units: Seq<UnitSpec<S>>) -> nat
    decreases units.len(),
{
    if units.len() == 0 {
        0
    } else {
        units_size(units.drop_last()) + units.last().ty.size()
    }
}

/// The offset of unit `i` in a sequentially packed record: the size of all
/// units before it.
pub open spec fn unit_offset<S: Scalar>(units: Seq<UnitSpec<S>>, i: int) -> nat {
    units_size(units.subrange(0, i))
}

/// The slot that is added to every unit's index; none is zero.
pub open spec fn slot_base(initial_offset: Option<u32>) -> nat {
    match initial_offset {
        Some(base) => base as nat,
        None => 0,
    }
}

/// The attribute of unit `i`.
pub open spec fn attribute_of(
    units: Seq<UnitSpec<RustScalar>>,
    initial_offset: Option<u32>,
    i: int,
) -> AttributeSpec {
    AttributeSpec {
        format: units[i].ty.format_text(),
        offset: unit_offset(units, i),
        shader_location: (i + slot_base(initial_offset)) as nat,
    }
}

/// The attributes of a list of units.
pub open spec fn attributes_of(
    units: Seq<UnitSpec<RustScalar>>,
    initial_offset: Option<u32>,
) -> Seq<AttributeSpec> {
    Seq::new(units.len(), |i: int| attribute_of(units, initial_offset, i))
}

/// The text that a unit without a vertex format is reported with.
pub open spec fn format_message() -> Seq<char> {
    "vec3 is not allowed for 8 and 16 bit values"@
}

/// The finding about a unit that has no vertex format.
pub open spec fn format_finding(unit: UnitSpec<RustScalar>) -> DiagnosticView {
    DiagnosticView {
        kind: ErrorKind::Format,
        position: Some(unit.source),
        field: Some(unit.name),
        message: format_message(),
    }
}

/// The findings about a list of units: one for each unit that has no vertex
/// format, in order.
pub open spec fn format_findings(units: Seq<UnitSpec<RustScalar>>) -> Seq<DiagnosticView>
    decreases units.len(),
{
    if units.len() == 0 {
        Seq::empty()
    } else if units.last().ty.format_disallowed() {
        format_findings(units.drop_last()).push(format_finding(units.last()))
    } else {
        format_findings(units.drop_last())
    }
}

/// Whether every unit has a vertex format.
pub open spec fn formats_allowed(units: Seq<UnitSpec<RustScalar>>) -> bool {
    forall|i: int| 0 <= i < units.len() ==> !(#[trigger] units[i]).ty.format_disallowed()
}

/// What a call for the attributes of `units` returns: the attributes, or
/// the findings where a unit has no vertex format.
pub open spec fn attributes_result(
    units: Seq<UnitSpec<RustScalar>>,
    initial_offset: Option<u32>,
    result: Result<Vec<VertexAttribute>, Error>,
) -> bool {
    match result {
        Ok(attributes) => formats_allowed(units) && attributes_view(attributes@) == attributes_of(
            units,
            initial_offset,
        ),
        Err(error) => !formats_allowed(units) && error@ == format_findings(units),
    }
}

/// There are no findings exactly if every unit has a vertex format.
pub proof fn lemma_format_findings(units: Seq<UnitSpec<RustScalar>>)
    ensures
        format_findings(units).len() == 0 <==> formats_allowed(units),
    decreases units.len(),
{
    if units.len() > 0 {
        lemma_format_findings(units.drop_last());
        let head = units.drop_last();
        if formats_allowed(units) {
            assert forall|i: int| 0 <= i < head.len() implies !(#[trigger] head[i]).ty.format_disallowed() by {
                assert(head[i] == units[i]);
            }
            assert(units.last() == units[units.len() - 1]);
        } else if !units.last().ty.format_disallowed() && formats_allowed(head) {
            assert forall|i: int| 0 <= i < units.len() implies !(#[trigger] units[i]).ty.format_disallowed() by {
                if i < head.len() {
                    assert(head[i] == units[i]);
                }
            }
        }
    }
}

/// The size of `k` units is at most 16 times `k`.
pub proof fn lemma_units_size_bound<S: Scalar>(units: Seq<UnitSpec<S>>)
    ensures
        units_size(units) <= 16 * units.len(),
    decreases units.len(),
{
    if units.len() > 0 {
        lemma_units_size_bound(units.drop_last());
        lemma_unit_bounds(units.last().ty);
    }
}

/// The size of a sequentially packed record: the sum of the sizes of its
/// units, with nothing between them. This is the stride from one record to
/// the next.
pub fn vertex_stride<S: Scalar>(units: &Vec<RepeatedRawField<S>>) -> (stride: u64)
    requires
        units.len() <= u32::MAX,
    ensures
        stride == units_size(units_view(units@)),
{
    let mut stride: u64 = 0;
    let mut i: usize = 0;
    let ghost all = units_view(units@);
    assert(all.subrange(0, 0) =~= Seq::empty());
    while i < units.len()
        invariant
            i <= units.len(),
            units.len() <= u32::MAX,
            all == units_view(units@),
            stride == units_size(all.subrange(0, i as int)),
            stride <= 16 * i,
        decreases units.len() - i,
    {
        let size = units[i].byte_count();
        proof {
            let prefix = all.subrange(0, i + 1);
            assert(prefix.drop_last() =~= all.subrange(0, i as int));
            assert(prefix.last() == units@[i as int]@);
        }
        stride = stride + size as u64;
        i = i + 1;
    }
    assert(all.subrange(0, i as int) =~= all);
    stride
}

/// The number of input slots that a list of units takes: one each.
pub fn shader_location_count<S>(units: &Vec<RepeatedRawField<S>>) -> (count: u32)
    requires
        units.len() <= u32::MAX,
    ensures
        count == units.len(),
{
    units.len() as u32
}

/// The vertex attributes of a list of units.
///
/// Unit `i` starts at the sum of the sizes of the units before it and reads
/// from slot `i`, or `i + initial_offset` where an offset is given. Where a
/// unit has no vertex format, no attributes are returned: the error holds a
/// finding for every such unit. The result depends on nothing but the
/// arguments.
pub fn vertex_attributes_quote(
    units: &Vec<RepeatedRawField<RustScalar>>,
    initial_offset: Option<u32>,
) -> (r: Result<Vec<VertexAttribute>, Error>)
    requires
        units.len() + slot_base(initial_offset) <= u32::MAX,
    ensures
        attributes_result(units_view(units@), initial_offset, r),
{
    let base: u32 = match initial_offset {
        Some(base) => base,
        None => 0,
    };
    let mut attributes: Vec<VertexAttribute> = Vec::new();
    let mut findings: Vec<Diagnostic> = Vec::new();
    let mut offset: u64 = 0;
    let mut i: usize = 0;
    let ghost all = units_view(units@);
    let ghost expected = attributes_of(all, initial_offset);
    assert(all.subrange(0, 0) =~= Seq::empty());
    assert(diagnostics_view(findings@) =~= format_findings(all.subrange(0, 0)));
    while i < units.len()
        invariant
            i <= units.len(),
            units.len() + base <= u32::MAX,
            base == slot_base(initial_offset),
            all == units_view(units@),
            expected == attributes_of(all, initial_offset),
            offset == units_size(all.subrange(0, i as int)),
            offset <= 16 * i,
            diagnostics_view(findings@) == format_findings(all.subrange(0, i as int)),
            findings@.len() == 0 ==> attributes_view(attributes@) == expected.subrange(0, i as int),
        decreases units.len() - i,
    {
        let unit = &units[i];
        let size = unit.byte_count();
        proof {
            let prefix = all.subrange(0, i + 1);
            assert(prefix.drop_last() =~= all.subrange(0, i as int));
            assert(prefix.last() == unit@);
        }
        match unit.ty.vertex_format() {
            Some(format) => {
                if findings.len() == 0 {
                    let attribute = VertexAttribute {
                        format,
                        offset,
                        shader_location: i as u32 + base,
                    };
                    assert(attribute@ == expected[i as int]);
                    let ghost prev = attributes@;
                    attributes.push(attribute);
                    assert(attributes_view(attributes@) =~= attributes_view(prev).push(
                        attribute@,
                    ));
                    assert(expected.subrange(0, i + 1) =~= expected.subrange(0, i as int).push(
                        expected[i as int],
                    ));
                }
            },
            None => {
                let finding = Diagnostic::at_field(
                    ErrorKind::Format,
                    unit.source,
                    unit.source_ident.clone(),
                    String::from_str("vec3 is not allowed for 8 and 16 bit values"),
                );
                assert(finding@ == format_finding(unit@));
                let ghost prev = findings@;
                findings.push(finding);
                assert(diagnostics_view(findings@) =~= diagnostics_view(prev).push(finding@));
            },
        }
        offset = offset + size as u64;
        i = i + 1;
    }
    assert(all.subrange(0, i as int) =~= all);
    assert(expected.subrange(0, i as int) =~= expected);
    proof {
        lemma_format_findings(all);
    }
    if findings.len() == 0 {
        Ok(attributes)
    } else {
        Err(Error { diagnostics: findings })
    }
}

} // verus!
