//! What holds of every packed record.

use vstd::prelude::*;
use crate::dim::Dim;
use crate::errors::Error;
use crate::field::expand;
use crate::field::FieldSpec;
use crate::field::UnitSpec;
use crate::raw_struct::lemma_sequential_size;
use crate::raw_struct::raw_entry;
use crate::raw_struct::sequential_slots;
use crate::raw_value::lemma_count_scaled;
use crate::scalar::Scalar;
use crate::uniform_layout::field_slots;
use crate::uniform_layout::lemma_padding_aligns;
use crate::uniform_layout::padding_count;
use crate::uniform_layout::padding_for;
use crate::uniform_layout::slot_offset;
use crate::uniform_layout::total_size;
use crate::uniform_layout::LayoutSpec;
use crate::uniform_layout::SlotSpec;
use crate::uniform_layout::UniformLayout;
use crate::vertex_layout::attribute_of;
use crate::vertex_layout::attributes_of;
use crate::vertex_layout::attributes_result;
use crate::vertex_layout::attributes_view;
use crate::vertex_layout::VertexAttribute;
use crate::vertex_layout::unit_offset;
use crate::vertex_layout::units_size;
use crate::wgsl_type::lemma_rows_cover_shape;
use crate::wgsl_type::lemma_unit_bounds;
use crate::wgsl_type::VertexType;

verus! {

/// What is asked of entry `i` of an aligned record: a unit starts at a
/// multiple of its alignment; a padding entry has between 1 and 15 bytes,
/// and its index is the number of padding entries before it.
pub open spec fn slot_placed<S: Scalar>(slots: Seq<SlotSpec<S>>, i: int) -> bool {
    match slots[i] {
        SlotSpec::Field(unit) => slot_offset(slots, i) % unit.ty.align() == 0,
        SlotSpec::Padding { index, byte_count } => 1 <= byte_count < 16 && index == padding_count(
            slots.subrange(0, i),
        ),
    }
}

/// An aligned record: consistent, and every entry placed as asked.
pub open spec fn well_packed<S: Scalar>(layout: LayoutSpec<S>) -> bool {
    &&& layout.consistent()
    &&& forall|i: int| 0 <= i < layout.slots.len() ==> #[trigger] slot_placed(layout.slots, i)
}

/// What one more entry changes: the size grows by its size, the entries
/// before it keep their offsets, and it is counted as what it is.
pub proof fn lemma_push_slot<S: Scalar>(slots: Seq<SlotSpec<S>>, slot: SlotSpec<S>)
    ensures
        total_size(slots.push(slot)) == total_size(slots) + slot.size(),
        slot_offset(slots.push(slot), slots.len() as int) == total_size(slots),
        padding_count(slots.push(slot)) == padding_count(slots) + if slot is Padding {
            1nat
        } else {
            0nat
        },
        field_slots(slots.push(slot)) == match slot {
            SlotSpec::Field(unit) => field_slots(slots).push(unit),
            SlotSpec::Padding { .. } => field_slots(slots),
        },
        forall|i: int|
            0 <= i < slots.len() ==> (#[trigger] slot_placed(slots.push(slot), i) == slot_placed(
                slots,
                i,
            )),
{
    let longer = slots.push(slot);
    assert(longer.drop_last() =~= slots);
    assert(longer.subrange(0, slots.len() as int) =~= slots);
    assert forall|i: int| 0 <= i < slots.len() implies (#[trigger] slot_placed(longer, i)
        == slot_placed(slots, i)) by {
        assert(longer.subrange(0, i) =~= slots.subrange(0, i));
        assert(longer[i] == slots[i]);
    }
}

/// Rounding the offset of an aligned record up keeps it aligned, and adds no
/// unit.
pub proof fn lemma_align_to_preserves<S: Scalar>(layout: LayoutSpec<S>, align: nat)
    requires
        well_packed(layout),
        0 < align <= 16,
    ensures
        well_packed(layout.align_to(align)),
        layout.align_to(align).offset % align == 0,
        layout.align_to(align).offset < layout.offset + align,
        layout.align_to(align).offset >= layout.offset,
        field_slots(layout.align_to(align).slots) == field_slots(layout.slots),
{
    lemma_padding_aligns(layout.offset, align);
    let required = padding_for(layout.offset, align);
    if required != 0 {
        let slot = SlotSpec::<S>::Padding { index: layout.padding_index, byte_count: required };
        lemma_push_slot(layout.slots, slot);
        let after = layout.align_to(align);
        assert(after.slots.subrange(0, layout.slots.len() as int) =~= layout.slots);
        assert(slot_placed(after.slots, layout.slots.len() as int));
    }
}

/// Placing a unit in an aligned record keeps it aligned, and the unit is
/// its last.
pub proof fn lemma_push_preserves<S: Scalar>(layout: LayoutSpec<S>, unit: UnitSpec<S>)
    requires
        well_packed(layout),
    ensures
        well_packed(layout.push(unit)),
        field_slots(layout.push(unit).slots) == field_slots(layout.slots).push(unit),
        layout.push(unit).slots.last() == SlotSpec::Field(unit),
        (layout.push(unit).offset - unit.ty.size()) % (unit.ty.align() as int) == 0,
        layout.push(unit).offset - unit.ty.size() >= layout.offset,
{
    lemma_unit_bounds(unit.ty);
    lemma_align_to_preserves(layout, unit.ty.align());
    let aligned = layout.align_to(unit.ty.align());
    lemma_push_slot(aligned.slots, SlotSpec::Field(unit));
    let after = layout.push(unit);
    assert(slot_placed(after.slots, aligned.slots.len() as int));
}

/// Packing any units gives an aligned record that holds exactly those
/// units, in their order.
pub proof fn lemma_pack<S: Scalar>(units: Seq<UnitSpec<S>>)
    ensures
        well_packed(LayoutSpec::pack(units)),
        field_slots(LayoutSpec::pack(units).slots) == units,
    decreases units.len(),
{
    if units.len() == 0 {
        assert(field_slots(LayoutSpec::<S>::empty().slots) =~= units);
    } else {
        lemma_pack(units.drop_last());
        lemma_push_preserves(LayoutSpec::pack(units.drop_last()), units.last());
        assert(units.drop_last().push(units.last()) =~= units);
    }
}

/// In the record of a uniform block every unit starts at a multiple of its
/// alignment, the size of the record is a multiple of 16 and is the sum of
/// the sizes of its entries, and every padding entry has between 1 and 15
/// bytes and is numbered in order from 0.
pub proof fn lemma_uniform_layout_aligned<S: Scalar>(units: Seq<UnitSpec<S>>)
    ensures
        well_packed(LayoutSpec::of_units(units)),
        LayoutSpec::of_units(units).offset % 16 == 0,
        LayoutSpec::of_units(units).offset == total_size(LayoutSpec::of_units(units).slots),
        forall|i: int|
            0 <= i < LayoutSpec::of_units(units).slots.len() ==> (
            #[trigger] LayoutSpec::of_units(units).slots[i] matches SlotSpec::Field(unit)
                ==> slot_offset(LayoutSpec::of_units(units).slots, i) % unit.ty.align() == 0),
{
    lemma_pack(units);
    lemma_align_to_preserves(LayoutSpec::pack(units), 16);
    let slots = LayoutSpec::of_units(units).slots;
    assert forall|i: int| 0 <= i < slots.len() implies (#[trigger] slots[i] matches SlotSpec::Field(
        unit,
    ) ==> slot_offset(slots, i) % unit.ty.align() == 0) by {
        assert(slot_placed(slots, i));
    }
}

/// The record of a uniform block holds every unit of the schema once, in
/// schema order: padding is added between units, and nothing else changes.
pub proof fn lemma_uniform_layout_keeps_units<S: Scalar>(units: Seq<UnitSpec<S>>)
    ensures
        field_slots(LayoutSpec::of_units(units).slots) == units,
{
    lemma_pack(units);
    lemma_align_to_preserves(LayoutSpec::pack(units), 16);
}

/// Entries follow one another without gap or overlap: each starts where the
/// one before it ends.
pub proof fn lemma_slots_adjacent<S: Scalar>(slots: Seq<SlotSpec<S>>, i: int)
    requires
        0 <= i < slots.len(),
    ensures
        slot_offset(slots, i + 1) == slot_offset(slots, i) + slots[i].size(),
{
    let longer = slots.subrange(0, i + 1);
    assert(longer.drop_last() =~= slots.subrange(0, i));
    assert(longer.last() == slots[i]);
}

/// In a sequentially packed record each unit starts where the one before
/// it ends: its offset is the sum of the sizes before it, the first unit
/// starts at 0, and the record ends with its last unit.
pub proof fn lemma_units_adjacent<S: Scalar>(units: Seq<UnitSpec<S>>, i: int)
    requires
        0 <= i < units.len(),
    ensures
        unit_offset(units, 0) == 0,
        unit_offset(units, i + 1) == unit_offset(units, i) + units[i].ty.size(),
        unit_offset(units, units.len() as int) == units_size(units),
{
    let longer = units.subrange(0, i + 1);
    assert(longer.drop_last() =~= units.subrange(0, i));
    assert(longer.last() == units[i]);
    assert(units.subrange(0, units.len() as int) =~= units);
    assert(units.subrange(0, 0) =~= Seq::<UnitSpec<S>>::empty());
}

/// Packing is a function of the schema: two records packed from lists of
/// units that are equal as values are equal, entry for entry, padding
/// included, and so are their sizes and their padding counts.
pub proof fn lemma_packing_deterministic<S: Scalar>(
    first_units: Seq<UnitSpec<S>>,
    second_units: Seq<UnitSpec<S>>,
    first: UniformLayout<S>,
    second: UniformLayout<S>,
)
    requires
        first_units == second_units,
        first@ == LayoutSpec::of_units(first_units),
        second@ == LayoutSpec::of_units(second_units),
    ensures
        first@ == second@,
        first.offset == second.offset,
        first.padding_index == second.padding_index,
        first@.slots.len() == second@.slots.len(),
        forall|i: int|
            0 <= i < first@.slots.len() ==> first@.slots[i] == second@.slots[i] && slot_offset(
                first@.slots,
                i,
            ) == slot_offset(second@.slots, i),
{
}

/// Sequential packing is a function of the schema too: two lists of
/// attributes made from the same units and the same first slot are equal,
/// attribute for attribute.
pub proof fn lemma_sequential_packing_deterministic(
    units: Seq<UnitSpec<crate::scalar::RustScalar>>,
    initial_offset: Option<u32>,
    first: Seq<VertexAttribute>,
    second: Seq<VertexAttribute>,
)
    requires
        attributes_view(first) == attributes_of(units, initial_offset),
        attributes_view(second) == attributes_of(units, initial_offset),
    ensures
        attributes_view(first) == attributes_view(second),
        first.len() == second.len(),
        forall|i: int| 0 <= i < first.len() ==> (#[trigger] first[i])@ == second[i]@,
{
    assert(first.len() == attributes_view(first).len());
    assert(second.len() == attributes_view(second).len());
    assert forall|i: int| 0 <= i < first.len() implies (#[trigger] first[i])@ == second[i]@ by {
        assert(attributes_view(first)[i] == first[i]@);
        assert(attributes_view(second)[i] == second[i]@);
    }
}

/// The attributes depend on nothing but the units and the first slot: two
/// calls on the same arguments both succeed with equal attributes, or both
/// fail with equal findings.
pub proof fn lemma_attributes_deterministic(
    units: Seq<UnitSpec<crate::scalar::RustScalar>>,
    initial_offset: Option<u32>,
    first: Result<Vec<VertexAttribute>, Error>,
    second: Result<Vec<VertexAttribute>, Error>,
)
    requires
        attributes_result(units, initial_offset, first),
        attributes_result(units, initial_offset, second),
    ensures
        first is Ok <==> second is Ok,
        first matches Ok(a) ==> second matches Ok(b) && attributes_view(a@) == attributes_view(b@),
        first matches Err(e) ==> second matches Err(f) && e@ == f@,
{
}

/// Rounding the offset up keeps a record consistent: the offset stays the
/// sum of the sizes of the entries. The new offset is the least multiple of
/// `align` that is no less than the old one, and nothing is added where the
/// old one is such a multiple already.
pub proof fn lemma_align_to_consistent<S: Scalar>(layout: LayoutSpec<S>, align: nat)
    requires
        align > 0,
    ensures
        layout.align_to(align).offset % align == 0,
        layout.align_to(align).offset >= layout.offset,
        layout.align_to(align).offset < layout.offset + align,
        layout.offset % align == 0 ==> layout.align_to(align) == layout,
        layout.consistent() ==> layout.align_to(align).consistent(),
{
    lemma_padding_aligns(layout.offset, align);
    let required = padding_for(layout.offset, align);
    if required != 0 {
        let slot = SlotSpec::<S>::Padding { index: layout.padding_index, byte_count: required };
        lemma_push_slot(layout.slots, slot);
    }
}

/// Placing a unit makes it the last entry of the record, at the least
/// multiple of its alignment that is no less than the old offset; and the
/// record stays consistent: the offset is the sum of the sizes of all
/// entries, and the unit's offset among them is where it was placed.
pub proof fn lemma_push_places_unit<S: Scalar>(layout: LayoutSpec<S>, unit: UnitSpec<S>)
    ensures
        layout.push(unit).slots.len() >= 1,
        layout.push(unit).slots.last() == SlotSpec::Field(unit),
        layout.push(unit).offset >= unit.ty.size(),
        (layout.push(unit).offset - unit.ty.size()) % (unit.ty.align() as int) == 0,
        layout.push(unit).offset - unit.ty.size() >= layout.offset,
        layout.push(unit).offset - unit.ty.size() < layout.offset + unit.ty.align(),
        layout.consistent() ==> layout.push(unit).consistent() && slot_offset(
            layout.push(unit).slots,
            layout.push(unit).slots.len() - 1,
        ) == layout.push(unit).offset - unit.ty.size(),
{
    lemma_unit_bounds(unit.ty);
    lemma_align_to_consistent(layout, unit.ty.align());
    let aligned = layout.align_to(unit.ty.align());
    lemma_push_slot(aligned.slots, SlotSpec::Field(unit));
}

/// The size of a uniform block is the least multiple of 16 that is no less
/// than the offset behind its last unit: the final padding has less than
/// 16 bytes, and there is none where that offset is a multiple of 16. The
/// size is the sum of the sizes of all entries.
pub proof fn lemma_block_rounding<S: Scalar>(units: Seq<UnitSpec<S>>)
    ensures
        LayoutSpec::of_units(units).consistent(),
        LayoutSpec::of_units(units).offset == total_size(LayoutSpec::of_units(units).slots),
        LayoutSpec::of_units(units).offset % 16 == 0,
        LayoutSpec::of_units(units).offset >= LayoutSpec::pack(units).offset,
        LayoutSpec::of_units(units).offset < LayoutSpec::pack(units).offset + 16,
        LayoutSpec::pack(units).offset % 16 == 0 ==> LayoutSpec::of_units(units)
            == LayoutSpec::pack(units),
{
    lemma_pack(units);
    lemma_align_to_consistent(LayoutSpec::pack(units), 16);
}

/// A vector of three is aligned like a vector of four but has the size of
/// three scalars. In an aligned record it starts at a multiple of four
/// scalars, the unit placed after it never overlaps it, and where that
/// unit's alignment exceeds the scalar's size it starts a whole alignment
/// after the vector's start, so that the fourth scalar stays reserved.
pub proof fn lemma_vec3_rule<S: Scalar>(layout: LayoutSpec<S>, vec3: UnitSpec<S>, next: UnitSpec<S>)
    requires
        vec3.ty matches VertexType::Vec { dim, .. } && dim == Dim::D3,
    ensures
        vec3.ty.align() == 4 * vec3.ty.scalar().rust_spec().size(),
        vec3.ty.size() == 3 * vec3.ty.scalar().rust_spec().size(),
        (layout.push(vec3).offset - vec3.ty.size()) % (vec3.ty.align() as int) == 0,
        (layout.push(vec3).push(next).offset - next.ty.size()) % (next.ty.align() as int) == 0,
        layout.push(vec3).push(next).offset - next.ty.size() >= layout.push(vec3).offset,
        next.ty.align() > vec3.ty.scalar().rust_spec().size() ==> layout.push(vec3).push(
            next,
        ).offset - next.ty.size() >= layout.push(vec3).offset - vec3.ty.size()
            + vec3.ty.align(),
{
    let s = vec3.ty.scalar().rust_spec().size();
    let a = vec3.ty.align();
    let b = next.ty.align();
    lemma_unit_bounds(vec3.ty);
    lemma_unit_bounds(next.ty);
    assert(s * 3 == 3 * s && s * 4 == 4 * s) by (nonlinear_arith);
    lemma_padding_aligns(layout.offset, a);
    let start = layout.align_to(a).offset;
    assert(start % a == 0);
    let end = layout.push(vec3).offset;
    assert(end == start + 3 * s);
    lemma_padding_aligns(end, b);
    let next_start = layout.push(vec3).align_to(b).offset;
    assert(next_start % b == 0);
    assert(next_start >= end);
    if b > s {
        // Both starts are multiples of twice the scalar's size, and they
        // are at least three scalars apart: so at least four.
        lemma_multiple_of_smaller(start as int, a as int, 2 * s as int);
        lemma_multiple_of_smaller(next_start as int, b as int, 2 * s as int);
        if s == 1 {
            assert(start % 2 == 0 && next_start % 2 == 0);
        } else if s == 2 {
            assert(start % 4 == 0 && next_start % 4 == 0);
        } else {
            assert(start % 8 == 0 && next_start % 8 == 0);
        }
    }
}

/// A multiple of a power of two up to 16 is a multiple of every smaller
/// power of two.
pub proof fn lemma_multiple_of_smaller(x: int, big: int, small: int)
    requires
        big == 1 || big == 2 || big == 4 || big == 8 || big == 16,
        small == 1 || small == 2 || small == 4 || small == 8 || small == 16,
        small <= big,
        x % big == 0,
    ensures
        x % small == 0,
        (x + big) % big == 0,
{
    if big == 1 {
        assert(x % 1 == 0);
    } else if big == 2 {
        assert(x % 2 == 0);
        assert((x + 2) % 2 == 0);
        if small == 1 {
        } else {
            assert(x % 2 == 0);
        }
    } else if big == 4 {
        assert(x % 4 == 0);
        assert((x + 4) % 4 == 0);
        if small == 1 {
        } else if small == 2 {
            assert(x % 2 == 0);
        } else {
        }
    } else if big == 8 {
        assert(x % 8 == 0);
        assert((x + 8) % 8 == 0);
        if small == 1 {
        } else if small == 2 {
            assert(x % 2 == 0);
        } else if small == 4 {
            assert(x % 4 == 0);
        } else {
        }
    } else {
        assert(x % 16 == 0);
        assert((x + 16) % 16 == 0);
        if small == 1 {
        } else if small == 2 {
            assert(x % 2 == 0);
        } else if small == 4 {
            assert(x % 4 == 0);
        } else if small == 8 {
            assert(x % 8 == 0);
        } else {
        }
    }
}

/// A unit whose size is its alignment, placed directly after a unit of the
/// same shape, follows it without padding. So the rows of a matrix of two
/// or four columns are contiguous.
pub proof fn lemma_full_rows_contiguous<S: Scalar>(
    layout: LayoutSpec<S>,
    row: UnitSpec<S>,
    next: UnitSpec<S>,
)
    requires
        row.ty == next.ty,
        row.ty.size() == row.ty.align(),
    ensures
        layout.push(row).push(next).slots == layout.push(row).slots.push(SlotSpec::Field(next)),
        layout.push(row).push(next).offset - next.ty.size() == layout.push(row).offset,
{
    lemma_unit_bounds(row.ty);
    let a = row.ty.align();
    lemma_padding_aligns(layout.offset, a);
    let start = layout.align_to(a).offset;
    let end = layout.push(row).offset;
    assert(end == start + a);
    lemma_multiple_of_smaller(start as int, a as int, a as int);
    lemma_padding_aligns(end, a);
}

/// The declared size of a schema: the sum of the sizes of its fields.
pub open spec fn fields_size<S: Scalar>(fields: Seq<FieldSpec<S>>) -> nat
    decreases fields.len(),
{
    if fields.len() == 0 {
        0
    } else {
        fields_size(fields.drop_last()) + fields.last().size()
    }
}

/// The size of two lists of units, one after the other, is the sum of their
/// sizes.
pub proof fn lemma_units_size_concat<S: Scalar>(first: Seq<UnitSpec<S>>, second: Seq<UnitSpec<S>>)
    ensures
        units_size(first + second) == units_size(first) + units_size(second),
    decreases second.len(),
{
    if second.len() == 0 {
        assert(first + second =~= first);
    } else {
        lemma_units_size_concat(first, second.drop_last());
        assert((first + second).drop_last() =~= first + second.drop_last());
        assert((first + second).last() == second.last());
    }
}

/// Units of one shape have, together, the size of the shape times their
/// number.
pub proof fn lemma_uniform_units_size<S: Scalar>(units: Seq<UnitSpec<S>>, ty: VertexType<S>)
    requires
        forall|k: int| 0 <= k < units.len() ==> (#[trigger] units[k]).ty == ty,
    ensures
        units_size(units) == units.len() * ty.size(),
    decreases units.len(),
{
    if units.len() > 0 {
        let head = units.drop_last();
        assert forall|k: int| 0 <= k < head.len() implies (#[trigger] head[k]).ty == ty by {
            assert(head[k] == units[k]);
        }
        lemma_uniform_units_size(head, ty);
        assert(units.last() == units[units.len() - 1]);
        assert((units.len() - 1) * ty.size() + ty.size() == units.len() * ty.size())
            by (nonlinear_arith);
    } else {
        assert(0 * ty.size() == 0) by (nonlinear_arith);
    }
}

/// The units of a field hold exactly the bytes that the field declares: the
/// scalar's size times the number of scalars in the shape times the number
/// of repeats.
pub proof fn lemma_field_units_size<S: Scalar>(field: FieldSpec<S>, source: usize)
    ensures
        units_size(field.units(source)) == field.size(),
        field.size() == field.ty.scalar().rust_spec().size() * field.ty.element_count()
            * field.repeat_count(),
        field.unit_count() == field.ty.row_count() * field.repeat_count(),
{
    let units = field.units(source);
    let row = field.ty.row_type();
    lemma_uniform_units_size(units, row);
    lemma_rows_cover_shape(field.ty);
    let rows = field.ty.row_count();
    let repeats = field.repeat_count();
    match field.multiplier {
        Some(count) => {
            lemma_count_scaled(count, rows);
            lemma_count_scaled(count, field.ty.size());
        },
        None => {
            assert(rows * 1 == rows);
            assert(field.ty.size() * 1 == field.ty.size());
        },
    }
    assert((rows * repeats) * row.size() == (row.size() * rows) * repeats) by (nonlinear_arith);
}

/// Expansion neither adds nor loses a byte: the units of a schema have,
/// together, the size that its fields declare.
pub proof fn lemma_expand_size<S: Scalar>(fields: Seq<FieldSpec<S>>)
    ensures
        units_size(expand(fields)) == fields_size(fields),
    decreases fields.len(),
{
    if fields.len() > 0 {
        lemma_expand_size(fields.drop_last());
        lemma_field_units_size(fields.last(), (fields.len() - 1) as usize);
        lemma_units_size_concat(
            expand(fields.drop_last()),
            fields.last().units((fields.len() - 1) as usize),
        );
    }
}

/// The slots of a sequentially packed record start where the units start.
pub proof fn lemma_sequential_offsets<S: Scalar>(units: Seq<UnitSpec<S>>, i: int)
    requires
        0 <= i <= units.len(),
    ensures
        slot_offset(sequential_slots(units), i) == unit_offset(units, i),
{
    assert(sequential_slots(units).subrange(0, i) =~= sequential_slots(units.subrange(0, i)));
    lemma_sequential_size(units.subrange(0, i));
}

/// The artifacts of a vertex or instance record agree: entry `i` of the raw
/// record and attribute `i` of the buffer layout stand for unit `i`, under
/// its name, with its size and at the same offset, and there is no padding
/// among the entries.
pub proof fn lemma_vertex_artifacts_agree(
    units: Seq<UnitSpec<crate::scalar::RustScalar>>,
    initial_offset: Option<u32>,
    i: int,
)
    requires
        0 <= i < units.len(),
    ensures
        sequential_slots(units).len() == units.len(),
        sequential_slots(units)[i] == SlotSpec::Field(units[i]),
        raw_entry(sequential_slots(units), i).ident == units[i].ident(),
        raw_entry(sequential_slots(units), i).ty == units[i].ty.raw_type(),
        raw_entry(sequential_slots(units), i).ty.size() == units[i].ty.size(),
        raw_entry(sequential_slots(units), i).offset == attribute_of(
            units,
            initial_offset,
            i,
        ).offset,
        attribute_of(units, initial_offset, i).offset == unit_offset(units, i),
{
    lemma_sequential_offsets(units, i);
}

} // verus!
