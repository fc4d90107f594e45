//! The raw record: the byte-exact type that a record is stored as, entry by
//! entry, and where each entry takes its value from.

use vstd::prelude::*;
use crate::field::units_view;
use crate::field::RepeatedRawField;
use crate::field::UnitSpec;
use crate::scalar::Scalar;
use crate::uniform_layout::lemma_total_size_prefix;
use crate::uniform_layout::slot_offset;
use crate::uniform_layout::slots_view;
use crate::uniform_layout::total_size;
use crate::uniform_layout::SlotSpec;
use crate::uniform_layout::UniformField;
use crate::uniform_layout::UniformLayout;
use crate::vertex_layout::lemma_units_size_bound;
use crate::vertex_layout::units_size;
use crate::wgsl_type::RawRustType;

verus! {

/// Where an entry of a raw record takes its value from.
#[derive(Debug, Clone, Copy, PartialEq, Eq, Structural)]
pub enum RawValue {
    /// The whole logical value of the field at `source`, converted as it
    /// is.
    Field { source: usize },
    /// Element `index` of the logical value of the field at `source`: a
    /// row of a matrix, or one repeat.
    Element { source: usize, index: usize },
    /// Zero in every byte; nothing is read.
    Zero,
}

/// One entry of a raw record.
#[derive(Debug, Clone, PartialEq, Eq)]
pub struct RawStructField {
    pub ident: String,
    pub ty: RawRustType,
    pub offset: u64,
    pub value: RawValue,
}

/// One entry of a raw record as a mathematical value.
pub struct RawEntrySpec {
    pub ident: Seq<char>,
    pub ty: RawRustType,
    pub offset: nat,
    pub value: RawValue,
}

/// A raw record: its name, its entries in storage order, and its size.
#[derive(Debug, Clone, PartialEq, Eq)]
pub struct RawStruct {
    pub ident: String,
    pub fields: Vec<RawStructField>,
    pub byte_count: u64,
}

impl View for RawStructField {
    type V = RawEntrySpec;

    open spec fn view(&self) -> RawEntrySpec {
        RawEntrySpec {
            ident: self.ident@,
            ty: self.ty,
            offset: self.offset as nat,
            value: self.value,
        }
    }
}

/// A list of entries as a mathematical value.
pub open spec fn entries_view(fields: Seq<RawStructField>) -> Seq<RawEntrySpec> {
    fields.map_values(|f: RawStructField| f@)
}

/// Where the entry of a slot takes its value from: a unit without an index
/// is its field's whole value, a unit with an index is that element of it,
/// and padding is zero.
pub open spec fn raw_value_of<S>(slot: SlotSpec<S>) -> RawValue {
    match slot {
        SlotSpec::Field(unit) => match unit.repeat {
            Some(index) => RawValue::Element { source: unit.source, index },
            None => RawValue::Field { source: unit.source },
        },
        SlotSpec::Padding { .. } => RawValue::Zero,
    }
}

/// The entry of slot `i`.
pub open spec fn raw_entry<S: Scalar>(slots: Seq<SlotSpec<S>>, i: int) -> RawEntrySpec {
    RawEntrySpec {
        ident: slots[i].ident(),
        ty: slots[i].raw_type(),
        offset: slot_offset(slots, i),
        value: raw_value_of(slots[i]),
    }
}

/// The entries of a raw record: one for each slot, in order.
pub open spec fn raw_entries<S: Scalar>(slots: Seq<SlotSpec<S>>) -> Seq<RawEntrySpec> {
    Seq::new(slots.len(), |i: int| raw_entry(slots, i))
}

/// The slots of a sequentially packed record: its units, and nothing
/// between them.
pub open spec fn sequential_slots<S>(units: Seq<UnitSpec<S>>) -> Seq<SlotSpec<S>> {
    units.map_values(|unit: UnitSpec<S>| SlotSpec::Field(unit))
}

/// A sequentially packed record has the size of its units.
pub proof fn lemma_sequential_size<S: Scalar>(units: Seq<UnitSpec<S>>)
    ensures
        total_size(sequential_slots(units)) == units_size(units),
    decreases units.len(),
{
    if units.len() > 0 {
        lemma_sequential_size(units.drop_last());
        assert(sequential_slots(units).drop_last() =~= sequential_slots(units.drop_last()));
    }
}

/// The slots of a sequentially packed record: its units, and nothing
/// between them.
pub fn sequential_layout<S: Copy>(units: &Vec<RepeatedRawField<S>>) -> (slots: Vec<
    UniformField<RepeatedRawField<S>>,
>)
    ensures
        slots_view(slots@) == sequential_slots(units_view(units@)),
{
    let mut slots: Vec<UniformField<RepeatedRawField<S>>> = Vec::new();
    let mut i: usize = 0;
    let ghost expected = sequential_slots(units_view(units@));
    assert(slots_view(slots@) =~= expected.subrange(0, 0));
    while i < units.len()
        invariant
            i <= units.len(),
            expected == sequential_slots(units_view(units@)),
            slots_view(slots@) == expected.subrange(0, i as int),
        decreases units.len() - i,
    {
        let ghost prev = slots@;
        let slot = UniformField::Field(units[i].clone_unit());
        assert(slot@ == expected[i as int]);
        slots.push(slot);
        assert(slots_view(slots@) =~= slots_view(prev).push(slot@));
        i = i + 1;
        assert(slots_view(slots@) =~= expected.subrange(0, i as int));
    }
    assert(expected.subrange(0, i as int) =~= expected);
    slots
}

/// The raw record of a list of slots: an entry for each, under the slot's
/// name, with its type, and at the sum of the sizes before it.
pub fn raw_struct_of<S: Scalar>(
    raw_ident: String,
    slots: &Vec<UniformField<RepeatedRawField<S>>>,
) -> (r: RawStruct)
    requires
        total_size(slots_view(slots@)) <= u64::MAX,
    ensures
        r.ident@ == raw_ident@,
        entries_view(r.fields@) == raw_entries(slots_view(slots@)),
        r.byte_count == total_size(slots_view(slots@)),
{
    let mut fields: Vec<RawStructField> = Vec::new();
    let mut offset: u64 = 0;
    let mut i: usize = 0;
    let ghost all = slots_view(slots@);
    let ghost expected = raw_entries(all);
    assert(all.subrange(0, 0) =~= Seq::<SlotSpec<S>>::empty());
    assert(entries_view(fields@) =~= expected.subrange(0, 0));
    while i < slots.len()
        invariant
            i <= slots.len(),
            all == slots_view(slots@),
            expected == raw_entries(all),
            total_size(all) <= u64::MAX,
            offset == slot_offset(all, i as int),
            entries_view(fields@) == expected.subrange(0, i as int),
        decreases slots.len() - i,
    {
        let slot = &slots[i];
        let value = match slot {
            UniformField::Field(unit) => match unit.repeat {
                Some(index) => RawValue::Element { source: unit.source, index },
                None => RawValue::Field { source: unit.source },
            },
            UniformField::Padding { .. } => RawValue::Zero,
        };
        let entry = RawStructField {
            ident: slot.ident(),
            ty: slot.raw_rust_type(),
            offset,
            value,
        };
        assert(all[i as int] == slot@);
        assert(entry@ == expected[i as int]);
        let size = slot.byte_count();
        proof {
            let prefix = all.subrange(0, i + 1);
            assert(prefix.drop_last() =~= all.subrange(0, i as int));
            assert(prefix.last() == all[i as int]);
            lemma_total_size_prefix(all, i + 1);
        }
        let ghost prev = fields@;
        fields.push(entry);
        assert(entries_view(fields@) =~= entries_view(prev).push(entry@));
        offset = offset + size as u64;
        i = i + 1;
        assert(entries_view(fields@) =~= expected.subrange(0, i as int));
    }
    assert(all.subrange(0, i as int) =~= all);
    assert(expected.subrange(0, i as int) =~= expected);
    RawStruct { ident: raw_ident, fields, byte_count: offset }
}

/// The raw record of a vertex or instance stream: an entry for each unit,
/// each starting where the one before it ends, and no padding.
pub fn raw_struct_quote<S: Scalar>(raw_ident: String, units: &Vec<RepeatedRawField<S>>) -> (r:
    RawStruct)
    requires
        units.len() <= u32::MAX,
    ensures
        r.ident@ == raw_ident@,
        entries_view(r.fields@) == raw_entries(sequential_slots(units_view(units@))),
        r.byte_count == units_size(units_view(units@)),
{
    let slots = sequential_layout(units);
    proof {
        lemma_sequential_size(units_view(units@));
        lemma_units_size_bound(units_view(units@));
    }
    raw_struct_of(raw_ident, &slots)
}

/// The raw record of a uniform block: an entry for each unit and for each
/// padding, in the order of the layout. Padding is a byte array of its own,
/// beside the unit that it follows, and holds zero.
pub fn raw_uniform_struct_quote<S: Scalar>(raw_ident: String, layout: &UniformLayout<S>) -> (r:
    RawStruct)
    requires
        layout@.consistent(),
    ensures
        r.ident@ == raw_ident@,
        entries_view(r.fields@) == raw_entries(layout@.slots),
        r.byte_count == layout@.offset,
{
    raw_struct_of(raw_ident, &layout.fields)
}

} // verus!
