//! Aligned and padded packing, as uniform blocks need it: every unit starts
//! at a multiple of its alignment, and the block ends at a multiple of 16.

use vstd::prelude::*;
use crate::field::units_view;
use crate::laws::lemma_align_to_consistent;
use crate::laws::lemma_block_rounding;
use crate::laws::lemma_push_places_unit;
use crate::laws::lemma_uniform_layout_aligned;
use crate::laws::well_packed;
use crate::field::RepeatedRawField;
use crate::field::UnitSpec;
use crate::scalar::Scalar;
use crate::text::decimal;
use crate::text::push_decimal;
use crate::wgsl_type::lemma_unit_bounds;
use crate::wgsl_type::RawRustType;

verus! {

/// The size that every uniform block is rounded up to a multiple of.
pub const BLOCK_ALIGN: usize = 16;

/// An entry of a packed record: a stored unit, or bytes that are reserved
/// and hold zero.
#[derive(Debug)]
pub enum UniformField<T> {
    Field(T),
    Padding { index: usize, byte_count: usize },
}

/// An entry of a packed record as a mathematical value.
pub enum SlotSpec<S> {
    Field(UnitSpec<S>),
    Padding { index: nat, byte_count: nat },
}

/// A record under construction: its entries so far, the offset behind the
/// last of them, and the number of padding entries among them.
#[derive(Debug)]
pub struct UniformLayout<S> {
    pub fields: Vec<UniformField<RepeatedRawField<S>>>,
    pub offset: usize,
    pub padding_index: usize,
}

/// A record under construction as a mathematical value.
pub struct LayoutSpec<S> {
    pub slots: Seq<SlotSpec<S>>,
    pub offset: nat,
    pub padding_index: nat,
}

impl<S> View for UniformField<RepeatedRawField<S>> {
    type V = SlotSpec<S>;

    open spec fn view(&self) -> SlotSpec<S> {
        match self {
            UniformField::Field(unit) => SlotSpec::Field(unit@),
            UniformField::Padding { index, byte_count } => SlotSpec::Padding {
                index: *index as nat,
                byte_count: *byte_count as nat,
            },
        }
    }
}

/// A list of entries as a mathematical value.
pub open spec fn slots_view<S>(fields: Seq<UniformField<RepeatedRawField<S>>>) -> Seq<SlotSpec<S>> {
    fields.map_values(|f: UniformField<RepeatedRawField<S>>| f@)
}

impl<S> View for UniformLayout<S> {
    type V = LayoutSpec<S>;

    open spec fn view(&self) -> LayoutSpec<S> {
        LayoutSpec {
            slots: slots_view(self.fields@),
            offset: self.offset as nat,
            padding_index: self.padding_index as nat,
        }
    }
}

/// The bytes to reserve at `offset` so that what follows starts at a
/// multiple of `align`.
pub open spec fn padding_for(offset: nat, align: nat) -> nat {
    ((align - (offset % align)) % (align as int)) as nat
}

impl<S> SlotSpec<S> {
    /// The name of the entry in the generated artifacts: a unit's own name,
    /// or `padding` and the padding's index.
    pub open spec fn ident(self) -> Seq<char> {
        match self {
            SlotSpec::Field(unit) => unit.ident(),
            SlotSpec::Padding { index, .. } => "padding"@ + decimal(index),
        }
    }
}

impl<S: Scalar> SlotSpec<S> {
    /// Size in bytes.
    pub open spec fn size(self) -> nat {
        match self {
            SlotSpec::Field(unit) => unit.ty.size(),
            SlotSpec::Padding { byte_count, .. } => byte_count,
        }
    }

    /// The type that stores the entry in the raw record.
    pub open spec fn raw_type(self) -> RawRustType {
        match self {
            SlotSpec::Field(unit) => unit.ty.raw_type(),
            SlotSpec::Padding { byte_count, .. } => RawRustType::Bytes {
                count: byte_count as usize,
            },
        }
    }
}

/// The size of a list of entries: the sum of their sizes.
pub open spec fn total_size<S: Scalar>(slots: Seq<SlotSpec<S>>) -> nat
    decreases slots.len(),
{
    if slots.len() == 0 {
        0
    } else {
        total_size(slots.drop_last()) + slots.last().size()
    }
}

/// The offset of entry `i`: the size of all entries before it.
pub open spec fn slot_offset<S: Scalar>(slots: Seq<SlotSpec<S>>, i: int) -> nat {
    total_size(slots.subrange(0, i))
}

/// The units among a list of entries, in order.
pub open spec fn field_slots<S>(slots: Seq<SlotSpec<S>>) -> Seq<UnitSpec<S>>
    decreases slots.len(),
{
    if slots.len() == 0 {
        Seq::empty()
    } else {
        match slots.last() {
            SlotSpec::Field(unit) => field_slots(slots.drop_last()).push(unit),
            SlotSpec::Padding { .. } => field_slots(slots.drop_last()),
        }
    }
}

/// The number of padding entries among a list of entries.
pub open spec fn padding_count<S>(slots: Seq<SlotSpec<S>>) -> nat
    decreases slots.len(),
{
    if slots.len() == 0 {
        0
    } else {
        padding_count(slots.drop_last()) + if slots.last() is Padding {
            1nat
        } else {
            0nat
        }
    }
}

impl<S: Scalar> LayoutSpec<S> {
    /// The record without entries.
    pub open spec fn empty() -> LayoutSpec<S> {
        LayoutSpec { slots: Seq::empty(), offset: 0, padding_index: 0 }
    }

    /// The record with padding added, if any is needed, so that its offset
    /// is a multiple of `align`.
    pub open spec fn align_to(self, align: nat) -> LayoutSpec<S> {
        let required = padding_for(self.offset, align);
        if required != 0 {
            LayoutSpec {
                slots: self.slots.push(
                    SlotSpec::Padding { index: self.padding_index, byte_count: required },
                ),
                offset: self.offset + required,
                padding_index: self.padding_index + 1,
            }
        } else {
            self
        }
    }

    /// The record with `unit` placed at the next multiple of its alignment.
    pub open spec fn push(self, unit: UnitSpec<S>) -> LayoutSpec<S> {
        let aligned = self.align_to(unit.ty.align());
        LayoutSpec {
            slots: aligned.slots.push(SlotSpec::Field(unit)),
            offset: aligned.offset + unit.ty.size(),
            padding_index: aligned.padding_index,
        }
    }

    /// The record with all of `units` placed in order.
    pub open spec fn pack(units: Seq<UnitSpec<S>>) -> LayoutSpec<S>
        decreases units.len(),
    {
        if units.len() == 0 {
            LayoutSpec::empty()
        } else {
            LayoutSpec::pack(units.drop_last()).push(units.last())
        }
    }

    /// The finished record of `units`: all of them placed in order, and the
    /// end rounded up to a multiple of 16.
    pub open spec fn of_units(units: Seq<UnitSpec<S>>) -> LayoutSpec<S> {
        LayoutSpec::pack(units).align_to(BLOCK_ALIGN as nat)
    }

    /// What holds of every record that the packing builds: its offset is
    /// the size of its entries, and its padding index counts its padding
    /// entries.
    pub open spec fn consistent(self) -> bool {
        &&& self.offset == total_size(self.slots)
        &&& self.padding_index == padding_count(self.slots)
    }
}

impl<T> UniformField<T> {
    /// Whether the entry is reserved bytes.
    pub fn is_padding(&self) -> (b: bool)
        ensures
            b == (self is Padding),
    {
        match self {
            UniformField::Field(_) => false,
            UniformField::Padding { .. } => true,
        }
    }
}

impl<S: Copy> UniformField<RepeatedRawField<S>> {
    /// The name of the entry in the generated artifacts: a unit's own name,
    /// or `padding` and the padding's index.
    pub fn ident(&self) -> (s: String)
        ensures
            s@ == self@.ident(),
    {
        match self {
            UniformField::Field(unit) => unit.ident(),
            UniformField::Padding { index, byte_count: _ } => {
                let mut s = String::from_str("padding");
                push_decimal(&mut s, *index);
                s
            },
        }
    }
}

impl<S: Scalar> UniformField<RepeatedRawField<S>> {
    /// The type that stores the entry in the raw record: that of the unit,
    /// or a byte array of the padding's size.
    pub fn raw_rust_type(&self) -> (r: RawRustType)
        ensures
            r == self@.raw_type(),
            r.size() == self@.size(),
    {
        match self {
            UniformField::Field(unit) => unit.ty.raw_rust_type(),
            UniformField::Padding { index: _, byte_count } => RawRustType::Bytes {
                count: *byte_count,
            },
        }
    }

    /// Size in bytes.
    pub fn byte_count(&self) -> (n: usize)
        ensures
            n == self@.size(),
    {
        match self {
            UniformField::Field(unit) => unit.byte_count(),
            UniformField::Padding { index: _, byte_count } => *byte_count,
        }
    }
}

impl<S: Scalar> UniformLayout<S> {
    /// The record without entries.
    pub fn new() -> (layout: UniformLayout<S>)
        ensures
            layout@ == LayoutSpec::<S>::empty(),
    {
        let layout = UniformLayout { fields: Vec::new(), offset: 0, padding_index: 0 };
        assert(layout@.slots =~= Seq::empty());
        layout
    }

    /// Places `field` at the next multiple of its alignment, behind a
    /// padding entry if the offset is no such multiple. The field becomes
    /// the last entry, and a record whose offset is the sum of the sizes of
    /// its entries stays so.
    pub fn push(&mut self, field: RepeatedRawField<S>)
        requires
            old(self).offset + 32 <= usize::MAX,
            old(self).padding_index < usize::MAX,
        ensures
            final(self)@ == old(self)@.push(field@),
            final(self)@.slots.len() >= 1,
            final(self)@.slots.last() == SlotSpec::Field(field@),
            final(self).offset >= field@.ty.size(),
            (final(self).offset - field@.ty.size()) % (field@.ty.align() as int) == 0,
            final(self).offset - field@.ty.size() >= old(self).offset,
            final(self).offset - field@.ty.size() < old(self).offset + field@.ty.align(),
            old(self)@.consistent() ==> final(self)@.consistent(),
    {
        proof {
            lemma_push_places_unit(old(self)@, field@);
        }
        let byte_count = field.byte_count();
        let byte_align = field.byte_align();
        self.align_to(byte_align);
        let ghost aligned = self.fields@;
        self.fields.push(UniformField::Field(field));
        self.offset += byte_count;
        assert(slots_view(self.fields@) =~= slots_view(aligned).push(SlotSpec::Field(field@)));
    }

    /// Adds a padding entry, if one is needed, so that the offset becomes a
    /// multiple of `align`.
    pub fn align_to(&mut self, align: usize)
        requires
            align > 0,
            old(self).offset + align <= usize::MAX,
            old(self).padding_index < usize::MAX,
        ensures
            final(self)@ == old(self)@.align_to(align as nat),
            final(self).offset % align == 0,
            final(self).offset >= old(self).offset,
            final(self).offset - old(self).offset < align,
            old(self).offset % align == 0 ==> final(self)@ == old(self)@,
            old(self)@.consistent() ==> final(self)@.consistent(),
    {
        proof {
            lemma_align_to_consistent(old(self)@, align as nat);
        }
        let required_padding = (align - (self.offset % align)) % align;
        assert(required_padding == padding_for(self.offset as nat, align as nat));
        assert((self.offset + required_padding) % (align as int) == 0) by {
            lemma_padding_aligns(self.offset as nat, align as nat);
        }
        if required_padding != 0 {
            let ghost before = self.fields@;
            self.fields.push(
                UniformField::Padding { index: self.padding_index, byte_count: required_padding },
            );
            self.padding_index += 1;
            self.offset += required_padding;
            assert(slots_view(self.fields@) =~= slots_view(before).push(
                SlotSpec::Padding {
                    index: old(self).padding_index as nat,
                    byte_count: required_padding as nat,
                },
            ));
        }
    }

    /// Packs `units` in order and rounds the end up to the next multiple of
    /// 16. Every unit of the result starts at a multiple of its alignment,
    /// and the size of the result is the sum of the sizes of its entries.
    pub fn from_iter(units: Vec<RepeatedRawField<S>>) -> (layout: UniformLayout<S>)
        requires
            units.len() * 32 + 32 <= usize::MAX,
        ensures
            layout@ == LayoutSpec::of_units(units_view(units@)),
            layout@.consistent(),
            layout@.offset == total_size(layout@.slots),
            layout@.offset % 16 == 0,
            layout@.offset >= LayoutSpec::pack(units_view(units@)).offset,
            layout@.offset < LayoutSpec::pack(units_view(units@)).offset + 16,
            well_packed(layout@),
    {
        let mut this: UniformLayout<S> = UniformLayout::new();
        let ghost all = units_view(units@);
        let n: usize = units.len();
        let mut placed: usize = 0;
        assert(all.subrange(0, 0) =~= Seq::empty());
        while placed < n
            invariant
                placed <= n,
                n == units.len(),
                all == units_view(units@),
                n * 32 + 32 <= usize::MAX,
                this@ == LayoutSpec::pack(all.subrange(0, placed as int)),
                this.offset <= 32 * placed,
                this.padding_index <= placed,
            decreases n - placed,
        {
            let unit = units[placed].clone_unit();
            assert(unit@ == all[placed as int]);
            let ghost before = this@;
            this.push(unit);
            assert(this@ == before.push(all[placed as int]));
            proof {
                let prefix = all.subrange(0, placed + 1);
                assert(prefix.drop_last() =~= all.subrange(0, placed as int));
                assert(prefix.last() == all[placed as int]);
                lemma_unit_bounds(all[placed as int].ty);
                lemma_padding_bound(before.offset, all[placed as int].ty.align());
            }
            placed = placed + 1;
        }
        assert(all.subrange(0, n as int) =~= all);
        this.align_to(BLOCK_ALIGN);
        proof {
            lemma_uniform_layout_aligned(all);
            lemma_block_rounding(all);
        }
        this
    }

    /// The offset of every entry, in order.
    pub fn offsets(&self) -> (r: Vec<usize>)
        requires
            self@.consistent(),
        ensures
            r@.len() == self@.slots.len(),
            forall|i: int| 0 <= i < r@.len() ==> r@[i] == slot_offset(self@.slots, i),
    {
        let mut out: Vec<usize> = Vec::new();
        let mut offset: usize = 0;
        let mut i: usize = 0;
        let ghost slots = self@.slots;
        assert(slots.subrange(0, 0) =~= Seq::<SlotSpec<S>>::empty());
        while i < self.fields.len()
            invariant
                i <= self.fields.len(),
                slots == self@.slots,
                slots.len() == self.fields.len(),
                self.offset == total_size(slots),
                out@.len() == i,
                offset == slot_offset(slots, i as int),
                forall|j: int| 0 <= j < i ==> out@[j] == slot_offset(slots, j),
            decreases self.fields.len() - i,
        {
            out.push(offset);
            let size = self.fields[i].byte_count();
            proof {
                let prefix = slots.subrange(0, i + 1);
                assert(prefix.drop_last() =~= slots.subrange(0, i as int));
                assert(prefix.last() == slots[i as int]);
                lemma_total_size_prefix(slots, i + 1);
            }
            offset = offset + size;
            i = i + 1;
        }
        out
    }

    /// The size of the record so far.
    pub fn byte_count(&self) -> (n: usize)
        ensures
            n == self@.offset,
    {
        self.offset
    }
}

/// Reserving `padding_for(offset, align)` bytes at `offset` leads to a
/// multiple of `align`, and the padding is less than `align`.
pub proof fn lemma_padding_aligns(offset: nat, align: nat)
    requires
        align > 0,
    ensures
        (offset + padding_for(offset, align)) % align == 0,
        padding_for(offset, align) < align,
        offset % align == 0 ==> padding_for(offset, align) == 0,
{
    let r = offset % align;
    let a = align as int;
    assert(0 <= r < a);
    if r == 0 {
        assert((a - 0) % a == 0) by (nonlinear_arith)
            requires
                a > 0,
        ;
    } else {
        assert((a - r) % a == a - r) by (nonlinear_arith)
            requires
                0 < r < a,
        ;
        assert((offset + (a - r)) % a == 0) by (nonlinear_arith)
            requires
                a > 0,
                r == offset % (a as nat),
                0 < r < a,
        ;
    }
}

/// The padding before a unit is less than the unit's alignment, which is at
/// most 16.
pub proof fn lemma_padding_bound(offset: nat, align: nat)
    requires
        0 < align <= 16,
    ensures
        padding_for(offset, align) < 16,
{
    lemma_padding_aligns(offset, align);
}

/// The size of the first `k` entries never exceeds the size of all.
pub proof fn lemma_total_size_prefix<S: Scalar>(slots: Seq<SlotSpec<S>>, k: int)
    requires
        0 <= k <= slots.len(),
    ensures
        total_size(slots.subrange(0, k)) <= total_size(slots),
    decreases slots.len() - k,
{
    if k == slots.len() {
        assert(slots.subrange(0, k) =~= slots);
    } else {
        let longer = slots.subrange(0, k + 1);
        assert(longer.drop_last() =~= slots.subrange(0, k));
        lemma_total_size_prefix(slots, k + 1);
    }
}

} // verus!
