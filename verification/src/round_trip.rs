//! Reading a raw record back: every unit is found at its offset with the
//! value that went in, and every padding byte is zero.

use vstd::prelude::*;
use crate::convert::conforms;
use crate::convert::decode_unit;
use crate::convert::fits;
use crate::convert::le_byte;
use crate::convert::le_value;
use crate::convert::record_bytes;
use crate::convert::scalar_bytes;
use crate::convert::slot_bytes;
use crate::convert::unit_bytes;
use crate::convert::unit_conforms;
use crate::convert::unit_value;
use crate::convert::zero_bytes;
use crate::scalar::Scalar;
use crate::uniform_layout::slot_offset;
use crate::wgsl_type::lemma_unit_bounds;
use crate::uniform_layout::total_size;
use crate::uniform_layout::SlotSpec;

verus! {

/// Where entry `i` ends: its offset plus its size.
pub open spec fn slot_end<S: Scalar>(slots: Seq<SlotSpec<S>>, i: int) -> int {
    (slot_offset(slots, i) + slots[i].size()) as int
}

/// The bytes of a scalar that fits give the scalar back.
pub proof fn lemma_scalar_round_trip(value: u32, size: nat)
    requires
        size == 1 || size == 2 || size == 4,
        fits(value, size),
    ensures
        scalar_bytes(value, size).len() == size,
        le_value(scalar_bytes(value, size)) == value,
{
    let b = scalar_bytes(value, size);
    assert(b[0] == le_byte(value, 0));
    let b0 = value % 256;
    let b1 = (value / 0x100) % 256;
    let b2 = (value / 0x1_0000) % 256;
    let b3 = (value / 0x100_0000) % 256;
    assert(le_byte(value, 0) == b0);
    if size == 1 {
        assert(value < 0x100 ==> value % 256 == value) by (bit_vector);
    } else if size == 2 {
        assert(b[1] == le_byte(value, 1));
        assert(le_byte(value, 1) == b1);
        assert(value < 0x1_0000 ==> value == value % 256 + (value / 0x100) % 256 * 0x100)
            by (bit_vector);
    } else {
        assert(b[1] == le_byte(value, 1));
        assert(b[2] == le_byte(value, 2));
        assert(b[3] == le_byte(value, 3));
        assert(le_byte(value, 1) == b1);
        assert(le_byte(value, 2) == b2);
        assert(le_byte(value, 3) == b3);
        assert(value == value % 256 + (value / 0x100) % 256 * 0x100 + (value / 0x1_0000) % 256
            * 0x1_0000 + (value / 0x100_0000) % 256 * 0x100_0000) by (bit_vector);
    }
}

/// The bytes of a unit are those of its scalars, each in its place.
pub proof fn lemma_unit_bytes(scalars: Seq<u32>, size: nat, c: int)
    requires
        0 <= c < scalars.len(),
    ensures
        unit_bytes(scalars, size).len() == scalars.len() * size,
        0 <= c * size <= (c + 1) * size <= scalars.len() * size,
        unit_bytes(scalars, size).subrange(c * size, (c + 1) * size) == scalar_bytes(
            scalars[c],
            size,
        ),
    decreases scalars.len(),
{
    lemma_unit_bytes_len(scalars, size);
    let head = scalars.drop_last();
    let n = scalars.len() as int;
    lemma_unit_bytes_len(head, size);
    assert((n - 1) * size + size == n * size) by (nonlinear_arith);
    assert(0 <= c * size && (c + 1) * size == c * size + size) by (nonlinear_arith)
        requires
            0 <= c,
    ;
    assert((c + 1) * size <= n * size) by (nonlinear_arith)
        requires
            c + 1 <= n,
    ;
    if c == n - 1 {
        assert(unit_bytes(scalars, size).subrange(c * size, (c + 1) * size) =~= scalar_bytes(
            scalars[c],
            size,
        ));
    } else {
        lemma_unit_bytes(head, size, c);
        assert((c + 1) * size <= (n - 1) * size) by (nonlinear_arith)
            requires
                c + 1 <= n - 1,
        ;
        assert(unit_bytes(scalars, size).subrange(c * size, (c + 1) * size) =~= unit_bytes(
            head,
            size,
        ).subrange(c * size, (c + 1) * size));
    }
}

/// A unit of `n` scalars has `n` times the scalar's size in bytes.
pub proof fn lemma_unit_bytes_len(scalars: Seq<u32>, size: nat)
    ensures
        unit_bytes(scalars, size).len() == scalars.len() * size,
    decreases scalars.len(),
{
    if scalars.len() > 0 {
        lemma_unit_bytes_len(scalars.drop_last(), size);
        let n = scalars.len() as int;
        assert((n - 1) * size + size == n * size) by (nonlinear_arith);
    } else {
        assert(0 * size == 0) by (nonlinear_arith);
    }
}

/// The bytes of an entry are as many as the entry's size, provided that
/// the logical record holds a value for its unit.
pub proof fn lemma_slot_bytes_len<S: Scalar>(slot: SlotSpec<S>, record: Seq<Seq<Seq<u32>>>)
    requires
        slot matches SlotSpec::Field(unit) ==> unit_conforms(unit, record),
    ensures
        slot_bytes(slot, record).len() == slot.size(),
{
    match slot {
        SlotSpec::Field(unit) => {
            let s = unit.ty.scalar().rust_spec().size();
            lemma_unit_bytes_len(unit_value(unit, record), s);
            lemma_unit_bounds(unit.ty);
            assert(unit.ty.width() * s == s * unit.ty.width()) by (nonlinear_arith);
        },
        SlotSpec::Padding { .. } => {},
    }
}

/// The raw record of a conforming logical record has the size of its
/// entries, and each entry's bytes stand at the entry's offset.
pub proof fn lemma_record_bytes<S: Scalar>(
    slots: Seq<SlotSpec<S>>,
    record: Seq<Seq<Seq<u32>>>,
    i: int,
)
    requires
        conforms(slots, record),
        0 <= i < slots.len(),
    ensures
        record_bytes(slots, record).len() == total_size(slots),
        slot_offset(slots, i) + slots[i].size() <= total_size(slots),
        record_bytes(slots, record).subrange(
            slot_offset(slots, i) as int,
            slot_end(slots, i),
        ) == slot_bytes(slots[i], record),
    decreases slots.len(),
{
    let head = slots.drop_last();
    let n = slots.len() as int;
    assert forall|j: int| 0 <= j < head.len() implies (#[trigger] head[j] matches SlotSpec::Field(
        unit,
    ) ==> unit_conforms(unit, record)) by {
        assert(head[j] == slots[j]);
    }
    lemma_record_bytes_len(head, record);
    assert(slots[n - 1] == slots.last());
    lemma_slot_bytes_len(slots.last(), record);
    if i == n - 1 {
        assert(slots.subrange(0, i) =~= head);
        assert(record_bytes(slots, record).subrange(
            slot_offset(slots, i) as int,
            slot_end(slots, i),
        ) =~= slot_bytes(slots[i], record));
    } else {
        lemma_record_bytes(head, record, i);
        assert(slots.subrange(0, i) =~= head.subrange(0, i));
        assert(head[i] == slots[i]);
        assert(record_bytes(slots, record).subrange(
            slot_offset(slots, i) as int,
            slot_end(slots, i),
        ) =~= record_bytes(head, record).subrange(
            slot_offset(head, i) as int,
            slot_end(head, i),
        ));
    }
}

/// The raw record of a conforming logical record has the size of its
/// entries.
pub proof fn lemma_record_bytes_len<S: Scalar>(slots: Seq<SlotSpec<S>>, record: Seq<Seq<Seq<u32>>>)
    requires
        conforms(slots, record),
    ensures
        record_bytes(slots, record).len() == total_size(slots),
    decreases slots.len(),
{
    if slots.len() > 0 {
        let head = slots.drop_last();
        assert forall|j: int| 0 <= j < head.len() implies (
        #[trigger] head[j] matches SlotSpec::Field(unit) ==> unit_conforms(unit, record)) by {
            assert(head[j] == slots[j]);
        }
        lemma_record_bytes_len(head, record);
        assert(slots[slots.len() - 1] == slots.last());
        lemma_slot_bytes_len(slots.last(), record);
    }
}

/// Converting a logical record and reading entry `i` back at its offset
/// gives, for a unit, each scalar of the value that went in, unchanged; for
/// padding, zeros only.
pub proof fn lemma_round_trip<S: Scalar>(
    slots: Seq<SlotSpec<S>>,
    record: Seq<Seq<Seq<u32>>>,
    i: int,
)
    requires
        conforms(slots, record),
        0 <= i < slots.len(),
    ensures
        record_bytes(slots, record).len() == total_size(slots),
        slot_offset(slots, i) + slots[i].size() <= total_size(slots),
        slots[i] is Padding ==> forall|k: int|
            slot_offset(slots, i) <= k < slot_offset(slots, i) + slots[i].size()
                ==> #[trigger] record_bytes(slots, record)[k] == 0,
        slots[i] matches SlotSpec::Field(unit) ==> {
            let read = decode_unit(
                record_bytes(slots, record).subrange(
                    slot_offset(slots, i) as int,
                    slot_end(slots, i),
                ),
                unit.ty.width(),
                unit.ty.scalar().rust_spec().size(),
            );
            &&& read.len() == unit_value(unit, record).len()
            &&& forall|c: int|
                0 <= c < read.len() ==> #[trigger] read[c] == unit_value(unit, record)[c]
        },
{
    lemma_record_bytes(slots, record, i);
    let bytes = record_bytes(slots, record);
    let start = slot_offset(slots, i) as int;
    let part = bytes.subrange(start, slot_end(slots, i));
    match slots[i] {
        SlotSpec::Padding { byte_count, .. } => {
            assert forall|k: int| start <= k < start + slots[i].size() implies #[trigger] bytes[k]
                == 0 by {
                assert(part[k - start] == bytes[k]);
                assert(part[k - start] == zero_bytes(byte_count)[k - start]);
            }
        },
        SlotSpec::Field(unit) => {
            let s = unit.ty.scalar().rust_spec().size();
            let value = unit_value(unit, record);
            let read = decode_unit(part, unit.ty.width(), s);
            assert forall|c: int| 0 <= c < read.len() implies #[trigger] read[c] == value[c] by {
                lemma_unit_bytes(value, s, c);
                lemma_scalar_round_trip(value[c], s);
            }
        },
    }
}

} // verus!
