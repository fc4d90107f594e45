//! The conversion of a logical record into the bytes of its raw record.
//!
//! A scalar of a logical value is held as its bit pattern: the two's
//! complement of an integer, the IEEE 754 bits of a float. The raw record
//! stores each scalar in little-endian byte order, as the devices that read
//! it do.

use vstd::prelude::*;
use crate::field::RepeatedRawField;
use crate::field::UnitSpec;
use crate::scalar::Scalar;
use crate::uniform_layout::slots_view;
use crate::uniform_layout::SlotSpec;
use crate::uniform_layout::UniformField;
use crate::wgsl_type::VertexType;

verus! {

/// The logical value of one field: for each of its units, in order, the
/// scalars of that unit. A field that is a single scalar or vector has one
/// unit; a matrix has one for each row, a repeated shape one for each row
/// of each repeat.
#[derive(Debug)]
pub struct LogicalField {
    pub units: Vec<Vec<u32>>,
}

impl View for LogicalField {
    type V = Seq<Seq<u32>>;

    open spec fn view(&self) -> Seq<Seq<u32>> {
        self.units@.map_values(|unit: Vec<u32>| unit@)
    }
}

/// A logical record as a mathematical value: field, unit, scalar.
pub open spec fn record_view(record: Seq<LogicalField>) -> Seq<Seq<Seq<u32>>> {
    record.map_values(|field: LogicalField| field@)
}

/// 256 to the power of `k`, for the byte positions of a 32-bit scalar.
pub open spec fn byte_weight(k: nat) -> nat {
    if k == 0 {
        1
    } else if k == 1 {
        0x100
    } else if k == 2 {
        0x1_0000
    } else if k == 3 {
        0x100_0000
    } else {
        0x1_0000_0000
    }
}

/// Whether a bit pattern fits in `size` bytes.
pub open spec fn fits(value: u32, size: nat) -> bool {
    (value as nat) < byte_weight(size)
}

/// Byte `k` of a bit pattern, counted from the least significant.
pub open spec fn le_byte(value: u32, k: nat) -> u8 {
    if k == 0 {
        (value % 256) as u8
    } else if k == 1 {
        ((value / 0x100) % 256) as u8
    } else if k == 2 {
        ((value / 0x1_0000) % 256) as u8
    } else {
        ((value / 0x100_0000) % 256) as u8
    }
}

/// The `size` bytes that store a scalar, least significant first.
pub open spec fn scalar_bytes(value: u32, size: nat) -> Seq<u8> {
    Seq::new(size, |k: int| le_byte(value, k as nat))
}

/// The bit pattern that up to four bytes store, least significant first.
pub open spec fn le_value(bytes: Seq<u8>) -> nat {
    (if bytes.len() > 0 {
        bytes[0] as nat
    } else {
        0
    }) + (if bytes.len() > 1 {
        bytes[1] as nat * 0x100
    } else {
        0
    }) + (if bytes.len() > 2 {
        bytes[2] as nat * 0x1_0000
    } else {
        0
    }) + (if bytes.len() > 3 {
        bytes[3] as nat * 0x100_0000
    } else {
        0
    })
}

/// The bytes that store the scalars of one unit, in order.
pub open spec fn unit_bytes(scalars: Seq<u32>, size: nat) -> Seq<u8>
    decreases scalars.len(),
{
    if scalars.len() == 0 {
        Seq::empty()
    } else {
        unit_bytes(scalars.drop_last(), size) + scalar_bytes(scalars.last(), size)
    }
}

/// `count` bytes that hold zero.
pub open spec fn zero_bytes(count: nat) -> Seq<u8> {
    Seq::new(count, |k: int| 0u8)
}

/// The index of a unit within the logical value of its field.
pub open spec fn unit_index<S>(unit: UnitSpec<S>) -> int {
    match unit.repeat {
        Some(k) => k as int,
        None => 0,
    }
}

/// Whether a logical record holds a value for `unit`: the unit's field and
/// index exist, with as many scalars as the unit is wide, each fitting in
/// the unit's scalar.
pub open spec fn unit_conforms<S: Scalar>(unit: UnitSpec<S>, record: Seq<Seq<Seq<u32>>>) -> bool {
    &&& unit.source < record.len()
    &&& unit_index(unit) < record[unit.source as int].len()
    &&& record[unit.source as int][unit_index(unit)].len() == unit.ty.width()
    &&& forall|c: int|
        0 <= c < unit.ty.width() ==> fits(
            #[trigger] record[unit.source as int][unit_index(unit)][c],
            unit.ty.scalar().rust_spec().size(),
        )
}

/// Whether a logical record holds a value for every unit among `slots`.
pub open spec fn conforms<S: Scalar>(slots: Seq<SlotSpec<S>>, record: Seq<Seq<Seq<u32>>>) -> bool {
    forall|i: int|
        0 <= i < slots.len() ==> (#[trigger] slots[i] matches SlotSpec::Field(unit)
            ==> unit_conforms(unit, record))
}

/// The scalars that a logical record holds for `unit`.
pub open spec fn unit_value<S>(unit: UnitSpec<S>, record: Seq<Seq<Seq<u32>>>) -> Seq<u32> {
    record[unit.source as int][unit_index(unit)]
}

/// The bytes of one entry: those of its unit's value, or zeros for padding,
/// whatever the logical record holds.
pub open spec fn slot_bytes<S: Scalar>(slot: SlotSpec<S>, record: Seq<Seq<Seq<u32>>>) -> Seq<u8> {
    match slot {
        SlotSpec::Field(unit) => unit_bytes(
            unit_value(unit, record),
            unit.ty.scalar().rust_spec().size(),
        ),
        SlotSpec::Padding { byte_count, .. } => zero_bytes(byte_count),
    }
}

/// The bytes of a raw record: those of its entries, in order.
pub open spec fn record_bytes<S: Scalar>(slots: Seq<SlotSpec<S>>, record: Seq<Seq<Seq<u32>>>) -> Seq<
    u8,
>
    decreases slots.len(),
{
    if slots.len() == 0 {
        Seq::empty()
    } else {
        record_bytes(slots.drop_last(), record) + slot_bytes(slots.last(), record)
    }
}

/// The scalars that the bytes of one unit store.
pub open spec fn decode_unit(bytes: Seq<u8>, width: nat, size: nat) -> Seq<nat> {
    Seq::new(width, |c: int| le_value(bytes.subrange(c * size, (c + 1) * size)))
}

/// Appends the `size` bytes of a scalar, least significant first.
pub fn push_scalar(out: &mut Vec<u8>, value: u32, size: usize)
    requires
        size == 1 || size == 2 || size == 4,
    ensures
        final(out)@ == old(out)@ + scalar_bytes(value, size as nat),
{
    out.push((value % 256) as u8);
    if size >= 2 {
        out.push(((value / 0x100) % 256) as u8);
    }
    if size == 4 {
        out.push(((value / 0x1_0000) % 256) as u8);
        out.push(((value / 0x100_0000) % 256) as u8);
    }
    assert(out@ =~= old(out)@ + scalar_bytes(value, size as nat));
}

/// Whether a bit pattern fits in `size` bytes.
pub fn scalar_fits(value: u32, size: usize) -> (b: bool)
    requires
        size == 1 || size == 2 || size == 4,
    ensures
        b == fits(value, size as nat),
{
    if size == 1 {
        value < 0x100
    } else if size == 2 {
        value < 0x1_0000
    } else {
        true
    }
}

/// The scalars that a logical record holds for `unit`, if it holds any
/// that conform.
pub fn lookup_unit<'a, S: Scalar>(unit: &RepeatedRawField<S>, record: &'a Vec<LogicalField>) -> (r:
    Option<&'a Vec<u32>>)
    ensures
        r is Some <==> unit_conforms(unit@, record_view(record@)),
        r matches Some(scalars) ==> scalars@ == unit_value(unit@, record_view(record@)),
{
    if unit.source >= record.len() {
        return None;
    }
    let field = &record[unit.source];
    let index: usize = match unit.repeat {
        Some(k) => k,
        None => 0,
    };
    if index >= field.units.len() {
        return None;
    }
    let scalars = &field.units[index];
    assert(scalars@ == unit_value(unit@, record_view(record@)));
    let width: usize = match &unit.ty {
        VertexType::Scalar(_) => 1,
        VertexType::Vec { dim, .. } => dim.to_usize(),
    };
    if scalars.len() != width {
        return None;
    }
    let size: usize = match &unit.ty {
        VertexType::Scalar(scalar) => scalar.rust().byte_count(),
        VertexType::Vec { scalar, .. } => scalar.rust().byte_count(),
    };
    let mut c: usize = 0;
    while c < width
        invariant
            c <= width,
            width == scalars@.len(),
            width == unit@.ty.width(),
            size == unit@.ty.scalar().rust_spec().size(),
            size == 1 || size == 2 || size == 4,
            scalars@ == unit_value(unit@, record_view(record@)),
            unit@.source < record_view(record@).len(),
            unit_index(unit@) < record_view(record@)[unit@.source as int].len(),
            forall|j: int| 0 <= j < c ==> fits(#[trigger] scalars@[j], size as nat),
        decreases width - c,
    {
        if !scalar_fits(scalars[c], size) {
            assert(!fits(
                record_view(record@)[unit@.source as int][unit_index(unit@)][c as int],
                size as nat,
            ));
            return None;
        }
        c = c + 1;
    }
    Some(scalars)
}

/// Appends the bytes of the scalars of one unit, in order.
pub fn push_unit(out: &mut Vec<u8>, scalars: &Vec<u32>, size: usize)
    requires
        size == 1 || size == 2 || size == 4,
    ensures
        final(out)@ == old(out)@ + unit_bytes(scalars@, size as nat),
{
    let mut c: usize = 0;
    assert(scalars@.subrange(0, 0) =~= Seq::empty());
    assert(out@ =~= old(out)@ + unit_bytes(scalars@.subrange(0, 0), size as nat));
    while c < scalars.len()
        invariant
            c <= scalars.len(),
            size == 1 || size == 2 || size == 4,
            out@ == old(out)@ + unit_bytes(scalars@.subrange(0, c as int), size as nat),
        decreases scalars.len() - c,
    {
        let ghost before = out@;
        push_scalar(out, scalars[c], size);
        proof {
            let prefix = scalars@.subrange(0, c + 1);
            assert(prefix.drop_last() =~= scalars@.subrange(0, c as int));
            assert(prefix.last() == scalars@[c as int]);
            assert(out@ =~= old(out)@ + unit_bytes(prefix, size as nat));
        }
        c = c + 1;
    }
    assert(scalars@.subrange(0, c as int) =~= scalars@);
}

/// Appends `count` bytes that hold zero.
pub fn push_zeros(out: &mut Vec<u8>, count: usize)
    ensures
        final(out)@ == old(out)@ + zero_bytes(count as nat),
{
    let mut k: usize = 0;
    assert(out@ =~= old(out)@ + zero_bytes(0));
    while k < count
        invariant
            k <= count,
            out@ == old(out)@ + zero_bytes(k as nat),
        decreases count - k,
    {
        out.push(0u8);
        k = k + 1;
        assert(out@ =~= old(out)@ + zero_bytes(k as nat));
    }
}

/// Converts a logical record into the bytes of its raw record.
///
/// Each unit is read from the logical record at its field and index, and
/// each of its scalars is stored in little-endian order; each padding entry
/// becomes zeros and reads nothing. A record that lacks a conforming value
/// for some unit gives `None`.
pub fn convert<S: Scalar>(
    slots: &Vec<UniformField<RepeatedRawField<S>>>,
    record: &Vec<LogicalField>,
) -> (r: Option<Vec<u8>>)
    ensures
        r is Some <==> conforms(slots_view(slots@), record_view(record@)),
        r matches Some(bytes) ==> bytes@ == record_bytes(
            slots_view(slots@),
            record_view(record@),
        ),
{
    let mut out: Vec<u8> = Vec::new();
    let ghost all = slots_view(slots@);
    let ghost rec = record_view(record@);
    let mut i: usize = 0;
    assert(all.subrange(0, 0) =~= Seq::empty());
    assert(out@ =~= record_bytes(all.subrange(0, 0), rec));
    while i < slots.len()
        invariant
            i <= slots.len(),
            all == slots_view(slots@),
            rec == record_view(record@),
            out@ == record_bytes(all.subrange(0, i as int), rec),
            forall|j: int|
                0 <= j < i ==> (#[trigger] all[j] matches SlotSpec::Field(unit) ==> unit_conforms(
                    unit,
                    rec,
                )),
        decreases slots.len() - i,
    {
        proof {
            let prefix = all.subrange(0, i + 1);
            assert(prefix.drop_last() =~= all.subrange(0, i as int));
            assert(prefix.last() == slots@[i as int]@);
        }
        match &slots[i] {
            UniformField::Field(unit) => {
                match lookup_unit(unit, record) {
                    Some(scalars) => {
                        let size = unit.ty_scalar_size();
                        push_unit(&mut out, scalars, size);
                    },
                    None => {
                        assert(all[i as int] == SlotSpec::Field(unit@));
                        return None;
                    },
                }
            },
            UniformField::Padding { index: _, byte_count } => {
                push_zeros(&mut out, *byte_count);
            },
        }
        i = i + 1;
    }
    assert(all.subrange(0, i as int) =~= all);
    Some(out)
}

impl<S: Scalar> RepeatedRawField<S> {
    /// The size in bytes of the unit's scalar.
    pub fn ty_scalar_size(&self) -> (n: usize)
        ensures
            n == self@.ty.scalar().rust_spec().size(),
            n == 1 || n == 2 || n == 4,
    {
        match &self.ty {
            VertexType::Scalar(scalar) => scalar.rust().byte_count(),
            VertexType::Vec { scalar, .. } => scalar.rust().byte_count(),
        }
    }
}

/// Reads the bit pattern that `size` bytes at `start` store, least
/// significant first.
pub fn read_scalar(bytes: &Vec<u8>, start: usize, size: usize) -> (value: u32)
    requires
        size == 1 || size == 2 || size == 4,
        start + size <= bytes.len(),
    ensures
        value == le_value(bytes@.subrange(start as int, start + size)),
{
    let ghost part = bytes@.subrange(start as int, start + size);
    assert(part[0] == bytes@[start as int]);
    let mut value: u32 = bytes[start] as u32;
    if size >= 2 {
        assert(part[1] == bytes@[start + 1]);
        value = value + bytes[start + 1] as u32 * 0x100;
    }
    if size == 4 {
        assert(part[2] == bytes@[start + 2]);
        assert(part[3] == bytes@[start + 3]);
        value = value + bytes[start + 2] as u32 * 0x1_0000;
        value = value + bytes[start + 3] as u32 * 0x100_0000;
    }
    value
}

/// Reads a unit of `width` scalars of `size` bytes each back from the bytes
/// of a raw record, where it starts at `offset`. A unit that does not lie
/// within the bytes, or is wider than four scalars, or whose scalars have
/// no size of 1, 2 or 4 bytes, gives `None`.
pub fn read_unit(bytes: &Vec<u8>, offset: usize, width: usize, size: usize) -> (r: Option<Vec<u32>>)
    ensures
        r is Some <==> (size == 1 || size == 2 || size == 4) && width <= 4 && offset + width
            * size <= bytes@.len(),
        r matches Some(scalars) ==> {
            let read = decode_unit(
                bytes@.subrange(offset as int, offset + width * size),
                width as nat,
                size as nat,
            );
            &&& scalars@.len() == width
            &&& forall|c: int| 0 <= c < width ==> #[trigger] scalars@[c] == read[c]
        },
{
    if !(size == 1 || size == 2 || size == 4) || width > 4 || offset > bytes.len() {
        assert(width * size >= 0) by (nonlinear_arith)
            requires
                width >= 0,
                size >= 0,
        ;
        return None;
    }
    assert(width * size <= 16) by (nonlinear_arith)
        requires
            width <= 4,
            size <= 4,
    ;
    if width * size > bytes.len() - offset {
        return None;
    }
    let ghost part = bytes@.subrange(offset as int, offset + width * size);
    let mut scalars: Vec<u32> = Vec::new();
    let mut c: usize = 0;
    while c < width
        invariant
            c <= width,
            width <= 4,
            size == 1 || size == 2 || size == 4,
            width * size <= 16,
            offset + width * size <= bytes.len(),
            bytes.len() <= usize::MAX,
            part == bytes@.subrange(offset as int, offset + width * size),
            scalars@.len() == c,
            forall|j: int|
                0 <= j < c ==> #[trigger] scalars@[j] == decode_unit(
                    part,
                    width as nat,
                    size as nat,
                )[j],
        decreases width - c,
    {
        assert(c * size + size <= width * size && 0 <= c * size <= width * size && (c + 1) * size
            == c * size + size) by (nonlinear_arith)
            requires
                c < width,
                size > 0,
        ;
        let value = read_scalar(bytes, offset + c * size, size);
        assert(part.subrange(c * size, (c + 1) * size) =~= bytes@.subrange(
            offset + c * size,
            offset + c * size + size,
        ));
        scalars.push(value);
        c = c + 1;
    }
    Some(scalars)
}

} // verus!
