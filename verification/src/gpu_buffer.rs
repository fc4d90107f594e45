//! Buffers as the host prepares them: the bytes that go to the device, and
//! what the host remembers of them.

use vstd::prelude::*;
use crate::convert::scalar_bytes;

verus! {

/// A kind of buffer; it decides what the host remembers beside the bytes.
pub trait BufferType {
    type Extra;
}

/// Indices of primitives with `PRIMITIVE_SIZE` corners each.
pub struct IndexBuf<const PRIMITIVE_SIZE: usize>;

/// Instance records.
pub struct InstanceBuf;

/// One uniform block.
pub struct UniformBuf;

/// Vertex records.
pub struct VertexBuf;

/// The width of the indices of an index buffer.
#[derive(Debug, Clone, Copy, PartialEq, Eq, Structural)]
pub enum IndexFormat {
    Uint16,
    Uint32,
}

/// How many instances a buffer holds, and for how many it has room.
#[derive(Debug, Clone, Copy, PartialEq, Eq, Structural)]
pub struct InstanceCount {
    pub count: u32,
    pub capacity: u32,
}

/// What the device has to do for new instance data.
#[derive(Debug, Clone, Copy, PartialEq, Eq, Structural)]
pub enum BufferAction {
    /// Write the bytes into the buffer that exists.
    Write,
    /// Make a new buffer of the bytes.
    Recreate,
}

impl<const C: usize> BufferType for IndexBuf<C> {
    type Extra = (u32, IndexFormat);
}

impl BufferType for InstanceBuf {
    type Extra = InstanceCount;
}

impl BufferType for UniformBuf {
    type Extra = ();
}

impl BufferType for VertexBuf {
    type Extra = u32;
}

/// The bytes of a buffer, and what the host remembers of it.
pub struct GpuBuffer<B: BufferType> {
    pub contents: Vec<u8>,
    pub extra: B::Extra,
}

/// Whether `bytes` store `value` in `size` bytes in the byte order of some
/// machine: least significant byte first, or last.
pub open spec fn native_bytes(value: u32, size: nat, bytes: Seq<u8>) -> bool {
    bytes == scalar_bytes(value, size) || bytes == scalar_bytes(value, size).reverse()
}

/// `bytemuck::cast_slice` from `u16` to `u8`, copied into a vector. The
/// contract claims that the cast hands out the memory of the values: two
/// bytes for each value, in order, in the machine's byte order.
#[verifier::external_body]
fn cast_u16_bytes(values: &Vec<u16>) -> (bytes: Vec<u8>)
    ensures
        bytes@.len() == 2 * values@.len(),
        forall|i: int|
            0 <= i < values@.len() ==> native_bytes(
                #[trigger] values@[i] as u32,
                2,
                bytes@.subrange(2 * i, 2 * i + 2),
            ),
{
    bytemuck::cast_slice::<u16, u8>(values.as_slice()).to_vec()
}

/// `bytemuck::cast_slice` from `u32` to `u8`, copied into a vector. The
/// contract claims that the cast hands out the memory of the values: four
/// bytes for each value, in order, in the machine's byte order.
#[verifier::external_body]
fn cast_u32_bytes(values: &Vec<u32>) -> (bytes: Vec<u8>)
    ensures
        bytes@.len() == 4 * values@.len(),
        forall|i: int|
            0 <= i < values@.len() ==> native_bytes(
                #[trigger] values@[i],
                4,
                bytes@.subrange(4 * i, 4 * i + 4),
            ),
{
    bytemuck::cast_slice::<u32, u8>(values.as_slice()).to_vec()
}

/// The indices of a list of primitives, corner by corner.
pub open spec fn flat_indices<const C: usize>(primitives: Seq<[u32; C]>) -> Seq<u32>
    decreases primitives.len(),
{
    if primitives.len() == 0 {
        Seq::empty()
    } else {
        flat_indices(primitives.drop_last()) + primitives.last()@
    }
}

/// Whether some index needs more than 16 bits.
pub open spec fn needs_u32(indices: Seq<u32>) -> bool {
    exists|i: int| 0 <= i < indices.len() && #[trigger] indices[i] > 0xffff
}

/// The width in bytes of an index of the format.
pub open spec fn index_size(format: IndexFormat) -> nat {
    match format {
        IndexFormat::Uint16 => 2,
        IndexFormat::Uint32 => 4,
    }
}

/// The bytes of a list of records, one after the other.
pub open spec fn concat_records(records: Seq<Vec<u8>>) -> Seq<u8>
    decreases records.len(),
{
    if records.len() == 0 {
        Seq::empty()
    } else {
        concat_records(records.drop_last()) + records.last()@
    }
}

/// The indices of a list of primitives, corner by corner.
pub fn flatten_indices<const C: usize>(primitives: &Vec<[u32; C]>) -> (flat: Vec<u32>)
    ensures
        flat@ == flat_indices(primitives@),
{
    let mut flat: Vec<u32> = Vec::new();
    let mut i: usize = 0;
    assert(primitives@.subrange(0, 0) =~= Seq::empty());
    assert(flat@ =~= flat_indices(primitives@.subrange(0, 0)));
    while i < primitives.len()
        invariant
            i <= primitives.len(),
            flat@ == flat_indices(primitives@.subrange(0, i as int)),
        decreases primitives.len() - i,
    {
        let primitive = &primitives[i];
        let ghost before = flat@;
        let mut k: usize = 0;
        while k < C
            invariant
                k <= C,
                primitive@.len() == C,
                flat@ == before + primitive@.subrange(0, k as int),
            decreases C - k,
        {
            flat.push(primitive[k]);
            k = k + 1;
            assert(flat@ =~= before + primitive@.subrange(0, k as int));
        }
        proof {
            assert(primitive@.subrange(0, C as int) =~= primitive@);
            let prefix = primitives@.subrange(0, i + 1);
            assert(prefix.drop_last() =~= primitives@.subrange(0, i as int));
            assert(prefix.last() == primitives@[i as int]);
        }
        i = i + 1;
    }
    assert(primitives@.subrange(0, i as int) =~= primitives@);
    flat
}

/// The indices as 16-bit values, if each of them fits.
pub fn narrow_indices(indices: &Vec<u32>) -> (r: Option<Vec<u16>>)
    ensures
        r is None <==> needs_u32(indices@),
        r matches Some(narrow) ==> narrow@.len() == indices@.len() && forall|i: int|
            0 <= i < narrow@.len() ==> #[trigger] narrow@[i] == indices@[i],
{
    let mut narrow: Vec<u16> = Vec::new();
    let mut i: usize = 0;
    while i < indices.len()
        invariant
            i <= indices.len(),
            narrow@.len() == i,
            forall|j: int| 0 <= j < i ==> #[trigger] narrow@[j] == indices@[j],
            forall|j: int| 0 <= j < i ==> #[trigger] indices@[j] <= 0xffff,
        decreases indices.len() - i,
    {
        let index = indices[i];
        if index > 0xffff {
            assert(indices@[i as int] > 0xffff);
            return None;
        }
        narrow.push(index as u16);
        i = i + 1;
    }
    Some(narrow)
}

/// The bytes of a list of records, one after the other.
pub fn concat_bytes(records: &Vec<Vec<u8>>) -> (bytes: Vec<u8>)
    ensures
        bytes@ == concat_records(records@),
{
    let mut bytes: Vec<u8> = Vec::new();
    let mut i: usize = 0;
    assert(records@.subrange(0, 0) =~= Seq::empty());
    assert(bytes@ =~= concat_records(records@.subrange(0, 0)));
    while i < records.len()
        invariant
            i <= records.len(),
            bytes@ == concat_records(records@.subrange(0, i as int)),
        decreases records.len() - i,
    {
        let record = &records[i];
        let ghost before = bytes@;
        let mut k: usize = 0;
        while k < record.len()
            invariant
                k <= record.len(),
                bytes@ == before + record@.subrange(0, k as int),
            decreases record.len() - k,
        {
            bytes.push(record[k]);
            k = k + 1;
            assert(bytes@ =~= before + record@.subrange(0, k as int));
        }
        proof {
            assert(record@.subrange(0, record.len() as int) =~= record@);
            let prefix = records@.subrange(0, i + 1);
            assert(prefix.drop_last() =~= records@.subrange(0, i as int));
            assert(prefix.last() == records@[i as int]);
        }
        i = i + 1;
    }
    assert(records@.subrange(0, i as int) =~= records@);
    bytes
}

impl InstanceCount {
    /// A buffer that is full: it has room for what it holds.
    pub fn new(count: u32) -> (r: InstanceCount)
        ensures
            r == (InstanceCount { count, capacity: count }),
    {
        InstanceCount { count, capacity: count }
    }
}

impl<B: BufferType> GpuBuffer<B> {
    /// A buffer of the given bytes.
    pub fn new_raw(contents: Vec<u8>, extra: B::Extra) -> (r: GpuBuffer<B>)
        ensures
            r.contents@ == contents@,
            r.extra == extra,
    {
        GpuBuffer { contents, extra }
    }

    /// All bytes of the buffer.
    pub fn slice(&self) -> (bytes: &Vec<u8>)
        ensures
            bytes@ == self.contents@,
    {
        &self.contents
    }
}

impl<const C: usize> GpuBuffer<IndexBuf<C>> {
    /// The index buffer of a list of primitives.
    ///
    /// If every index fits in 16 bits, the indices are stored as 16-bit
    /// values; if not, as 32-bit values. Either way they are stored corner
    /// by corner, in the machine's byte order.
    pub fn indices(indices: Vec<[u32; C]>) -> (r: GpuBuffer<IndexBuf<C>>)
        requires
            flat_indices(indices@).len() <= u32::MAX,
        ensures
            r.extra.0 == flat_indices(indices@).len(),
            r.extra.1 == if needs_u32(flat_indices(indices@)) {
                IndexFormat::Uint32
            } else {
                IndexFormat::Uint16
            },
            r.contents@.len() == index_size(r.extra.1) * flat_indices(indices@).len(),
            forall|i: int|
                0 <= i < flat_indices(indices@).len() ==> native_bytes(
                    #[trigger] flat_indices(indices@)[i],
                    index_size(r.extra.1),
                    r.contents@.subrange(
                        index_size(r.extra.1) * i,
                        index_size(r.extra.1) * i + index_size(r.extra.1),
                    ),
                ),
    {
        let flat = flatten_indices(&indices);
        match narrow_indices(&flat) {
            Some(narrow) => {
                let contents = cast_u16_bytes(&narrow);
                assert forall|i: int| 0 <= i < flat@.len() implies native_bytes(
                    #[trigger] flat@[i],
                    2,
                    contents@.subrange(2 * i, 2 * i + 2),
                ) by {
                    assert(narrow@[i] as u32 == flat@[i]);
                }
                GpuBuffer { contents, extra: (flat.len() as u32, IndexFormat::Uint16) }
            },
            None => {
                let contents = cast_u32_bytes(&flat);
                GpuBuffer { contents, extra: (flat.len() as u32, IndexFormat::Uint32) }
            },
        }
    }

    /// The number of indices.
    pub fn count(&self) -> (n: u32)
        ensures
            n == self.extra.0,
    {
        self.extra.0
    }

    /// The width of the indices.
    pub fn index_format(&self) -> (format: IndexFormat)
        ensures
            format == self.extra.1,
    {
        self.extra.1
    }
}

impl GpuBuffer<VertexBuf> {
    /// The vertex buffer of a list of raw records: their bytes, one record
    /// after the other.
    pub fn vertices(vertices: &Vec<Vec<u8>>) -> (r: GpuBuffer<VertexBuf>)
        requires
            vertices.len() <= u32::MAX,
        ensures
            r.contents@ == concat_records(vertices@),
            r.extra == vertices@.len(),
    {
        GpuBuffer { contents: concat_bytes(vertices), extra: vertices.len() as u32 }
    }
}

impl GpuBuffer<UniformBuf> {
    /// The buffer of one uniform block: the bytes of its raw record.
    pub fn uniform(value: Vec<u8>) -> (r: GpuBuffer<UniformBuf>)
        ensures
            r.contents@ == value@,
    {
        GpuBuffer { contents: value, extra: () }
    }

    /// Replaces the block by another.
    pub fn update(&mut self, value: Vec<u8>)
        ensures
            final(self).contents@ == value@,
    {
        self.contents = value;
    }
}

impl GpuBuffer<InstanceBuf> {
    /// The number of instances.
    pub fn count(&self) -> (n: u32)
        ensures
            n == self.extra.count,
    {
        self.extra.count
    }

    /// The instance buffer of a list of raw records: their bytes, one
    /// record after the other. The buffer is full.
    pub fn instances(instances: &Vec<Vec<u8>>) -> (r: GpuBuffer<InstanceBuf>)
        requires
            instances.len() <= u32::MAX,
        ensures
            r.contents@ == concat_records(instances@),
            r.extra == (InstanceCount {
                count: instances@.len() as u32,
                capacity: instances@.len() as u32,
            }),
    {
        GpuBuffer {
            contents: concat_bytes(instances),
            extra: InstanceCount::new(instances.len() as u32),
        }
    }

    /// Replaces the instances, and says what the device has to do.
    ///
    /// More instances than the buffer has room for are written into the
    /// buffer that exists, and its capacity stays; otherwise a new buffer
    /// is made, which is full.
    pub fn update(&mut self, instances: &Vec<Vec<u8>>) -> (action: BufferAction)
        requires
            instances.len() <= u32::MAX,
        ensures
            final(self).contents@ == concat_records(instances@),
            final(self).extra.count == instances@.len(),
            action == if instances@.len() > old(self).extra.capacity {
                BufferAction::Write
            } else {
                BufferAction::Recreate
            },
            final(self).extra.capacity == if instances@.len() > old(self).extra.capacity {
                old(self).extra.capacity
            } else {
                instances@.len() as u32
            },
    {
        if instances.len() > self.extra.capacity as usize {
            self.contents = concat_bytes(instances);
            self.extra.count = instances.len() as u32;
            BufferAction::Write
        } else {
            self.contents = concat_bytes(instances);
            self.extra = InstanceCount::new(instances.len() as u32);
            BufferAction::Recreate
        }
    }
}

/// The buffers of a mesh: its vertices, and the indices of its primitives.
pub struct Mesh<const PRIMITIVE_SIZE: usize> {
    pub vertices: GpuBuffer<VertexBuf>,
    pub indices: GpuBuffer<IndexBuf<PRIMITIVE_SIZE>>,
}

impl<const C: usize> Mesh<C> {
    /// The mesh of a list of raw vertex records and a list of primitives.
    pub fn new(vertices: &Vec<Vec<u8>>, indices: Vec<[u32; C]>) -> (mesh: Mesh<C>)
        requires
            vertices.len() <= u32::MAX,
            flat_indices(indices@).len() <= u32::MAX,
        ensures
            mesh.vertices.contents@ == concat_records(vertices@),
            mesh.vertices.extra == vertices@.len(),
            mesh.indices.extra.0 == flat_indices(indices@).len(),
            mesh.indices.extra.1 == if needs_u32(flat_indices(indices@)) {
                IndexFormat::Uint32
            } else {
                IndexFormat::Uint16
            },
            mesh.indices.contents@.len() == index_size(mesh.indices.extra.1) * flat_indices(
                indices@,
            ).len(),
            forall|i: int|
                0 <= i < flat_indices(indices@).len() ==> native_bytes(
                    #[trigger] flat_indices(indices@)[i],
                    index_size(mesh.indices.extra.1),
                    mesh.indices.contents@.subrange(
                        index_size(mesh.indices.extra.1) * i,
                        index_size(mesh.indices.extra.1) * i + index_size(mesh.indices.extra.1),
                    ),
                ),
    {
        let vertices = GpuBuffer::vertices(vertices);
        let indices = GpuBuffer::indices(indices);
        Mesh { vertices, indices }
    }
}

} // verus!
