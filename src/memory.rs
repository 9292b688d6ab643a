//! Choice of the device memory type, and the host-visible image of the one
//! allocation that a job's buffers share.

use vstd::prelude::*;

verus! {

/// One memory type of the device, as the capability query reports it.
#[derive(Clone, Copy, Debug, PartialEq, Eq, Structural)]
pub struct MemoryTypeInfo {
    pub host_visible: bool,
    pub host_coherent: bool,
    /// Capacity in bytes of the heap that backs this memory type.
    pub heap_size: u64,
}

#[derive(Clone, Copy, Debug, PartialEq, Eq, Structural)]
pub enum AllocationError {
    NoSuitableMemoryType,
}

/// A memory type can hold an allocation of `size` bytes that the host maps
/// and reads without explicit flushes.
pub open spec fn memory_type_fits(t: MemoryTypeInfo, size: u64) -> bool {
    t.host_visible && t.host_coherent && t.heap_size > size
}

/// Picks the last memory type that fits an allocation of `size` bytes.
pub fn find_mem(types: &Vec<MemoryTypeInfo>, size: u64) -> (r: Result<usize, AllocationError>)
    ensures
        r is Err <==> forall|i: int| 0 <= i < types@.len() ==> !memory_type_fits(#[trigger] types@[i], size),
        r matches Ok(k) ==> {
            &&& k < types@.len()
            &&& memory_type_fits(types@[k as int], size)
            &&& forall|i: int| k < i < types@.len() ==> !memory_type_fits(#[trigger] types@[i], size)
        },
{
    let mut found: Option<usize> = None;
    let mut i: usize = 0;
    while i < types.len()
        invariant
            i <= types@.len(),
            found matches Some(k) ==> {
                &&& k < i
                &&& memory_type_fits(types@[k as int], size)
                &&& forall|j: int| k < j < i ==> !memory_type_fits(#[trigger] types@[j], size)
            },
            found is None ==> forall|j: int| 0 <= j < i ==> !memory_type_fits(#[trigger] types@[j], size),
        decreases types@.len() - i,
    {
        let t = types[i];
        if t.host_visible && t.host_coherent && t.heap_size > size {
            found = Some(i);
        }
        i = i + 1;
    }
    match found {
        Some(k) => Ok(k),
        None => Err(AllocationError::NoSuitableMemoryType),
    }
}

#[derive(Clone, Copy, Debug, PartialEq, Eq, Structural)]
pub enum BindError {
    /// The region lies outside the allocation, or the data is longer than
    /// the buffer.
    OutOfRange,
    /// The buffer already has its place in the allocation.
    AlreadyBound,
    /// The buffer has no place in the allocation yet.
    NotBound,
}

/// `data` copied over `bytes` from `offset` on; every other byte kept.
pub open spec fn write_region(bytes: Seq<u8>, offset: int, data: Seq<u8>) -> Seq<u8> {
    bytes.subrange(0, offset) + data + bytes.subrange(offset + data.len(), bytes.len() as int)
}

/// The `size` bytes of `bytes` from `offset` on.
pub open spec fn read_region(bytes: Seq<u8>, offset: int, size: int) -> Seq<u8> {
    bytes.subrange(offset, offset + size)
}

/// What is written into a region is what is read back from it.
pub proof fn lemma_round_trip(bytes: Seq<u8>, offset: int, data: Seq<u8>)
    requires
        0 <= offset,
        offset + data.len() <= bytes.len(),
    ensures
        read_region(write_region(bytes, offset, data), offset, data.len() as int) == data,
        write_region(bytes, offset, data).len() == bytes.len(),
{
    assert(read_region(write_region(bytes, offset, data), offset, data.len() as int) =~= data);
}

/// A write into one region leaves a disjoint region as it was.
pub proof fn lemma_write_keeps_others(
    bytes: Seq<u8>,
    offset: int,
    data: Seq<u8>,
    other: int,
    other_size: int,
)
    requires
        0 <= offset,
        offset + data.len() <= bytes.len(),
        0 <= other,
        0 <= other_size,
        other + other_size <= bytes.len(),
        offset + data.len() <= other || other + other_size <= offset,
    ensures
        read_region(write_region(bytes, offset, data), other, other_size) == read_region(
            bytes,
            other,
            other_size,
        ),
{
    assert(read_region(write_region(bytes, offset, data), other, other_size) =~= read_region(
        bytes,
        other,
        other_size,
    ));
}

/// The abstract content of a pool.
pub ghost struct PoolView {
    pub total_size: nat,
    pub bytes: Seq<u8>,
    /// Declared byte size of each buffer.
    pub sizes: Seq<u64>,
    /// Offset of each buffer that has been bound.
    pub offsets: Seq<Option<u64>>,
}

impl PoolView {
    pub open spec fn region_fits(self, offset: int, size: int) -> bool {
        offset < self.total_size && offset + size <= self.total_size
    }

    pub open spec fn well_formed(self) -> bool {
        &&& self.bytes.len() == self.total_size
        &&& self.sizes.len() == self.offsets.len()
        &&& forall|i: int|
            0 <= i < self.offsets.len() && #[trigger] self.offsets[i] is Some ==> self.region_fits(
                self.offsets[i]->0 as int,
                self.sizes[i] as int,
            )
    }
}

/// The host-visible image of one device allocation, with the place of each
/// buffer in it. Writes and reads are checked against the buffer's bounds.
pub struct MemoryPool {
    total_size: u64,
    bytes: Vec<u8>,
    sizes: Vec<u64>,
    offsets: Vec<Option<u64>>,
}

impl View for MemoryPool {
    type V = PoolView;

    closed spec fn view(&self) -> PoolView {
        PoolView {
            total_size: self.total_size as nat,
            bytes: self.bytes@,
            sizes: self.sizes@,
            offsets: self.offsets@,
        }
    }
}

impl MemoryPool {
    pub open spec fn wf(&self) -> bool {
        self@.well_formed()
    }

    /// A zero-filled pool of `total_size` bytes for buffers of the given
    /// sizes, none of them bound yet.
    pub fn new(total_size: u64, sizes: &Vec<u64>) -> (r: MemoryPool)
        requires
            total_size <= usize::MAX,
        ensures
            r.wf(),
            r@.total_size == total_size,
            r@.bytes == Seq::new(total_size as nat, |i: int| 0u8),
            r@.sizes == sizes@,
            r@.offsets == Seq::new(sizes@.len(), |i: int| None::<u64>),
    {
        let mut bytes: Vec<u8> = Vec::new();
        let mut k: usize = 0;
        while k < total_size as usize
            invariant
                k <= total_size,
                total_size <= usize::MAX,
                bytes@ == Seq::new(k as nat, |i: int| 0u8),
            decreases total_size - k,
        {
            bytes.push(0u8);
            k = k + 1;
            assert(bytes@ =~= Seq::new(k as nat, |i: int| 0u8));
        }
        let mut offsets: Vec<Option<u64>> = Vec::new();
        let mut j: usize = 0;
        while j < sizes.len()
            invariant
                j <= sizes@.len(),
                offsets@ == Seq::new(j as nat, |i: int| None::<u64>),
            decreases sizes@.len() - j,
        {
            offsets.push(None);
            j = j + 1;
            assert(offsets@ =~= Seq::new(j as nat, |i: int| None::<u64>));
        }
        MemoryPool { total_size, bytes, sizes: sizes.clone(), offsets }
    }

    pub fn total_size(&self) -> (r: u64)
        ensures
            r == self@.total_size,
    {
        self.total_size
    }

    pub fn buffer_count(&self) -> (r: usize)
        requires
            self.wf(),
        ensures
            r == self@.sizes.len(),
            r == self@.offsets.len(),
    {
        self.sizes.len()
    }

    /// The whole image, in the order of the allocation's bytes.
    pub fn bytes(&self) -> (r: &Vec<u8>)
        ensures
            r@ == self@.bytes,
    {
        &self.bytes
    }

    /// Gives `buffer` its place at `offset`. A buffer is bound once, and its
    /// region must start inside the allocation and end within it.
    pub fn bind(&mut self, buffer: usize, offset: u64) -> (r: Result<(), BindError>)
        requires
            old(self).wf(),
            buffer < old(self)@.sizes.len(),
        ensures
            final(self).wf(),
            old(self)@.offsets[buffer as int] is Some ==> r == Err::<(), BindError>(
                BindError::AlreadyBound,
            ),
            old(self)@.offsets[buffer as int] is None && !old(self)@.region_fits(
                offset as int,
                old(self)@.sizes[buffer as int] as int,
            ) ==> r == Err::<(), BindError>(BindError::OutOfRange),
            r is Ok <==> old(self)@.offsets[buffer as int] is None && old(self)@.region_fits(
                offset as int,
                old(self)@.sizes[buffer as int] as int,
            ),
            r is Ok ==> final(self)@ == (PoolView {
                offsets: old(self)@.offsets.update(buffer as int, Some(offset)),
                ..old(self)@
            }),
            r is Err ==> final(self)@ == old(self)@,
    {
        if self.offsets[buffer].is_some() {
            return Err(BindError::AlreadyBound);
        }
        let size = self.sizes[buffer];
        if offset >= self.total_size || size > self.total_size - offset {
            return Err(BindError::OutOfRange);
        }
        self.offsets.set(buffer, Some(offset));
        Ok(())
    }

    /// Copies `data` to the start of `buffer`'s region. Data longer than the
    /// buffer is refused.
    pub fn write(&mut self, buffer: usize, data: &Vec<u8>) -> (r: Result<(), BindError>)
        requires
            old(self).wf(),
            buffer < old(self)@.sizes.len(),
        ensures
            final(self).wf(),
            old(self)@.offsets[buffer as int] is None ==> r == Err::<(), BindError>(
                BindError::NotBound,
            ),
            old(self)@.offsets[buffer as int] is Some && data@.len() > old(self)@.sizes[buffer as int]
                ==> r == Err::<(), BindError>(BindError::OutOfRange),
            r is Ok <==> old(self)@.offsets[buffer as int] is Some && data@.len() <= old(
                self,
            )@.sizes[buffer as int],
            r is Ok ==> final(self)@ == (PoolView {
                bytes: write_region(
                    old(self)@.bytes,
                    old(self)@.offsets[buffer as int]->0 as int,
                    data@,
                ),
                ..old(self)@
            }),
            r is Err ==> final(self)@ == old(self)@,
    {
        let offset = match self.offsets[buffer] {
            Some(o) => o,
            None => {
                return Err(BindError::NotBound);
            },
        };
        if data.len() as u64 > self.sizes[buffer] {
            return Err(BindError::OutOfRange);
        }
        let ghost original = self.bytes@;
        let total = self.bytes.len();
        assert(self@.offsets[buffer as int] is Some);
        assert(offset < total);
        let start = offset as usize;
        let mut k: usize = 0;
        while k < data.len()
            invariant
                self.wf(),
                self.total_size == old(self).total_size,
                self.sizes@ == old(self).sizes@,
                self.offsets@ == old(self).offsets@,
                original == old(self).bytes@,
                start == offset,
                offset + data@.len() <= self.total_size,
                k <= data@.len(),
                self.bytes@.len() == original.len(),
                original.len() == total,
                forall|j: int|
                    0 <= j < original.len() ==> #[trigger] self.bytes@[j] == if start <= j < start
                        + k {
                        data@[j - start]
                    } else {
                        original[j]
                    },
            decreases data@.len() - k,
        {
            self.bytes.set(start + k, data[k]);
            k = k + 1;
        }
        assert(self.bytes@ =~= write_region(original, offset as int, data@));
        Ok(())
    }

    /// The bytes of `buffer`'s whole region.
    pub fn read(&self, buffer: usize) -> (r: Result<Vec<u8>, BindError>)
        requires
            self.wf(),
            buffer < self@.sizes.len(),
        ensures
            r is Err <==> self@.offsets[buffer as int] is None,
            r is Err ==> r == Err::<Vec<u8>, BindError>(BindError::NotBound),
            r matches Ok(v) ==> v@ == read_region(
                self@.bytes,
                self@.offsets[buffer as int]->0 as int,
                self@.sizes[buffer as int] as int,
            ),
    {
        let offset = match self.offsets[buffer] {
            Some(o) => o,
            None => {
                return Err(BindError::NotBound);
            },
        };
        let total = self.bytes.len();
        assert(self@.offsets[buffer as int] is Some);
        assert(offset < total && offset + self.sizes[buffer as int] <= total);
        let start = offset as usize;
        let size = self.sizes[buffer] as usize;
        let mut out: Vec<u8> = Vec::new();
        let mut k: usize = 0;
        while k < size
            invariant
                self.wf(),
                start == offset,
                offset + size <= self@.total_size,
                self@.bytes.len() == self@.total_size,
                self@.bytes.len() == total,
                k <= size,
                out@ == self@.bytes.subrange(start as int, start + k),
            decreases size - k,
        {
            out.push(self.bytes[start + k]);
            k = k + 1;
            assert(out@ =~= self@.bytes.subrange(start as int, start + k));
        }
        Ok(out)
    }

    /// Replaces the image with the allocation's content as the device left it.
    pub fn load_device_image(&mut self, image: Vec<u8>) -> (r: Result<(), BindError>)
        requires
            old(self).wf(),
        ensures
            final(self).wf(),
            r is Ok <==> image@.len() == old(self)@.total_size,
            r is Err ==> r == Err::<(), BindError>(BindError::OutOfRange) && final(self)@ == old(
                self,
            )@,
            r is Ok ==> final(self)@ == (PoolView { bytes: image@, ..old(self)@ }),
    {
        if image.len() as u64 != self.total_size {
            return Err(BindError::OutOfRange);
        }
        self.bytes = image;
        Ok(())
    }
}

} // verus!
