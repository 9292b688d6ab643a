//! The job: declared with a builder, then driven through upload, binding,
//! encoding and submission, and polled until it completes.

use crate::binding::{plan_bindings, KernelBindings, SlotDecl};
pub use crate::def::BindPoint;
use crate::def::{BufferType, Dispatch};
use crate::encoder::{encode_commands, kernel_commands, Command};
use crate::layout::{
    alignments_nonzero, compute_non_overlapping_buffer_alignment, layout_end, layout_offset,
    lemma_end_monotone, lemma_end_step, lemma_layout_disjoint, MemoryRequirement,
};
use crate::memory::{
    find_mem, lemma_round_trip, lemma_write_keeps_others, memory_type_fits, read_region,
    write_region, AllocationError, BindError, MemoryPool, MemoryTypeInfo, PoolView,
};
use crate::timing::{span_or_zero, JobTimings, JobTimingsBuilder};
use crate::tracker::{
    next_fence, observe_fence, status_from_fence, status_of, wait_step, wait_step_of, FenceStates,
    FenceTrack, JobStatus, WaitStep,
};
use vstd::prelude::*;

verus! {

fn copy_bytes(v: &Vec<u8>) -> (r: Vec<u8>)
    ensures
        r@ == v@,
{
    let mut out: Vec<u8> = Vec::new();
    let mut i: usize = 0;
    while i < v.len()
        invariant
            i <= v@.len(),
            out@ == v@.subrange(0, i as int),
        decreases v@.len() - i,
    {
        out.push(v[i]);
        i = i + 1;
        assert(out@ =~= v@.subrange(0, i as int));
    }
    assert(out@ =~= v@);
    out
}

fn zero_bytes(n: usize) -> (r: Vec<u8>)
    ensures
        r@ == Seq::new(n as nat, |i: int| 0u8),
{
    let mut out: Vec<u8> = Vec::new();
    let mut i: usize = 0;
    while i < n
        invariant
            i <= n,
            out@ == Seq::new(i as nat, |k: int| 0u8),
        decreases n - i,
    {
        out.push(0u8);
        i = i + 1;
        assert(out@ =~= Seq::new(i as nat, |k: int| 0u8));
    }
    out
}

/// A storage buffer of the job and the bytes it starts with.
#[derive(Debug)]
pub struct Buffer {
    pub bind: BindPoint,
    pub data: Vec<u8>,
}

impl Buffer {
    /// A buffer holding a copy of `data`.
    pub fn new(bind: BindPoint, data: &Vec<u8>) -> (r: Buffer)
        ensures
            r.bind == bind,
            r.data@ == data@,
    {
        Buffer { bind, data: copy_bytes(data) }
    }

    /// Size in bytes.
    pub fn size(&self) -> (r: usize)
        ensures
            r == self.data@.len(),
    {
        self.data.len()
    }
}

/// A uniform block of the job, already laid out as bytes.
#[derive(Debug)]
pub struct Uniform {
    pub bind: BindPoint,
    pub data: Vec<u8>,
}

impl Uniform {
    pub fn new(bind: BindPoint, data: &Vec<u8>) -> (r: Uniform)
        ensures
            r.bind == bind,
            r.data@ == data@,
    {
        Uniform { bind, data: copy_bytes(data) }
    }
}

/// Declares a job: its storage buffers, uniform blocks, kernels and one
/// dispatch per kernel, each list in the order given.
pub struct JobBuilder {
    pub buffers: Vec<Buffer>,
    pub uniforms: Vec<Uniform>,
    pub shaders: Vec<Vec<u8>>,
    pub dispatch: Vec<Dispatch>,
}

impl JobBuilder {
    pub fn new() -> (r: JobBuilder)
        ensures
            r.buffers@.len() == 0,
            r.uniforms@.len() == 0,
            r.shaders@.len() == 0,
            r.dispatch@.len() == 0,
    {
        JobBuilder {
            buffers: Vec::new(),
            uniforms: Vec::new(),
            shaders: Vec::new(),
            dispatch: Vec::new(),
        }
    }

    /// Adds a storage buffer that starts with a copy of `data`.
    pub fn add_buffer(self, data: &Vec<u8>, set: u32, bind: u32) -> (r: JobBuilder)
        ensures
            r.buffers@.len() == self.buffers@.len() + 1,
            r.buffers@.drop_last() == self.buffers@,
            r.buffers@.last().bind == (BindPoint { set, bind }),
            r.buffers@.last().data@ == data@,
            r.uniforms@ == self.uniforms@,
            r.shaders@ == self.shaders@,
            r.dispatch@ == self.dispatch@,
    {
        let mut b = self;
        b.buffers.push(Buffer::new(BindPoint::new(set, bind), data));
        proof {
            assert(b.buffers@.drop_last() =~= self.buffers@);
        }
        b
    }

    /// Adds a storage buffer of `size` bytes with no data of its own; it
    /// starts zeroed.
    pub fn add_ro_buffer(self, size: usize, set: u32, bind: u32) -> (r: JobBuilder)
        ensures
            r.buffers@.len() == self.buffers@.len() + 1,
            r.buffers@.drop_last() == self.buffers@,
            r.buffers@.last().bind == (BindPoint { set, bind }),
            r.buffers@.last().data@ == Seq::new(size as nat, |i: int| 0u8),
            r.uniforms@ == self.uniforms@,
            r.shaders@ == self.shaders@,
            r.dispatch@ == self.dispatch@,
    {
        let mut b = self;
        b.buffers.push(Buffer { bind: BindPoint::new(set, bind), data: zero_bytes(size) });
        proof {
            assert(b.buffers@.drop_last() =~= self.buffers@);
        }
        b
    }

    /// Adds a uniform block holding a copy of `data`.
    pub fn add_ubo(self, data: &Vec<u8>, set: u32, bind: u32) -> (r: JobBuilder)
        ensures
            r.uniforms@.len() == self.uniforms@.len() + 1,
            r.uniforms@.drop_last() == self.uniforms@,
            r.uniforms@.last().bind == (BindPoint { set, bind }),
            r.uniforms@.last().data@ == data@,
            r.buffers@ == self.buffers@,
            r.shaders@ == self.shaders@,
            r.dispatch@ == self.dispatch@,
    {
        let mut b = self;
        b.uniforms.push(Uniform::new(BindPoint::new(set, bind), data));
        proof {
            assert(b.uniforms@.drop_last() =~= self.uniforms@);
        }
        b
    }

    /// Adds a kernel, given as its compiled binary.
    pub fn add_shader(self, shader: Vec<u8>) -> (r: JobBuilder)
        ensures
            r.shaders@ == self.shaders@.push(shader),
            r.buffers@ == self.buffers@,
            r.uniforms@ == self.uniforms@,
            r.dispatch@ == self.dispatch@,
    {
        let mut b = self;
        b.shaders.push(shader);
        b
    }

    /// Adds the workgroup counts of the next kernel.
    pub fn add_dispatch(self, dispatch: (u32, u32, u32)) -> (r: JobBuilder)
        ensures
            r.dispatch@ == self.dispatch@.push(
                Dispatch { x: dispatch.0, y: dispatch.1, z: dispatch.2 },
            ),
            r.buffers@ == self.buffers@,
            r.uniforms@ == self.uniforms@,
            r.shaders@ == self.shaders@,
    {
        let mut b = self;
        b.dispatch.push(Dispatch::new(dispatch.0, dispatch.1, dispatch.2));
        b
    }

    /// The job as declared, with nothing done on the device yet.
    pub fn build(self) -> (r: Job)
        ensures
            r.wf(),
            r@.buffers == self.buffers@,
            r@.uniforms == self.uniforms@,
            r@.shaders == self.shaders@,
            r@.dispatch == self.dispatch@,
            r@.phase == JobPhase::Declared,
            r@.fence == FenceTrack::Absent,
            r@.pool is None,
    {
        Job {
            buffers: self.buffers,
            uniforms: self.uniforms,
            shaders: self.shaders,
            dispatch: self.dispatch,
            phase: JobPhase::Declared,
            fence: FenceTrack::Absent,
            pool: None,
            timing: JobTimingsBuilder::new(),
        }
    }
}

/// How far a job has gone.
#[derive(Clone, Copy, Debug, PartialEq, Eq, Structural)]
pub enum JobPhase {
    Declared,
    /// Buffers placed in the allocation and filled.
    Uploaded,
    /// Descriptor bindings planned.
    Bound,
    /// Commands encoded and handed over for submission.
    Submitted,
}

#[derive(Clone, Copy, Debug, PartialEq, Eq, Structural)]
pub enum JobError {
    /// The step does not follow the one the job is at.
    WrongPhase,
    /// The job was already executed; a job runs once.
    AlreadyExecuted,
    /// Not one memory requirement per buffer.
    RequirementCountMismatch,
    /// The allocation would not fit in memory addresses.
    LayoutOverflow,
    Allocation(AllocationError),
    Bind(BindError),
    /// Not one dispatch per kernel.
    DispatchMismatch,
    /// A dispatch with a zero workgroup count.
    InvalidDispatch,
}

/// Where the buffers went: the memory type to allocate from (none when there
/// is nothing to allocate), the allocation's size, and each buffer's offset.
#[derive(Debug)]
pub struct UploadPlan {
    pub memory_type: Option<usize>,
    pub total_size: u64,
    pub offsets: Vec<u64>,
}

/// A job and all that its execution has produced so far.
pub struct Job {
    buffers: Vec<Buffer>,
    uniforms: Vec<Uniform>,
    shaders: Vec<Vec<u8>>,
    dispatch: Vec<Dispatch>,
    phase: JobPhase,
    fence: FenceTrack,
    pool: Option<MemoryPool>,
    timing: JobTimingsBuilder,
}

pub ghost struct JobView {
    pub buffers: Seq<Buffer>,
    pub uniforms: Seq<Uniform>,
    pub shaders: Seq<Vec<u8>>,
    pub dispatch: Seq<Dispatch>,
    pub phase: JobPhase,
    pub fence: FenceTrack,
    pub pool: Option<PoolView>,
    pub timing: JobTimingsBuilder,
}

pub open spec fn fits_in(offset: int, size: int, total: int) -> bool {
    offset < total && offset + size <= total
}

/// The allocation's bytes once the first `n` buffers have been written at
/// their offsets over a zeroed allocation of `total` bytes.
pub open spec fn initial_image(
    reqs: Seq<MemoryRequirement>,
    data: Seq<Seq<u8>>,
    total: nat,
    n: int,
) -> Seq<u8>
    decreases n,
{
    if n <= 0 {
        Seq::new(total, |i: int| 0u8)
    } else {
        write_region(
            initial_image(reqs, data, total, n - 1),
            layout_offset(reqs, n - 1),
            data[n - 1],
        )
    }
}

/// Every buffer of the allocation: the storage buffers, then the uniform
/// blocks.
pub open spec fn slots_of(buffers: Seq<Buffer>, uniforms: Seq<Uniform>) -> Seq<SlotDecl> {
    Seq::new(
        buffers.len() + uniforms.len(),
        |i: int|
            if i < buffers.len() {
                SlotDecl {
                    bind: buffers[i].bind,
                    kind: BufferType::Storage,
                    size: buffers[i].data@.len() as u64,
                }
            } else {
                SlotDecl {
                    bind: uniforms[i - buffers.len()].bind,
                    kind: BufferType::Uniform,
                    size: uniforms[i - buffers.len()].data@.len() as u64,
                }
            },
    )
}

/// The bytes each buffer of the allocation starts with.
pub open spec fn slot_data_of(buffers: Seq<Buffer>, uniforms: Seq<Uniform>) -> Seq<Seq<u8>> {
    Seq::new(
        buffers.len() + uniforms.len(),
        |i: int|
            if i < buffers.len() {
                buffers[i].data@
            } else {
                uniforms[i - buffers.len()].data@
            },
    )
}

/// Every buffer's bytes fit within the size the device asked for it.
pub open spec fn data_within_requirements(reqs: Seq<MemoryRequirement>, data: Seq<Seq<u8>>, n: int) -> bool {
    forall|k: int| 0 <= k < n ==> (#[trigger] data[k]).len() <= reqs[k].size
}

proof fn lemma_initial_image_len(
    reqs: Seq<MemoryRequirement>,
    data: Seq<Seq<u8>>,
    total: nat,
    n: int,
)
    requires
        alignments_nonzero(reqs),
        0 <= n <= reqs.len(),
        data_within_requirements(reqs, data, n),
        layout_end(reqs, n) <= total,
    ensures
        initial_image(reqs, data, total, n).len() == total,
    decreases n,
{
    if n > 0 {
        lemma_end_monotone(reqs, n - 1, n);
        lemma_initial_image_len(reqs, data, total, n - 1);
        lemma_end_step(reqs, n - 1);
        assert(data[n - 1].len() <= reqs[n - 1].size);
    }
}

/// Right after the upload, and before any kernel runs, each buffer's region
/// holds exactly the bytes the buffer was declared with.
pub proof fn lemma_upload_round_trip(
    reqs: Seq<MemoryRequirement>,
    data: Seq<Seq<u8>>,
    total: nat,
    n: int,
    i: int,
)
    requires
        alignments_nonzero(reqs),
        0 <= i < n <= reqs.len(),
        data_within_requirements(reqs, data, n),
        layout_end(reqs, n) <= total,
    ensures
        read_region(
            initial_image(reqs, data, total, n),
            layout_offset(reqs, i),
            data[i].len() as int,
        ) == data[i],
    decreases n,
{
    lemma_end_monotone(reqs, n - 1, n);
    lemma_initial_image_len(reqs, data, total, n - 1);
    lemma_end_step(reqs, n - 1);
    lemma_end_step(reqs, i);
    lemma_end_monotone(reqs, i + 1, n);
    assert(data[n - 1].len() <= reqs[n - 1].size);
    assert(data[i].len() <= reqs[i].size);
    let before = initial_image(reqs, data, total, n - 1);
    if i == n - 1 {
        lemma_round_trip(before, layout_offset(reqs, i), data[i]);
    } else {
        lemma_upload_round_trip(reqs, data, total, n - 1, i);
        lemma_layout_disjoint(reqs, i, n - 1);
        lemma_write_keeps_others(
            before,
            layout_offset(reqs, n - 1),
            data[n - 1],
            layout_offset(reqs, i),
            data[i].len() as int,
        );
    }
}

/// The pool holds every slot, at its size, each one bound.
pub open spec fn pool_matches(p: PoolView, slots: Seq<SlotDecl>) -> bool {
    &&& p.well_formed()
    &&& p.sizes.len() == slots.len()
    &&& forall|i: int|
        0 <= i < slots.len() ==> #[trigger] p.sizes[i] == slots[i].size && p.offsets[i] is Some
}

impl JobView {
    pub open spec fn slots(self) -> Seq<SlotDecl> {
        slots_of(self.buffers, self.uniforms)
    }

    pub open spec fn slot_data(self) -> Seq<Seq<u8>> {
        slot_data_of(self.buffers, self.uniforms)
    }

    pub open spec fn wf(self) -> bool {
        &&& (self.fence != FenceTrack::Absent <==> self.phase == JobPhase::Submitted)
        &&& (self.phase == JobPhase::Declared <==> self.pool is None)
        &&& self.pool matches Some(p) ==> pool_matches(p, self.slots())
        &&& self.timing.wf()
    }

    /// Why an upload with these requirements and memory types fails, if it
    /// does.
    pub open spec fn upload_error(
        self,
        reqs: Seq<MemoryRequirement>,
        types: Seq<MemoryTypeInfo>,
    ) -> Option<JobError> {
        let n = self.slots().len() as int;
        let total = layout_end(reqs, n);
        if self.phase != JobPhase::Declared {
            Some(JobError::WrongPhase)
        } else if reqs.len() != n {
            Some(JobError::RequirementCountMismatch)
        } else if total > u64::MAX || total > usize::MAX {
            Some(JobError::LayoutOverflow)
        } else if total > 0 && forall|i: int|
            0 <= i < types.len() ==> !memory_type_fits(#[trigger] types[i], total as u64) {
            Some(JobError::Allocation(AllocationError::NoSuitableMemoryType))
        } else if exists|i: int|
            0 <= i < n && !fits_in(
                #[trigger] layout_offset(reqs, i),
                self.slots()[i].size as int,
                total,
            ) {
            Some(JobError::Bind(BindError::OutOfRange))
        } else {
            None
        }
    }

    /// Why `execute` fails, if it does.
    pub open spec fn execute_error(self) -> Option<JobError> {
        if self.phase == JobPhase::Submitted {
            Some(JobError::AlreadyExecuted)
        } else if self.phase != JobPhase::Bound {
            Some(JobError::WrongPhase)
        } else if self.dispatch.len() != self.shaders.len() {
            Some(JobError::DispatchMismatch)
        } else if exists|k: int| 0 <= k < self.dispatch.len() && !(#[trigger] self.dispatch[k]).is_valid() {
            Some(JobError::InvalidDispatch)
        } else {
            None
        }
    }
}

impl View for Job {
    type V = JobView;

    closed spec fn view(&self) -> JobView {
        JobView {
            buffers: self.buffers@,
            uniforms: self.uniforms@,
            shaders: self.shaders@,
            dispatch: self.dispatch@,
            phase: self.phase,
            fence: self.fence,
            pool: match self.pool {
                Some(p) => Some(p@),
                None => None,
            },
            timing: self.timing,
        }
    }
}

impl Job {
    pub open spec fn wf(&self) -> bool {
        self@.wf()
    }

    /// Every buffer of the allocation, storage buffers first, with its bind
    /// point, kind and size.
    pub fn slot_decls(&self) -> (r: Vec<SlotDecl>)
        ensures
            r@ == self@.slots(),
    {
        let ghost slots = self@.slots();
        let mut out: Vec<SlotDecl> = Vec::new();
        let mut i: usize = 0;
        while i < self.buffers.len()
            invariant
                i <= self.buffers@.len(),
                slots == self@.slots(),
                out@.len() == i,
                forall|k: int| 0 <= k < i ==> #[trigger] out@[k] == slots[k],
            decreases self.buffers@.len() - i,
        {
            let b = &self.buffers[i];
            out.push(SlotDecl { bind: b.bind, kind: BufferType::Storage, size: b.data.len() as u64 });
            i = i + 1;
        }
        let mut j: usize = 0;
        while j < self.uniforms.len()
            invariant
                j <= self.uniforms@.len(),
                slots == self@.slots(),
                out@.len() == self.buffers@.len() + j,
                forall|k: int| 0 <= k < self.buffers@.len() + j ==> #[trigger] out@[k] == slots[k],
            decreases self.uniforms@.len() - j,
        {
            let u = &self.uniforms[j];
            out.push(SlotDecl { bind: u.bind, kind: BufferType::Uniform, size: u.data.len() as u64 });
            j = j + 1;
        }
        assert(out@ =~= slots);
        out
    }

    /// The kernels' binaries, in order.
    pub fn shaders(&self) -> (r: &Vec<Vec<u8>>)
        ensures
            r@ == self@.shaders,
    {
        &self.shaders
    }

    /// The host image of the allocation, once the buffers are uploaded.
    pub fn memory_image(&self) -> (r: Option<&Vec<u8>>)
        ensures
            r is Some <==> self@.pool is Some,
            r matches Some(v) ==> v@ == self@.pool->0.bytes,
    {
        match &self.pool {
            Some(p) => Some(p.bytes()),
            None => None,
        }
    }

    /// Places every buffer in one allocation, as the device's requirements
    /// (one per buffer, in the order of `slot_decls`) allow, picks the memory
    /// type to allocate from, and fills the allocation's host image with each
    /// buffer's bytes. An empty job needs no allocation and no memory type.
    pub fn upload_buffers(
        &mut self,
        requirements: &Vec<MemoryRequirement>,
        memory_types: &Vec<MemoryTypeInfo>,
    ) -> (r: Result<UploadPlan, JobError>)
        requires
            old(self).wf(),
            alignments_nonzero(requirements@),
        ensures
            final(self).wf(),
            r is Ok <==> old(self)@.upload_error(requirements@, memory_types@) is None,
            r matches Err(e) ==> old(self)@.upload_error(requirements@, memory_types@) == Some(e)
                && final(self)@ == old(self)@,
            r matches Ok(plan) ==> {
                let n = old(self)@.slots().len() as int;
                let total = layout_end(requirements@, n);
                &&& plan.total_size == total
                &&& plan.offsets@.len() == n
                &&& forall|i: int|
                    0 <= i < n ==> #[trigger] plan.offsets@[i] == layout_offset(requirements@, i)
                &&& total == 0 ==> plan.memory_type is None
                &&& total > 0 ==> (plan.memory_type matches Some(k) && k < memory_types@.len()
                    && memory_type_fits(memory_types@[k as int], total as u64) && forall|i: int|
                    k < i < memory_types@.len() ==> !memory_type_fits(
                        #[trigger] memory_types@[i],
                        total as u64,
                    ))
                &&& data_within_requirements(requirements@, old(self)@.slot_data(), n) ==> forall|i: int|
                    0 <= i < n ==> read_region(
                        final(self)@.pool->0.bytes,
                        layout_offset(requirements@, i),
                        (#[trigger] old(self)@.slot_data()[i]).len() as int,
                    ) == old(self)@.slot_data()[i]
                &&& final(self)@ == (JobView {
                    phase: JobPhase::Uploaded,
                    pool: Some(
                        PoolView {
                            total_size: total as nat,
                            bytes: initial_image(
                                requirements@,
                                old(self)@.slot_data(),
                                total as nat,
                                n,
                            ),
                            sizes: Seq::new(n as nat, |i: int| old(self)@.slots()[i].size),
                            offsets: Seq::new(
                                n as nat,
                                |i: int| Some(layout_offset(requirements@, i) as u64),
                            ),
                        },
                    ),
                    timing: final(self)@.timing,
                    ..old(self)@
                })
            },
    {
        let ghost reqs = requirements@;
        let ghost jv = self@;
        let timing = self.timing.start_upload();
        if self.phase != JobPhase::Declared {
            return Err(JobError::WrongPhase);
        }
        let slots = self.slot_decls();
        let n = slots.len();
        if requirements.len() != n {
            return Err(JobError::RequirementCountMismatch);
        }
        let layout = match compute_non_overlapping_buffer_alignment(requirements) {
            Some(l) => l,
            None => {
                return Err(JobError::LayoutOverflow);
            },
        };
        let total = layout.total_size;
        if total > usize::MAX as u64 {
            return Err(JobError::LayoutOverflow);
        }
        let memory_type: Option<usize> = if total == 0 {
            None
        } else {
            match find_mem(memory_types, total) {
                Ok(k) => Some(k),
                Err(e) => {
                    return Err(JobError::Allocation(e));
                },
            }
        };
        let mut sizes: Vec<u64> = Vec::new();
        let mut s: usize = 0;
        while s < n
            invariant
                s <= n,
                n == slots@.len(),
                sizes@.len() == s,
                forall|k: int| 0 <= k < s ==> #[trigger] sizes@[k] == slots@[k].size,
            decreases n - s,
        {
            sizes.push(slots[s].size);
            s = s + 1;
        }
        let mut pool = MemoryPool::new(total, &sizes);
        let nb = self.buffers.len();
        let mut i: usize = 0;
        while i < n
            invariant
                jv == self@,
                reqs == requirements@,
                self.wf(),
                self.phase == JobPhase::Declared,
                nb == self.buffers@.len(),
                slots@ == jv.slots(),
                n == slots@.len(),
                reqs.len() == n,
                i <= n,
                total == layout_end(reqs, n as int),
                total <= usize::MAX,
                layout.offsets@.len() == n,
                forall|k: int| 0 <= k < n ==> #[trigger] layout.offsets@[k] == layout_offset(reqs, k),
                pool.wf(),
                pool@.total_size == total,
                pool@.sizes == sizes@,
                sizes@.len() == n,
                forall|k: int| 0 <= k < n ==> #[trigger] sizes@[k] == slots@[k].size,
                forall|k: int| 0 <= k < i ==> #[trigger] pool@.offsets[k] == Some(layout.offsets@[k]),
                forall|k: int| i <= k < n ==> #[trigger] pool@.offsets[k] is None,
                forall|k: int|
                    0 <= k < i ==> fits_in(
                        #[trigger] layout_offset(reqs, k),
                        slots@[k].size as int,
                        total as int,
                    ),
                pool@.bytes == initial_image(reqs, jv.slot_data(), total as nat, i as int),
                total > 0 ==> (memory_type matches Some(m) && m < memory_types@.len()
                    && memory_type_fits(memory_types@[m as int], total)),
            decreases n - i,
        {
            let off = layout.offsets[i];
            match pool.bind(i, off) {
                Ok(()) => {},
                Err(e) => {
                    proof {
                        assert(e == BindError::OutOfRange);
                        assert(total > 0 ==> memory_type_fits(
                            memory_types@[memory_type->0 as int],
                            total,
                        ));
                        assert(!fits_in(
                            layout_offset(reqs, i as int),
                            slots@[i as int].size as int,
                            total as int,
                        ));
                    }
                    return Err(JobError::Bind(e));
                },
            }
            let data: &Vec<u8> = if i < nb {
                &self.buffers[i].data
            } else {
                &self.uniforms[i - nb].data
            };
            assert(data@ == jv.slot_data()[i as int]);
            let dl = data.len();
            assert(slots@[i as int].size == dl as u64);
            assert(dl as u64 == dl);
            let w = pool.write(i, data);
            assert(w is Ok);
            i = i + 1;
        }
        let plan = UploadPlan { memory_type, total_size: total, offsets: layout.offsets };
        proof {
            assert(pool@.sizes =~= Seq::new(n as nat, |k: int| jv.slots()[k].size));
            assert(pool@.offsets =~= Seq::new(
                n as nat,
                |k: int| Some(layout_offset(reqs, k) as u64),
            ));
        }
        proof {
            if data_within_requirements(reqs, jv.slot_data(), n as int) {
                assert forall|k: int| 0 <= k < n implies read_region(
                    pool@.bytes,
                    layout_offset(reqs, k),
                    (#[trigger] jv.slot_data()[k]).len() as int,
                ) == jv.slot_data()[k] by {
                    lemma_upload_round_trip(reqs, jv.slot_data(), total as nat, n as int, k);
                }
            }
        }
        self.pool = Some(pool);
        self.phase = JobPhase::Uploaded;
        self.timing = timing.stop_upload();
        Ok(plan)
    }

    /// Plans the bindings of every kernel: each kernel sees every buffer of
    /// the allocation.
    pub fn build_shader(&mut self) -> (r: Result<Vec<KernelBindings>, JobError>)
        requires
            old(self).wf(),
        ensures
            final(self).wf(),
            old(self)@.phase != JobPhase::Uploaded ==> r == Err::<Vec<KernelBindings>, JobError>(
                JobError::WrongPhase,
            ) && final(self)@ == old(self)@,
            old(self)@.phase == JobPhase::Uploaded ==> r is Ok && final(self)@ == (JobView {
                phase: JobPhase::Bound,
                timing: final(self)@.timing,
                ..old(self)@
            }),
            r matches Ok(plans) ==> plans@.len() == old(self)@.shaders.len() && forall|k: int|
                0 <= k < plans@.len() ==> (#[trigger] plans@[k]).is_plan_for(old(self)@.slots()),
    {
        if self.phase != JobPhase::Uploaded {
            return Err(JobError::WrongPhase);
        }
        let timing = self.timing.start_shader();
        let slots = self.slot_decls();
        let mut plans: Vec<KernelBindings> = Vec::new();
        let mut k: usize = 0;
        while k < self.shaders.len()
            invariant
                self@ == old(self)@,
                k <= self.shaders@.len(),
                slots@ == self@.slots(),
                plans@.len() == k,
                forall|j: int| 0 <= j < k ==> (#[trigger] plans@[j]).is_plan_for(slots@),
            decreases self.shaders@.len() - k,
        {
            plans.push(plan_bindings(&slots));
            k = k + 1;
        }
        self.phase = JobPhase::Bound;
        self.timing = timing.stop_shader();
        Ok(plans)
    }

    /// Encodes one command buffer per kernel, in order, and marks the job as
    /// executing: the commands are to be submitted with a fresh fence. A job
    /// executes once.
    pub fn execute(&mut self) -> (r: Result<Vec<Vec<Command>>, JobError>)
        requires
            old(self).wf(),
        ensures
            final(self).wf(),
            r is Ok <==> old(self)@.execute_error() is None,
            r matches Err(e) ==> old(self)@.execute_error() == Some(e) && final(self)@ == old(
                self,
            )@,
            r matches Ok(cmds) ==> {
                &&& final(self)@ == (JobView {
                    phase: JobPhase::Submitted,
                    fence: FenceTrack::Pending,
                    timing: final(self)@.timing,
                    ..old(self)@
                })
                &&& cmds@.len() == old(self)@.dispatch.len()
                &&& forall|k: int|
                    0 <= k < cmds@.len() ==> #[trigger] cmds@[k]@ == kernel_commands(
                        k,
                        old(self)@.dispatch[k],
                        old(self)@.slots().len() as int,
                    )
            },
    {
        if self.phase == JobPhase::Submitted {
            return Err(JobError::AlreadyExecuted);
        }
        if self.phase != JobPhase::Bound {
            return Err(JobError::WrongPhase);
        }
        if self.dispatch.len() != self.shaders.len() {
            return Err(JobError::DispatchMismatch);
        }
        let mut k: usize = 0;
        while k < self.dispatch.len()
            invariant
                self@ == old(self)@,
                self.wf(),
                self.phase == JobPhase::Bound,
                self.dispatch@.len() == self.shaders@.len(),
                k <= self.dispatch@.len(),
                forall|j: int| 0 <= j < k ==> (#[trigger] self.dispatch@[j]).is_valid(),
            decreases self.dispatch@.len() - k,
        {
            if !self.dispatch[k].valid() {
                assert(!self@.dispatch[k as int].is_valid());
                return Err(JobError::InvalidDispatch);
            }
            k = k + 1;
        }
        let timing = self.timing.start_cmd();
        let count = self.slot_decls().len();
        let cmds = encode_commands(&self.dispatch, count);
        self.phase = JobPhase::Submitted;
        self.fence = FenceTrack::Pending;
        self.timing = timing.stop_cmd().start_execution();
        Ok(cmds)
    }

    /// Records that the submission failed: the job has failed.
    pub fn submission_failed(&mut self)
        requires
            old(self).wf(),
        ensures
            final(self).wf(),
            final(self)@ == (JobView {
                fence: if old(self)@.fence == FenceTrack::Pending {
                    FenceTrack::Failed
                } else {
                    old(self)@.fence
                },
                ..old(self)@
            }),
    {
        if self.fence == FenceTrack::Pending {
            self.fence = FenceTrack::Failed;
        }
    }

    /// Records what a query of the fence reported.
    pub fn record_fence(&mut self, observed: FenceStates)
        requires
            old(self).wf(),
        ensures
            final(self).wf(),
            final(self)@ == (JobView {
                fence: next_fence(old(self)@.fence, observed),
                timing: final(self)@.timing,
                ..old(self)@
            }),
    {
        let before = self.fence;
        self.fence = observe_fence(self.fence, observed);
        if before == FenceTrack::Pending && self.fence == FenceTrack::Signaled {
            self.timing = self.timing.stop_execution();
        }
    }

    /// The job's status, as its fence was last reported.
    pub fn status(&self) -> (r: JobStatus)
        ensures
            r == status_of(self@.fence),
    {
        status_from_fence(self.fence)
    }

    /// What a wait of up to `timeout` nanoseconds has to do.
    pub fn wait_until_idle(&self, timeout: u64) -> (r: WaitStep)
        ensures
            r == wait_step_of(self@.fence, timeout),
    {
        wait_step(self.fence, timeout)
    }

    /// Takes in the allocation's bytes as the device left them.
    pub fn load_device_memory(&mut self, image: Vec<u8>) -> (r: Result<(), JobError>)
        requires
            old(self).wf(),
        ensures
            final(self).wf(),
            old(self)@.pool is None ==> r == Err::<(), JobError>(JobError::WrongPhase),
            old(self)@.pool matches Some(p) ==> (r is Ok <==> image@.len() == p.total_size),
            old(self)@.pool is Some && r is Err ==> r == Err::<(), JobError>(
                JobError::Bind(BindError::OutOfRange),
            ),
            r is Err ==> final(self)@ == old(self)@,
            r is Ok ==> final(self)@ == (JobView {
                pool: Some(PoolView { bytes: image@, ..old(self)@.pool->0 }),
                timing: final(self)@.timing,
                ..old(self)@
            }),
    {
        let timing = self.timing.start_download();
        let mut pool = match self.pool.take() {
            Some(p) => p,
            None => {
                return Err(JobError::WrongPhase);
            },
        };
        let res = pool.load_device_image(image);
        self.pool = Some(pool);
        match res {
            Ok(()) => {
                self.timing = timing.stop_download();
                Ok(())
            },
            Err(e) => Err(JobError::Bind(e)),
        }
    }

    /// The bytes of each storage buffer, in declaration order, once the job
    /// has succeeded; `None` before.
    pub fn get_output(&self) -> (r: Option<Vec<Vec<u8>>>)
        requires
            self.wf(),
        ensures
            r is Some <==> status_of(self@.fence) == JobStatus::Success,
            r matches Some(out) ==> {
                &&& out@.len() == self@.buffers.len()
                &&& forall|i: int|
                    0 <= i < out@.len() ==> #[trigger] out@[i]@ == read_region(
                        self@.pool->0.bytes,
                        self@.pool->0.offsets[i]->0 as int,
                        self@.pool->0.sizes[i] as int,
                    )
            },
    {
        if self.fence != FenceTrack::Signaled {
            return None;
        }
        let pool = match &self.pool {
            Some(p) => p,
            None => {
                return None;
            },
        };
        let ghost slots = self@.slots();
        let mut out: Vec<Vec<u8>> = Vec::new();
        let mut i: usize = 0;
        while i < self.buffers.len()
            invariant
                self.wf(),
                self.pool == Some(*pool),
                slots == self@.slots(),
                i <= self.buffers@.len(),
                out@.len() == i,
                forall|k: int|
                    0 <= k < i ==> #[trigger] out@[k]@ == read_region(
                        pool@.bytes,
                        pool@.offsets[k]->0 as int,
                        pool@.sizes[k] as int,
                    ),
            decreases self.buffers@.len() - i,
        {
            assert(pool@.sizes[i as int] == slots[i as int].size);
            match pool.read(i) {
                Ok(v) => {
                    out.push(v);
                },
                Err(_) => {
                    return None;
                },
            }
            i = i + 1;
        }
        Some(out)
    }

    /// The durations measured so far.
    pub fn get_timing(&self) -> (r: JobTimings)
        requires
            self.wf(),
        ensures
            r.wf(),
            r.upload == span_or_zero(self@.timing.upload),
            r.shader == span_or_zero(self@.timing.shader),
            r.cmd == span_or_zero(self@.timing.cmd),
            r.execution == span_or_zero(self@.timing.execution),
            r.download == span_or_zero(self@.timing.download),
    {
        self.timing.build()
    }
}

} // verus!
