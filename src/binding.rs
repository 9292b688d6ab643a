//! Resource binding: which slot of a kernel's descriptor set sees which
//! buffer of the shared allocation.

use crate::def::{BindPoint, BufferType};
use vstd::prelude::*;

verus! {

/// A buffer as the binder sees it: where it is attached, its kind and its
/// size in bytes.
#[derive(Clone, Copy, Debug, PartialEq, Eq, Structural)]
pub struct SlotDecl {
    pub bind: BindPoint,
    pub kind: BufferType,
    pub size: u64,
}

/// One entry of a descriptor set layout: a single descriptor of `kind` at
/// `binding`, visible to the compute stage.
#[derive(Clone, Copy, Debug, PartialEq, Eq, Structural)]
pub struct LayoutBinding {
    pub binding: u32,
    pub kind: BufferType,
}

/// One write into a descriptor set: buffer `buffer` of the job, from its own
/// start and over `range` bytes, at `binding`.
#[derive(Clone, Copy, Debug, PartialEq, Eq, Structural)]
pub struct DescriptorWrite {
    pub binding: u32,
    pub kind: BufferType,
    pub buffer: usize,
    pub range: u64,
}

/// What one kernel needs bound: its layout, the sizes of the descriptor pool
/// that holds its single set, and the writes that fill that set.
#[derive(Debug)]
pub struct KernelBindings {
    pub layout: Vec<LayoutBinding>,
    pub storage_count: usize,
    pub uniform_count: usize,
    pub writes: Vec<DescriptorWrite>,
}

impl KernelBindings {
    /// The plan binds every slot, in order.
    pub open spec fn is_plan_for(self, slots: Seq<SlotDecl>) -> bool {
        &&& self.layout@.len() == slots.len()
        &&& self.writes@.len() == slots.len()
        &&& forall|i: int|
            0 <= i < slots.len() ==> #[trigger] self.layout@[i] == layout_binding_of(slots[i])
        &&& forall|i: int| 0 <= i < slots.len() ==> #[trigger] self.writes@[i] == write_of(slots[i], i)
        &&& self.storage_count == count_kind(slots, BufferType::Storage, slots.len() as int)
        &&& self.uniform_count == count_kind(slots, BufferType::Uniform, slots.len() as int)
    }
}

/// Number of slots among the first `n` whose kind is `kind`.
pub open spec fn count_kind(slots: Seq<SlotDecl>, kind: BufferType, n: int) -> nat
    decreases n,
{
    if n <= 0 {
        0
    } else {
        count_kind(slots, kind, n - 1) + if slots[n - 1].kind == kind {
            1nat
        } else {
            0nat
        }
    }
}

proof fn lemma_count_kind_bound(slots: Seq<SlotDecl>, kind: BufferType, n: int)
    requires
        0 <= n,
    ensures
        count_kind(slots, kind, n) <= n,
    decreases n,
{
    if n > 0 {
        lemma_count_kind_bound(slots, kind, n - 1);
    }
}

pub open spec fn layout_binding_of(s: SlotDecl) -> LayoutBinding {
    LayoutBinding { binding: s.bind.bind, kind: s.kind }
}

pub open spec fn write_of(s: SlotDecl, i: int) -> DescriptorWrite {
    DescriptorWrite { binding: s.bind.bind, kind: s.kind, buffer: i as usize, range: s.size }
}

/// Plans the bindings of one kernel that sees every slot: each slot is
/// declared at its bind point's `bind` with its kind, the pool is sized by
/// kind, and each slot's buffer is written whole into its binding. All
/// bindings go to set 0; the set of a bind point is not used.
pub fn plan_bindings(slots: &Vec<SlotDecl>) -> (r: KernelBindings)
    ensures
        r.is_plan_for(slots@),
{
    let mut layout: Vec<LayoutBinding> = Vec::new();
    let mut writes: Vec<DescriptorWrite> = Vec::new();
    let mut storage_count: usize = 0;
    let mut uniform_count: usize = 0;
    let mut i: usize = 0;
    while i < slots.len()
        invariant
            i <= slots@.len(),
            layout@.len() == i,
            writes@.len() == i,
            forall|k: int| 0 <= k < i ==> #[trigger] layout@[k] == layout_binding_of(slots@[k]),
            forall|k: int| 0 <= k < i ==> #[trigger] writes@[k] == write_of(slots@[k], k),
            storage_count == count_kind(slots@, BufferType::Storage, i as int),
            uniform_count == count_kind(slots@, BufferType::Uniform, i as int),
        decreases slots@.len() - i,
    {
        let s = slots[i];
        proof {
            lemma_count_kind_bound(slots@, BufferType::Storage, i as int);
            lemma_count_kind_bound(slots@, BufferType::Uniform, i as int);
        }
        layout.push(LayoutBinding { binding: s.bind.bind, kind: s.kind });
        writes.push(DescriptorWrite { binding: s.bind.bind, kind: s.kind, buffer: i, range: s.size });
        match s.kind {
            BufferType::Storage => {
                storage_count = storage_count + 1;
            },
            BufferType::Uniform => {
                uniform_count = uniform_count + 1;
            },
        }
        i = i + 1;
    }
    KernelBindings { layout, storage_count, uniform_count, writes }
}

/// Checks a plan against the number of bindings a kernel expects.
pub fn check_binding_count(plan: &KernelBindings, expected: usize) -> (r: bool)
    ensures
        r == (plan.layout@.len() == expected),
{
    plan.layout.len() == expected
}

} // verus!
