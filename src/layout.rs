//! Packing of buffers into one device allocation.

use vstd::arithmetic::div_mod::{
    lemma_fundamental_div_mod, lemma_mod_bound, lemma_mod_multiples_basic,
};
use vstd::prelude::*;

verus! {

/// What the device asks of one buffer: how many bytes it spans and the
/// alignment its offset must respect.
#[derive(Clone, Copy, Debug, PartialEq, Eq, Structural)]
pub struct MemoryRequirement {
    pub size: u64,
    pub alignment: u64,
}

/// Where each buffer lives inside the shared allocation, and how large that
/// allocation must be.
#[derive(Debug)]
pub struct MemoryLayout {
    pub total_size: u64,
    pub offsets: Vec<u64>,
}

/// Every alignment is non-zero (the device reports powers of two).
pub open spec fn alignments_nonzero(reqs: Seq<MemoryRequirement>) -> bool {
    forall|i: int| 0 <= i < reqs.len() ==> #[trigger] reqs[i].alignment > 0
}

/// The smallest multiple of `alignment` that is not below `cursor`.
pub open spec fn align_up(cursor: int, alignment: int) -> int {
    if cursor % alignment == 0 {
        cursor
    } else {
        cursor + (alignment - cursor % alignment)
    }
}

/// The cursor after the first `n` buffers have been placed in order.
pub open spec fn layout_end(reqs: Seq<MemoryRequirement>, n: int) -> int
    decreases n,
{
    if n <= 0 {
        0
    } else {
        align_up(layout_end(reqs, n - 1), reqs[n - 1].alignment as int) + reqs[n - 1].size
    }
}

/// The offset given to buffer `i`: the cursor left by the buffers before it,
/// moved up to the buffer's alignment.
pub open spec fn layout_offset(reqs: Seq<MemoryRequirement>, i: int) -> int {
    align_up(layout_end(reqs, i), reqs[i].alignment as int)
}

/// Two byte ranges `[a, a + a_len)` and `[b, b + b_len)` share no byte.
pub open spec fn ranges_disjoint(a: int, a_len: int, b: int, b_len: int) -> bool {
    a + a_len <= b || b + b_len <= a
}

pub open spec fn sum_sizes(reqs: Seq<MemoryRequirement>, n: int) -> int
    decreases n,
{
    if n <= 0 {
        0
    } else {
        sum_sizes(reqs, n - 1) + reqs[n - 1].size
    }
}

pub open spec fn sum_alignments(reqs: Seq<MemoryRequirement>, n: int) -> int
    decreases n,
{
    if n <= 0 {
        0
    } else {
        sum_alignments(reqs, n - 1) + reqs[n - 1].alignment
    }
}

proof fn lemma_align_up(cursor: int, alignment: int)
    requires
        0 <= cursor,
        0 < alignment,
    ensures
        cursor <= align_up(cursor, alignment) <= cursor + alignment,
        align_up(cursor, alignment) % alignment == 0,
{
    lemma_mod_bound(cursor, alignment);
    lemma_fundamental_div_mod(cursor, alignment);
    if cursor % alignment != 0 {
        assert(cursor + (alignment - cursor % alignment) == (cursor / alignment + 1) * alignment)
            by (nonlinear_arith)
            requires
                cursor == alignment * (cursor / alignment) + (cursor % alignment),
        ;
        lemma_mod_multiples_basic(cursor / alignment + 1, alignment);
    }
}

pub(crate) proof fn lemma_end_step(reqs: Seq<MemoryRequirement>, n: int)
    requires
        alignments_nonzero(reqs),
        0 <= n < reqs.len(),
    ensures
        0 <= layout_end(reqs, n) <= layout_offset(reqs, n),
        layout_offset(reqs, n) + reqs[n].size == layout_end(reqs, n + 1),
        layout_offset(reqs, n) % (reqs[n].alignment as int) == 0,
        layout_offset(reqs, n) <= layout_end(reqs, n) + reqs[n].alignment,
    decreases n,
{
    if n > 0 {
        lemma_end_step(reqs, n - 1);
    }
    assert(reqs[n].alignment > 0);
    lemma_align_up(layout_end(reqs, n), reqs[n].alignment as int);
}

/// Placing more buffers never moves the cursor back.
pub(crate) proof fn lemma_end_monotone(reqs: Seq<MemoryRequirement>, a: int, b: int)
    requires
        alignments_nonzero(reqs),
        0 <= a <= b <= reqs.len(),
    ensures
        layout_end(reqs, a) <= layout_end(reqs, b),
    decreases b - a,
{
    if a < b {
        lemma_end_monotone(reqs, a, b - 1);
        lemma_end_step(reqs, b - 1);
    }
}

/// Every offset of the layout is a multiple of its buffer's alignment.
pub proof fn lemma_layout_aligned(reqs: Seq<MemoryRequirement>, i: int)
    requires
        alignments_nonzero(reqs),
        0 <= i < reqs.len(),
    ensures
        layout_offset(reqs, i) % (reqs[i].alignment as int) == 0,
{
    lemma_end_step(reqs, i);
}

/// No two buffers of the layout share a byte.
pub proof fn lemma_layout_disjoint(reqs: Seq<MemoryRequirement>, i: int, j: int)
    requires
        alignments_nonzero(reqs),
        0 <= i < reqs.len(),
        0 <= j < reqs.len(),
        i != j,
    ensures
        ranges_disjoint(
            layout_offset(reqs, i),
            reqs[i].size as int,
            layout_offset(reqs, j),
            reqs[j].size as int,
        ),
{
    let (lo, hi) = if i < j {
        (i, j)
    } else {
        (j, i)
    };
    lemma_end_step(reqs, lo);
    lemma_end_monotone(reqs, lo + 1, hi);
    lemma_end_step(reqs, hi);
}

/// The padding never grows past one alignment per buffer: the allocation is
/// at most the sum of the sizes plus the sum of the alignments.
pub proof fn lemma_layout_bound(reqs: Seq<MemoryRequirement>, n: int)
    requires
        alignments_nonzero(reqs),
        0 <= n <= reqs.len(),
    ensures
        layout_end(reqs, n) <= sum_sizes(reqs, n) + sum_alignments(reqs, n),
    decreases n,
{
    if n > 0 {
        lemma_layout_bound(reqs, n - 1);
        lemma_end_step(reqs, n - 1);
    }
}

/// Packs the buffers in order, each at the first offset past the previous one
/// that respects its alignment. Returns `None` exactly when the allocation
/// would not fit in 64 bits.
pub fn compute_non_overlapping_buffer_alignment(requirements: &Vec<MemoryRequirement>) -> (r:
    Option<MemoryLayout>)
    requires
        alignments_nonzero(requirements@),
    ensures
        r.is_some() <==> layout_end(requirements@, requirements@.len() as int) <= u64::MAX,
        r matches Some(l) ==> {
            &&& l.total_size == layout_end(requirements@, requirements@.len() as int)
            &&& l.offsets@.len() == requirements@.len()
            &&& forall|i: int|
                0 <= i < requirements@.len() ==> #[trigger] l.offsets@[i] == layout_offset(
                    requirements@,
                    i,
                )
            &&& forall|i: int|
                0 <= i < requirements@.len() ==> (#[trigger] l.offsets@[i] as int) % (
                requirements@[i].alignment as int) == 0
            &&& forall|i: int, j: int|
                0 <= i < requirements@.len() && 0 <= j < requirements@.len() && i != j
                    ==> ranges_disjoint(
                    #[trigger] l.offsets@[i] as int,
                    requirements@[i].size as int,
                    #[trigger] l.offsets@[j] as int,
                    requirements@[j].size as int,
                )
        },
{
    let ghost reqs = requirements@;
    let mut cursor: u64 = 0;
    let mut offsets: Vec<u64> = Vec::new();
    let mut i: usize = 0;
    while i < requirements.len()
        invariant
            i <= reqs.len(),
            reqs == requirements@,
            alignments_nonzero(reqs),
            cursor == layout_end(reqs, i as int),
            offsets@.len() == i,
            forall|k: int| 0 <= k < i ==> #[trigger] offsets@[k] == layout_offset(reqs, k),
        decreases reqs.len() - i,
    {
        let req = requirements[i];
        proof {
            lemma_end_step(reqs, i as int);
            lemma_end_monotone(reqs, i as int + 1, reqs.len() as int);
        }
        let rem = cursor % req.alignment;
        let aligned: u64 = if rem == 0 {
            cursor
        } else {
            match cursor.checked_add(req.alignment - rem) {
                Some(a) => a,
                None => {
                    return None;
                },
            }
        };
        let next = match aligned.checked_add(req.size) {
            Some(n) => n,
            None => {
                return None;
            },
        };
        offsets.push(aligned);
        cursor = next;
        i = i + 1;
    }
    let layout = MemoryLayout { total_size: cursor, offsets };
    proof {
        assert forall|k: int| 0 <= k < reqs.len() implies (#[trigger] layout.offsets@[k] as int) % (
        reqs[k].alignment as int) == 0 by {
            lemma_layout_aligned(reqs, k);
        }
        assert forall|a: int, b: int|
            0 <= a < reqs.len() && 0 <= b < reqs.len() && a != b implies ranges_disjoint(
            #[trigger] layout.offsets@[a] as int,
            reqs[a].size as int,
            #[trigger] layout.offsets@[b] as int,
            reqs[b].size as int,
        ) by {
            lemma_layout_disjoint(reqs, a, b);
        }
    }
    Some(layout)
}

} // verus!
