//! Command encoding: the commands recorded for each kernel, in order.

use crate::def::Dispatch;
use vstd::prelude::*;

verus! {

/// One command of a kernel's command buffer.
#[derive(Clone, Copy, Debug, PartialEq, Eq, Structural)]
pub enum Command {
    /// Bind the compute pipeline of kernel `kernel`.
    BindPipeline { kernel: usize },
    /// Bind the descriptor set of kernel `kernel`.
    BindDescriptorSet { kernel: usize },
    /// Run the kernel over `x * y * z` workgroups.
    Dispatch { x: u32, y: u32, z: u32 },
    /// Make the shader writes to the job's first `buffers` buffers (all of
    /// them) visible to shader reads that come after.
    Barrier { buffers: usize },
}

/// The commands of kernel `kernel`: bind its pipeline and its set, dispatch,
/// then a barrier over every buffer of the job.
pub open spec fn kernel_commands(kernel: int, d: Dispatch, buffer_count: int) -> Seq<Command> {
    seq![
        Command::BindPipeline { kernel: kernel as usize },
        Command::BindDescriptorSet { kernel: kernel as usize },
        Command::Dispatch { x: d.x, y: d.y, z: d.z },
        Command::Barrier { buffers: buffer_count as usize },
    ]
}

/// Within a kernel's commands its dispatch comes after its pipeline and set
/// are bound, and is followed by a barrier over every buffer before anything
/// of the next kernel runs: a later kernel sees what an earlier one wrote.
pub proof fn lemma_dispatch_then_barrier(kernel: int, d: Dispatch, buffer_count: int)
    requires
        0 <= kernel <= usize::MAX,
        0 <= buffer_count <= usize::MAX,
    ensures
        kernel_commands(kernel, d, buffer_count).len() == 4,
        kernel_commands(kernel, d, buffer_count)[0] == (Command::BindPipeline {
            kernel: kernel as usize,
        }),
        kernel_commands(kernel, d, buffer_count)[1] == (Command::BindDescriptorSet {
            kernel: kernel as usize,
        }),
        kernel_commands(kernel, d, buffer_count)[2] == (Command::Dispatch { x: d.x, y: d.y, z: d.z }),
        kernel_commands(kernel, d, buffer_count).last() == (Command::Barrier {
            buffers: buffer_count as usize,
        }),
{
}

/// One command buffer per kernel, in declaration order. Each ends with a
/// barrier over all `buffer_count` buffers, so a kernel's writes are visible
/// to every kernel after it.
pub fn encode_commands(dispatch: &Vec<Dispatch>, buffer_count: usize) -> (r: Vec<Vec<Command>>)
    ensures
        r@.len() == dispatch@.len(),
        forall|k: int|
            0 <= k < dispatch@.len() ==> #[trigger] r@[k]@ == kernel_commands(
                k,
                dispatch@[k],
                buffer_count as int,
            ),
        forall|k: int|
            0 <= k < dispatch@.len() ==> #[trigger] r@[k]@.last() == (Command::Barrier {
                buffers: buffer_count,
            }),
{
    let mut out: Vec<Vec<Command>> = Vec::new();
    let mut k: usize = 0;
    while k < dispatch.len()
        invariant
            k <= dispatch@.len(),
            out@.len() == k,
            forall|j: int|
                0 <= j < k ==> #[trigger] out@[j]@ == kernel_commands(
                    j,
                    dispatch@[j],
                    buffer_count as int,
                ),
        decreases dispatch@.len() - k,
    {
        let d = dispatch[k];
        let cmds: Vec<Command> = vec![
            Command::BindPipeline { kernel: k },
            Command::BindDescriptorSet { kernel: k },
            Command::Dispatch { x: d.x, y: d.y, z: d.z },
            Command::Barrier { buffers: buffer_count },
        ];
        assert(cmds@ =~= kernel_commands(k as int, d, buffer_count as int));
        out.push(cmds);
        k = k + 1;
    }
    out
}

} // verus!
