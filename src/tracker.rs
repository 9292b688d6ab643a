//! Completion tracking: what is known of a job's fence, and the status that
//! follows from it.

use vstd::prelude::*;

verus! {

/// What a query of the fence reports.
#[derive(Clone, Copy, Debug, PartialEq, Eq, Structural)]
pub enum FenceStates {
    Signaled,
    Unsignaled,
    /// The device was lost.
    Lost,
    /// Any other error.
    Unknown,
}

#[derive(Clone, Copy, Debug, PartialEq, Eq, Structural)]
pub enum JobStatus {
    /// Nothing submitted yet.
    Init,
    /// Submitted, fence not signaled.
    Executing,
    /// The fence signaled.
    Success,
    /// Submission failed, or the fence reported an error.
    Failure,
}

/// What is known of a job's fence. A signaled fence stays signaled and a
/// lost device stays lost, so once known these never change.
#[derive(Clone, Copy, Debug, PartialEq, Eq, Structural)]
pub enum FenceTrack {
    /// No fence: the job was not submitted.
    Absent,
    /// Submitted; not signaled at the last query.
    Pending,
    Signaled,
    Failed,
}

pub open spec fn status_of(f: FenceTrack) -> JobStatus {
    match f {
        FenceTrack::Absent => JobStatus::Init,
        FenceTrack::Pending => JobStatus::Executing,
        FenceTrack::Signaled => JobStatus::Success,
        FenceTrack::Failed => JobStatus::Failure,
    }
}

pub open spec fn is_terminal(s: JobStatus) -> bool {
    s == JobStatus::Success || s == JobStatus::Failure
}

/// What is known after a query of the fence reported `o`. Only a pending
/// fence learns anything.
pub open spec fn next_fence(f: FenceTrack, o: FenceStates) -> FenceTrack {
    match f {
        FenceTrack::Pending => match o {
            FenceStates::Signaled => FenceTrack::Signaled,
            FenceStates::Unsignaled => FenceTrack::Pending,
            FenceStates::Lost => FenceTrack::Failed,
            FenceStates::Unknown => FenceTrack::Failed,
        },
        _ => f,
    }
}

/// What is known after the queries in `obs`, in order.
pub open spec fn fence_after(f: FenceTrack, obs: Seq<FenceStates>) -> FenceTrack
    decreases obs.len(),
{
    if obs.len() == 0 {
        f
    } else {
        fence_after(next_fence(f, obs[0]), obs.drop_first())
    }
}

pub fn status_from_fence(f: FenceTrack) -> (r: JobStatus)
    ensures
        r == status_of(f),
{
    match f {
        FenceTrack::Absent => JobStatus::Init,
        FenceTrack::Pending => JobStatus::Executing,
        FenceTrack::Signaled => JobStatus::Success,
        FenceTrack::Failed => JobStatus::Failure,
    }
}

pub fn observe_fence(f: FenceTrack, o: FenceStates) -> (r: FenceTrack)
    ensures
        r == next_fence(f, o),
{
    match f {
        FenceTrack::Pending => match o {
            FenceStates::Signaled => FenceTrack::Signaled,
            FenceStates::Unsignaled => FenceTrack::Pending,
            FenceStates::Lost => FenceTrack::Failed,
            FenceStates::Unknown => FenceTrack::Failed,
        },
        _ => f,
    }
}

/// Once a job has succeeded or failed, no later query of its fence brings
/// it back to executing: its status stays what it is.
pub proof fn lemma_status_monotone(f: FenceTrack, obs: Seq<FenceStates>)
    requires
        is_terminal(status_of(f)),
    ensures
        status_of(fence_after(f, obs)) == status_of(f),
        fence_after(f, obs) == f,
    decreases obs.len(),
{
    if obs.len() > 0 {
        lemma_status_monotone(next_fence(f, obs[0]), obs.drop_first());
    }
}

/// What a bounded wait asks of the caller.
#[derive(Clone, Copy, Debug, PartialEq, Eq, Structural)]
pub enum WaitStep {
    /// Nothing to wait for: this is the status.
    Done(JobStatus),
    /// Query the fence once, without blocking.
    Poll,
    /// Block up to `timeout` nanoseconds on the fence, then query it.
    WaitFence(u64),
}

pub open spec fn wait_step_of(f: FenceTrack, timeout: u64) -> WaitStep {
    if status_of(f) != JobStatus::Executing {
        WaitStep::Done(status_of(f))
    } else if timeout == 0 {
        WaitStep::Poll
    } else {
        WaitStep::WaitFence(timeout)
    }
}

/// The status a wait ends with when the fence query it leads to reports `o`.
pub open spec fn wait_outcome(f: FenceTrack, timeout: u64, o: FenceStates) -> JobStatus {
    match wait_step_of(f, timeout) {
        WaitStep::Done(s) => s,
        _ => status_of(next_fence(f, o)),
    }
}

/// The status a plain query ends with when the fence reports `o`.
pub open spec fn poll_outcome(f: FenceTrack, o: FenceStates) -> JobStatus {
    status_of(next_fence(f, o))
}

pub fn wait_step(f: FenceTrack, timeout: u64) -> (r: WaitStep)
    ensures
        r == wait_step_of(f, timeout),
{
    match f {
        FenceTrack::Pending => {
            if timeout == 0 {
                WaitStep::Poll
            } else {
                WaitStep::WaitFence(timeout)
            }
        },
        _ => WaitStep::Done(status_from_fence(f)),
    }
}

/// A wait with a zero timeout never blocks, and ends with the status a plain
/// query of the same fence gives.
pub proof fn lemma_wait_zero_is_poll(f: FenceTrack, o: FenceStates)
    ensures
        !(wait_step_of(f, 0) is WaitFence),
        wait_outcome(f, 0, o) == poll_outcome(f, o),
{
}

} // verus!
