use wyzoid::binding::{plan_bindings, check_binding_count, DescriptorWrite, LayoutBinding, SlotDecl};
use wyzoid::def::{BindPoint, BufferType, Dispatch, JobDefinition, Link, Shader, Buffer as DeclBuffer};
use wyzoid::encoder::{encode_commands, Command};
use wyzoid::job::{Buffer, Job, JobBuilder, JobError, JobPhase, Uniform};
use wyzoid::layout::MemoryRequirement;
use wyzoid::memory::{AllocationError, BindError, MemoryTypeInfo};
use wyzoid::tracker::{FenceStates, JobStatus, WaitStep};

fn host_memory() -> Vec<MemoryTypeInfo> {
    vec![
        MemoryTypeInfo { host_visible: false, host_coherent: false, heap_size: 1 << 32 },
        MemoryTypeInfo { host_visible: true, host_coherent: true, heap_size: 1 << 28 },
    ]
}

fn requirements(job: &Job, alignment: u64) -> Vec<MemoryRequirement> {
    job.slot_decls()
        .iter()
        .map(|s| MemoryRequirement { size: s.size, alignment })
        .collect()
}

fn f32_bytes(v: &[f32]) -> Vec<u8> {
    v.iter().flat_map(|x| x.to_le_bytes()).collect()
}

fn run_to_success(job: &mut Job, alignment: u64) {
    let reqs = requirements(job, alignment);
    job.upload_buffers(&reqs, &host_memory()).unwrap();
    job.build_shader().unwrap();
    job.execute().unwrap();
    job.record_fence(FenceStates::Signaled);
}

#[test]
fn zero_buffer_job_succeeds_with_empty_output() {
    let mut job = JobBuilder::new().build();
    assert_eq!(job.status(), JobStatus::Init);
    let plan = job.upload_buffers(&vec![], &vec![]).unwrap();
    assert_eq!(plan.total_size, 0);
    assert_eq!(plan.memory_type, None);
    assert!(job.build_shader().unwrap().is_empty());
    assert!(job.execute().unwrap().is_empty());
    assert_eq!(job.status(), JobStatus::Executing);
    job.record_fence(FenceStates::Signaled);
    assert_eq!(job.status(), JobStatus::Success);
    assert_eq!(job.get_output(), Some(Vec::<Vec<u8>>::new()));
}

#[test]
fn uploaded_buffer_reads_back_identical() {
    let input: Vec<f32> = (0..64).map(|i| i as f32).collect();
    let bytes = f32_bytes(&input);
    let mut job = JobBuilder::new()
        .add_buffer(&bytes, 0, 0)
        .add_ro_buffer(256, 0, 1)
        .build();
    run_to_success(&mut job, 64);
    let out = job.get_output().unwrap();
    assert_eq!(out.len(), 2);
    assert_eq!(out[0], bytes);
    assert_eq!(out[1], vec![0u8; 256]);
}

#[test]
fn upload_places_buffers_and_uniforms() {
    let mut job = JobBuilder::new()
        .add_buffer(&vec![1, 2, 3], 0, 0)
        .add_ubo(&vec![9, 8], 0, 2)
        .add_ro_buffer(5, 0, 1)
        .build();
    let slots = job.slot_decls();
    assert_eq!(slots.len(), 3);
    assert_eq!(slots[2], SlotDecl { bind: BindPoint::new(0, 2), kind: BufferType::Uniform, size: 2 });
    let reqs = requirements(&job, 16);
    let plan = job.upload_buffers(&reqs, &host_memory()).unwrap();
    assert_eq!(plan.offsets, vec![0, 16, 32]);
    assert_eq!(plan.total_size, 34);
    assert_eq!(plan.memory_type, Some(1));
}

#[test]
fn upload_errors() {
    let mut job = JobBuilder::new().add_buffer(&vec![1, 2, 3, 4], 0, 0).build();
    assert_eq!(
        job.upload_buffers(&vec![], &host_memory()).err(),
        Some(JobError::RequirementCountMismatch)
    );
    let small = vec![MemoryTypeInfo { host_visible: true, host_coherent: true, heap_size: 4 }];
    assert_eq!(
        job.upload_buffers(&requirements(&job, 4), &small).err(),
        Some(JobError::Allocation(AllocationError::NoSuitableMemoryType))
    );
    let tight = vec![MemoryRequirement { size: 2, alignment: 4 }];
    assert_eq!(
        job.upload_buffers(&tight, &host_memory()).err(),
        Some(JobError::Bind(BindError::OutOfRange))
    );
    let mut pair = JobBuilder::new().add_buffer(&vec![1], 0, 0).add_ubo(&vec![2], 0, 1).build();
    let huge = vec![
        MemoryRequirement { size: u64::MAX, alignment: 1 },
        MemoryRequirement { size: 1, alignment: 1 },
    ];
    assert_eq!(pair.upload_buffers(&huge, &host_memory()).err(), Some(JobError::LayoutOverflow));
    assert!(job.upload_buffers(&requirements(&job, 4), &host_memory()).is_ok());
    assert_eq!(
        job.upload_buffers(&requirements(&job, 4), &host_memory()).err(),
        Some(JobError::WrongPhase)
    );
}

#[test]
fn steps_out_of_order_fail() {
    let mut job = JobBuilder::new().add_buffer(&vec![1], 0, 0).build();
    assert!(matches!(job.build_shader(), Err(JobError::WrongPhase)));
    assert!(matches!(job.execute(), Err(JobError::WrongPhase)));
    assert_eq!(job.load_device_memory(vec![0]), Err(JobError::WrongPhase));
    assert_eq!(job.get_output(), None);
}

#[test]
fn execute_runs_once() {
    let mut job = JobBuilder::new()
        .add_buffer(&vec![1, 2, 3, 4], 0, 0)
        .add_shader(vec![3, 2, 35, 7])
        .add_dispatch((1, 1, 1))
        .build();
    let reqs = requirements(&job, 4);
    job.upload_buffers(&reqs, &host_memory()).unwrap();
    job.build_shader().unwrap();
    assert!(job.execute().is_ok());
    assert!(matches!(job.execute(), Err(JobError::AlreadyExecuted)));
}

#[test]
fn dispatch_must_match_kernels() {
    let mut job = JobBuilder::new().add_shader(vec![0; 4]).build();
    job.upload_buffers(&vec![], &vec![]).unwrap();
    job.build_shader().unwrap();
    assert!(matches!(job.execute(), Err(JobError::DispatchMismatch)));
    let mut job = JobBuilder::new().add_shader(vec![0; 4]).add_dispatch((4, 0, 1)).build();
    job.upload_buffers(&vec![], &vec![]).unwrap();
    job.build_shader().unwrap();
    assert!(matches!(job.execute(), Err(JobError::InvalidDispatch)));
    assert_eq!(job.status(), JobStatus::Init);
}

#[test]
fn two_kernels_are_separated_by_a_barrier() {
    // Kernel one writes B, kernel two reads B and writes C.
    let input: Vec<f32> = (0..64).map(|i| i as f32).collect();
    let mut job = JobBuilder::new()
        .add_buffer(&f32_bytes(&input), 0, 0)
        .add_ro_buffer(256, 0, 1)
        .add_ro_buffer(256, 0, 2)
        .add_shader(vec![0; 4])
        .add_shader(vec![1; 4])
        .add_dispatch((1, 1, 1))
        .add_dispatch((1, 1, 1))
        .build();
    let reqs = requirements(&job, 256);
    job.upload_buffers(&reqs, &host_memory()).unwrap();
    let plans = job.build_shader().unwrap();
    assert_eq!(plans.len(), 2);
    let cmds = job.execute().unwrap();
    assert_eq!(cmds.len(), 2);
    assert_eq!(
        cmds[0],
        vec![
            Command::BindPipeline { kernel: 0 },
            Command::BindDescriptorSet { kernel: 0 },
            Command::Dispatch { x: 1, y: 1, z: 1 },
            Command::Barrier { buffers: 3 },
        ]
    );
    assert_eq!(cmds[1][0], Command::BindPipeline { kernel: 1 });
    assert_eq!(cmds[1][3], Command::Barrier { buffers: 3 });
}

#[test]
fn device_memory_is_read_back_per_buffer() {
    let mut job = JobBuilder::new()
        .add_buffer(&vec![1, 1], 0, 0)
        .add_ro_buffer(2, 0, 1)
        .add_ubo(&vec![5], 0, 2)
        .add_shader(vec![0; 4])
        .add_dispatch((1, 1, 1))
        .build();
    let reqs = requirements(&job, 4);
    job.upload_buffers(&reqs, &host_memory()).unwrap();
    job.build_shader().unwrap();
    job.execute().unwrap();
    assert_eq!(job.get_output(), None);
    assert_eq!(job.load_device_memory(vec![0; 3]), Err(JobError::Bind(BindError::OutOfRange)));
    assert_eq!(job.load_device_memory(vec![2, 4, 0, 0, 3, 6, 0, 0, 5]), Ok(()));
    job.record_fence(FenceStates::Signaled);
    assert_eq!(job.get_output(), Some(vec![vec![2, 4], vec![3, 6]]));
}

#[test]
fn status_never_leaves_a_final_state() {
    let mut job = JobBuilder::new().build();
    job.upload_buffers(&vec![], &vec![]).unwrap();
    job.build_shader().unwrap();
    job.execute().unwrap();
    job.record_fence(FenceStates::Unsignaled);
    assert_eq!(job.status(), JobStatus::Executing);
    job.record_fence(FenceStates::Signaled);
    assert_eq!(job.status(), JobStatus::Success);
    job.record_fence(FenceStates::Unsignaled);
    job.record_fence(FenceStates::Lost);
    assert_eq!(job.status(), JobStatus::Success);

    let mut lost = JobBuilder::new().build();
    lost.upload_buffers(&vec![], &vec![]).unwrap();
    lost.build_shader().unwrap();
    lost.execute().unwrap();
    lost.record_fence(FenceStates::Lost);
    assert_eq!(lost.status(), JobStatus::Failure);
    lost.record_fence(FenceStates::Signaled);
    assert_eq!(lost.status(), JobStatus::Failure);
    assert_eq!(lost.get_output(), None);
}

#[test]
fn submission_failure_fails_the_job() {
    let mut job = JobBuilder::new().build();
    job.submission_failed();
    assert_eq!(job.status(), JobStatus::Init);
    job.upload_buffers(&vec![], &vec![]).unwrap();
    job.build_shader().unwrap();
    job.execute().unwrap();
    job.submission_failed();
    assert_eq!(job.status(), JobStatus::Failure);
}

#[test]
fn wait_with_zero_timeout_only_polls() {
    let mut job = JobBuilder::new().build();
    assert_eq!(job.wait_until_idle(0), WaitStep::Done(JobStatus::Init));
    assert_eq!(job.wait_until_idle(1000), WaitStep::Done(JobStatus::Init));
    job.upload_buffers(&vec![], &vec![]).unwrap();
    job.build_shader().unwrap();
    job.execute().unwrap();
    assert_eq!(job.wait_until_idle(0), WaitStep::Poll);
    assert_eq!(job.wait_until_idle(1000), WaitStep::WaitFence(1000));
    job.record_fence(FenceStates::Signaled);
    assert_eq!(job.wait_until_idle(0), WaitStep::Done(job.status()));
}

#[test]
fn binding_plan_follows_bind_points() {
    let slots = vec![
        SlotDecl { bind: BindPoint::new(0, 0), kind: BufferType::Storage, size: 8 },
        SlotDecl { bind: BindPoint::new(1, 3), kind: BufferType::Storage, size: 4 },
        SlotDecl { bind: BindPoint::new(0, 2), kind: BufferType::Uniform, size: 16 },
    ];
    let plan = plan_bindings(&slots);
    assert_eq!(plan.storage_count, 2);
    assert_eq!(plan.uniform_count, 1);
    assert_eq!(plan.layout[1], LayoutBinding { binding: 3, kind: BufferType::Storage });
    assert_eq!(
        plan.writes[2],
        DescriptorWrite { binding: 2, kind: BufferType::Uniform, buffer: 2, range: 16 }
    );
    assert!(check_binding_count(&plan, 3));
    assert!(!check_binding_count(&plan, 2));
}

#[test]
fn encoder_keeps_declaration_order() {
    let d = vec![Dispatch::new(2, 1, 1), Dispatch::new(8, 4, 1)];
    let cmds = encode_commands(&d, 5);
    assert_eq!(cmds.len(), 2);
    assert_eq!(cmds[1][2], Command::Dispatch { x: 8, y: 4, z: 1 });
    assert_eq!(cmds[0][3], Command::Barrier { buffers: 5 });
}

#[test]
fn builder_records_in_order() {
    let b = JobBuilder::new()
        .add_buffer(&vec![1], 0, 0)
        .add_ro_buffer(3, 0, 1)
        .add_ubo(&vec![4, 4], 0, 2)
        .add_shader(vec![7; 4])
        .add_dispatch((3, 2, 1));
    assert_eq!(b.buffers.len(), 2);
    assert_eq!(b.buffers[1].data, vec![0, 0, 0]);
    assert_eq!(b.buffers[1].bind, BindPoint::new(0, 1));
    assert_eq!(b.uniforms[0].data, vec![4, 4]);
    assert_eq!(b.dispatch[0], Dispatch::new(3, 2, 1));
    let job = b.build();
    assert_eq!(job.shaders().len(), 1);
    let buf = Buffer::new(BindPoint::new(0, 5), &vec![1, 2]);
    assert_eq!(buf.size(), 2);
    let u = Uniform::new(BindPoint::new(0, 6), &vec![3]);
    assert_eq!(u.data, vec![3]);
    assert_eq!(JobPhase::Declared, JobPhase::Declared);
}

#[test]
fn definition_hands_out_positions() {
    let mut def = JobDefinition::new();
    assert_eq!(def.add_shader(Shader::new(vec![1, 2, 3, 4], (1, 2, 3))), 0);
    assert_eq!(def.add_shader(Shader::new(vec![], (1, 1, 1))), 1);
    assert_eq!(def.add_buffer(DeclBuffer::new(vec![0; 16], BufferType::Storage)), 0);
    assert_eq!(def.link(1, 0, BindPoint::new(0, 4)), 0);
    assert_eq!(def.links[0], Link::new(1, 0, BindPoint::new(0, 4)));
    assert_eq!(def.shaders[0].dispatch, Dispatch::new(1, 2, 3));
    assert_eq!(def.buffers[0].size(), 16);
    assert!(Dispatch::new(1, 1, 1).valid());
    assert!(!Dispatch::new(1, 0, 1).valid());
}
