use ash::vk;
use wyzoid::binding::plan_bindings;
use wyzoid::states::{ExecutionStateBuilder, MemoryStateBuilder, ShaderStateBuilder};
use wyzoid::timing::{get_fract_s, JobTimings, JobTimingsBuilder, TimeSpan};
use wyzoid::utils::{min_max, rand_vec, tick, to_vec32};

#[test]
fn fract_s_counts_milliseconds() {
    assert_eq!(get_fract_s(TimeSpan { secs: 2, nanos: 345_678_901 }), "2345");
    assert_eq!(get_fract_s(TimeSpan { secs: 0, nanos: 999_999 }), "0");
    assert_eq!(get_fract_s(TimeSpan { secs: u64::MAX, nanos: 999_999_999 }), "18446744073709551615999");
}

#[test]
fn timings_text_lists_each_phase() {
    let t = JobTimings {
        upload: TimeSpan { secs: 1, nanos: 0 },
        shader: TimeSpan { secs: 0, nanos: 20_000_000 },
        cmd: TimeSpan { secs: 0, nanos: 3_000_000 },
        execution: TimeSpan { secs: 0, nanos: 0 },
        download: TimeSpan { secs: 0, nanos: 4_500_000 },
    };
    assert_eq!(
        t.to_text(),
        "upload: 1000ms\nshader: 20ms\ncommand: 3ms\nexecution: 0ms\ndownload: 4ms\ntotal: 1027ms\n"
    );
}

#[test]
fn timings_of_phases_never_started_are_zero() {
    let b = JobTimingsBuilder::new().stop_upload().start_shader().stop_shader();
    assert!(b.upload.is_none());
    assert!(b.shader.is_some());
    let t = b.build();
    assert_eq!(t.upload, TimeSpan { secs: 0, nanos: 0 });
    assert!(t.shader.nanos < 1_000_000_000);
    let b = JobTimingsBuilder::new()
        .start_cmd()
        .stop_cmd()
        .start_execution()
        .stop_execution()
        .start_download()
        .stop_download()
        .start_upload()
        .stop_upload();
    assert!(b.cmd.is_some() && b.execution.is_some() && b.download.is_some() && b.upload.is_some());
}

#[test]
fn tick_marks() {
    assert_eq!(tick(true), "\u{2705}");
    assert_eq!(tick(false), "\u{274c}");
}

#[test]
fn min_max_of_values() {
    assert_eq!(min_max(&[]), None);
    assert_eq!(min_max(&[4]), Some((4, 4)));
    assert_eq!(min_max(&[3, -7, 12, 0, 12]), Some((-7, 12)));
}

#[test]
fn rand_vec_stays_in_range() {
    let v = rand_vec(500, 3, 5);
    assert_eq!(v.len(), 500);
    assert!(v.iter().all(|x| *x == 3 || *x == 4));
    assert!(v.iter().any(|x| *x == 4));
    assert!(rand_vec(0, -1, 1).is_empty());
}

#[test]
fn words_from_bytes() {
    assert_eq!(to_vec32(vec![0x03, 0x02, 0x23, 0x07, 0xff]), vec![0x0723_0203]);
    assert_eq!(to_vec32(vec![1, 0, 0, 0, 0, 0, 0, 0x80]), vec![1, 0x8000_0000]);
    assert!(to_vec32(vec![1, 2, 3]).is_empty());
}

#[test]
fn shader_state_needs_every_object() {
    let b = ShaderStateBuilder::new()
        .shader(vk::ShaderModule::null())
        .descriptor(vk::DescriptorSet::null());
    assert!(b.build().is_none());
    let st = ShaderStateBuilder::new()
        .shader(vk::ShaderModule::null())
        .descriptor(vk::DescriptorSet::null())
        .write_descriptor(plan_bindings(&vec![]))
        .pipeline(vk::Pipeline::null())
        .build();
    assert!(st.is_some());
}

#[test]
fn memory_and_execution_state_need_memory() {
    assert!(MemoryStateBuilder::new().add_buffer(vk::Buffer::null()).build().is_none());
    let m = MemoryStateBuilder::new()
        .add_buffer(vk::Buffer::null())
        .memory(vk::DeviceMemory::null())
        .build()
        .unwrap();
    assert_eq!(m.buffers.len(), 1);
    assert!(ExecutionStateBuilder::new().build().is_none());
    let e = ExecutionStateBuilder::new().memory_state(m).build().unwrap();
    assert!(e.shaders_states.is_empty());
}
