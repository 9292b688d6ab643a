use wyzoid::layout::{compute_non_overlapping_buffer_alignment, MemoryRequirement};
use wyzoid::memory::{find_mem, AllocationError, BindError, MemoryPool, MemoryTypeInfo};

fn req(size: u64, alignment: u64) -> MemoryRequirement {
    MemoryRequirement { size, alignment }
}

#[test]
fn layout_of_no_buffers_is_empty() {
    let l = compute_non_overlapping_buffer_alignment(&vec![]).unwrap();
    assert_eq!(l.total_size, 0);
    assert!(l.offsets.is_empty());
}

#[test]
fn layout_pads_each_offset_to_its_alignment() {
    let reqs = vec![req(10, 4), req(8, 16), req(3, 1)];
    let l = compute_non_overlapping_buffer_alignment(&reqs).unwrap();
    assert_eq!(l.offsets, vec![0, 16, 24]);
    assert_eq!(l.total_size, 27);
}

#[test]
fn layout_keeps_aligned_cursor() {
    let reqs = vec![req(64, 64), req(64, 64), req(256, 256)];
    let l = compute_non_overlapping_buffer_alignment(&reqs).unwrap();
    assert_eq!(l.offsets, vec![0, 64, 256]);
    assert_eq!(l.total_size, 512);
}

#[test]
fn layout_ranges_are_disjoint_and_aligned() {
    let reqs = vec![
        req(7, 8),
        req(1, 256),
        req(300, 4),
        req(0, 16),
        req(33, 32),
        req(5, 1),
        req(64, 64),
    ];
    let l = compute_non_overlapping_buffer_alignment(&reqs).unwrap();
    let mut sum: u64 = 0;
    for i in 0..reqs.len() {
        assert_eq!(l.offsets[i] % reqs[i].alignment, 0);
        assert!(l.offsets[i] + reqs[i].size <= l.total_size);
        sum += reqs[i].size + reqs[i].alignment;
        for j in 0..reqs.len() {
            if i != j {
                let (a, b) = (l.offsets[i], l.offsets[j]);
                assert!(a + reqs[i].size <= b || b + reqs[j].size <= a);
            }
        }
    }
    assert!(l.total_size <= sum);
}

#[test]
fn layout_that_overflows_is_refused() {
    let reqs = vec![req(u64::MAX - 2, 1), req(4, 8)];
    assert!(compute_non_overlapping_buffer_alignment(&reqs).is_none());
    let reqs = vec![req(u64::MAX, 1), req(1, 1)];
    assert!(compute_non_overlapping_buffer_alignment(&reqs).is_none());
}

fn mem(host_visible: bool, host_coherent: bool, heap_size: u64) -> MemoryTypeInfo {
    MemoryTypeInfo { host_visible, host_coherent, heap_size }
}

#[test]
fn find_mem_picks_last_fitting_type() {
    let types = vec![
        mem(true, true, 100),
        mem(true, false, 1000),
        mem(true, true, 1000),
        mem(false, true, 1000),
        mem(true, true, 10),
    ];
    assert_eq!(find_mem(&types, 50), Ok(2));
    assert_eq!(find_mem(&types, 5), Ok(4));
    assert_eq!(find_mem(&types, 100), Ok(2));
}

#[test]
fn find_mem_without_fitting_type_fails() {
    let types = vec![mem(true, true, 100), mem(true, false, 1 << 30)];
    assert_eq!(find_mem(&types, 100), Err(AllocationError::NoSuitableMemoryType));
    assert_eq!(find_mem(&vec![], 1), Err(AllocationError::NoSuitableMemoryType));
}

#[test]
fn pool_round_trip() {
    let mut pool = MemoryPool::new(32, &vec![8, 4]);
    assert_eq!(pool.bind(0, 0), Ok(()));
    assert_eq!(pool.bind(1, 16), Ok(()));
    let data: Vec<u8> = vec![1, 2, 3, 4, 5, 6, 7, 8];
    assert_eq!(pool.write(0, &data), Ok(()));
    assert_eq!(pool.write(1, &vec![9, 9, 9, 9]), Ok(()));
    assert_eq!(pool.read(0), Ok(data));
    assert_eq!(pool.read(1), Ok(vec![9, 9, 9, 9]));
    assert_eq!(pool.bytes()[8..16].to_vec(), vec![0u8; 8]);
    assert_eq!(pool.bytes()[16..20].to_vec(), vec![9u8; 4]);
}

#[test]
fn pool_short_write_keeps_tail() {
    let mut pool = MemoryPool::new(8, &vec![8]);
    pool.bind(0, 0).unwrap();
    pool.write(0, &vec![7; 8]).unwrap();
    pool.write(0, &vec![1, 2]).unwrap();
    assert_eq!(pool.read(0), Ok(vec![1, 2, 7, 7, 7, 7, 7, 7]));
}

#[test]
fn pool_refuses_out_of_range() {
    let mut pool = MemoryPool::new(16, &vec![8, 4]);
    assert_eq!(pool.bind(0, 12), Err(BindError::OutOfRange));
    assert_eq!(pool.bind(1, 16), Err(BindError::OutOfRange));
    assert_eq!(pool.bind(0, 8), Ok(()));
    assert_eq!(pool.write(0, &vec![0; 9]), Err(BindError::OutOfRange));
    assert_eq!(pool.read(0), Ok(vec![0; 8]));
}

#[test]
fn pool_refuses_second_bind() {
    let mut pool = MemoryPool::new(16, &vec![4]);
    assert_eq!(pool.bind(0, 0), Ok(()));
    assert_eq!(pool.bind(0, 4), Err(BindError::AlreadyBound));
    pool.write(0, &vec![3, 3, 3, 3]).unwrap();
    assert_eq!(pool.bytes()[4..8].to_vec(), vec![0u8; 4]);
}

#[test]
fn pool_refuses_unbound_buffer() {
    let mut pool = MemoryPool::new(16, &vec![4]);
    assert_eq!(pool.read(0), Err(BindError::NotBound));
    assert_eq!(pool.write(0, &vec![1]), Err(BindError::NotBound));
}

#[test]
fn pool_loads_device_image() {
    let mut pool = MemoryPool::new(4, &vec![2, 2]);
    pool.bind(0, 0).unwrap();
    pool.bind(1, 2).unwrap();
    assert_eq!(pool.load_device_image(vec![1, 2, 3]), Err(BindError::OutOfRange));
    assert_eq!(pool.load_device_image(vec![1, 2, 3, 4]), Ok(()));
    assert_eq!(pool.read(1), Ok(vec![3, 4]));
    assert_eq!(pool.total_size(), 4);
    assert_eq!(pool.buffer_count(), 2);
}
