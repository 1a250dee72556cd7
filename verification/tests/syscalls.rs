use os4::task::{Task, TaskStatus};
use os4::syscall::{
    sys_exit, sys_yield, sys_get_time, sys_set_priority, sys_mmap, sys_munmap, sys_task_info,
    get_physical_address,
};
use os4::phys_mem::{PhysMemory, UserData};

#[test]
fn mmap_munmap_scenario() {
    let mut t = Task::new();
    assert_eq!(sys_mmap(&mut t, 0x10000, 4096, 0b011), 0);
    assert_eq!(sys_munmap(&mut t, 0x10000, 4096), 0);
    assert_eq!(sys_mmap(&mut t, 0x10001, 4096, 0b011), -1);
    assert_eq!(sys_mmap(&mut t, 0x10000, 4096, 0b000), -1);
    assert_eq!(sys_mmap(&mut t, 0x10000, 4096, 0b1000), -1);
}

#[test]
fn mmap_accepts_every_valid_permission_mask() {
    for port in 1usize..=7 {
        let mut t = Task::new();
        assert_eq!(sys_mmap(&mut t, 0x10000, 4096, port), 0);
    }
}

#[test]
fn mmap_rejects_invalid_permission_masks() {
    let mut t = Task::new();
    for port in [0usize, 0b1000, 0b10000, 0b1010, 0x100, usize::MAX] {
        assert_eq!(sys_mmap(&mut t, 0x10000, 4096, port), -1);
    }
    // The address space is untouched: nothing there to unmap.
    assert_eq!(sys_munmap(&mut t, 0x10000, 4096), -1);
}

#[test]
fn misaligned_requests_fail_and_change_nothing() {
    let mut t = Task::new();
    assert_eq!(sys_mmap(&mut t, 0x10000 + 1, 4096, 0b011), -1);
    assert_eq!(sys_munmap(&mut t, 0x10000 + 1, 4096), -1);
    // Nothing was mapped by the failed call.
    assert_eq!(sys_munmap(&mut t, 0x10000, 4096), -1);
    // A mapped region survives a later misaligned request.
    assert_eq!(sys_mmap(&mut t, 0x10000, 4096, 0b001), 0);
    assert_eq!(sys_mmap(&mut t, 0x20001, 4096, 0b001), -1);
    assert_eq!(sys_munmap(&mut t, 0x10000, 4096), 0);
}

#[test]
fn mmap_rejects_overlap() {
    let mut t = Task::new();
    assert_eq!(sys_mmap(&mut t, 0x10000, 2 * 4096, 0b011), 0);
    assert_eq!(sys_mmap(&mut t, 0x10000, 4096, 0b011), -1);
    // Overlap on the second page only is still an overlap.
    assert_eq!(sys_mmap(&mut t, 0x11000, 4096, 0b011), -1);
    // The region next to it is free.
    assert_eq!(sys_mmap(&mut t, 0x12000, 4096, 0b011), 0);
}

#[test]
fn munmap_after_mmap_leaves_region_unmapped() {
    let mut t = Task::new();
    assert_eq!(sys_mmap(&mut t, 0x10000, 3 * 4096, 0b011), 0);
    assert_eq!(sys_munmap(&mut t, 0x10000, 3 * 4096), 0);
    // Unmapping again fails: no page of the region is mapped any more.
    assert_eq!(sys_munmap(&mut t, 0x10000, 3 * 4096), -1);
    // The region can be mapped afresh.
    assert_eq!(sys_mmap(&mut t, 0x10000, 3 * 4096, 0b011), 0);
}

#[test]
fn munmap_of_partly_mapped_region_fails() {
    let mut t = Task::new();
    assert_eq!(sys_mmap(&mut t, 0x10000, 4096, 0b011), 0);
    // [0x10000, 0x12000) is only half mapped.
    assert_eq!(sys_munmap(&mut t, 0x10000, 2 * 4096), -1);
    // The mapped half is still there.
    assert_eq!(sys_munmap(&mut t, 0x10000, 4096), 0);
}

#[test]
fn munmap_can_split_a_mapping() {
    let mut t = Task::new();
    assert_eq!(sys_mmap(&mut t, 0x10000, 2 * 4096, 0b011), 0);
    assert_eq!(sys_munmap(&mut t, 0x10000, 4096), 0);
    // The second page is still mapped.
    assert_eq!(sys_munmap(&mut t, 0x11000, 4096), 0);
}

#[test]
fn mmap_length_rounds_up_to_pages() {
    let mut t = Task::new();
    // One byte still reserves the whole page.
    assert_eq!(sys_mmap(&mut t, 0x10000, 1, 0b001), 0);
    assert_eq!(sys_munmap(&mut t, 0x10000, 4096), 0);
    // A page and a byte reserve two pages.
    assert_eq!(sys_mmap(&mut t, 0x10000, 4096 + 1, 0b001), 0);
    assert_eq!(sys_munmap(&mut t, 0x11000, 4096), 0);
    assert_eq!(sys_munmap(&mut t, 0x10000, 4096), 0);
}

#[test]
fn mmap_of_empty_region_succeeds_and_maps_nothing() {
    let mut t = Task::new();
    assert_eq!(sys_mmap(&mut t, 0x10000, 0, 0b011), 0);
    assert_eq!(sys_munmap(&mut t, 0x10000, 4096), -1);
}

#[test]
fn translation_uses_frame_and_keeps_offset() {
    let mut t = Task::new();
    // A fresh task's allocator starts at frame 0: the two pages of this
    // region get frames 0 and 1.
    assert_eq!(sys_mmap(&mut t, 0x10000, 2 * 4096, 0b011), 0);
    assert_eq!(get_physical_address(&t.space.table, 0x10000), 0);
    assert_eq!(get_physical_address(&t.space.table, 0x10000 + 123), 123);
    assert_eq!(get_physical_address(&t.space.table, 0x11000 + 4095), 4096 + 4095);
}

#[test]
fn get_time_writes_the_split_microsecond_count() {
    let mut t = Task::new();
    let mut mem = PhysMemory::new();
    assert_eq!(sys_mmap(&mut t, 0x10000, 4096, 0b011), 0);
    let us = 3_456_789usize;
    assert_eq!(sys_get_time(&t, &mut mem, 0x10000 + 16, 0, us), 0);
    // The buffer sits at offset 16 of the page backed by frame 0.
    match mem.read(16) {
        Some(UserData::Time(tv)) => {
            assert_eq!(tv.sec, 3);
            assert_eq!(tv.usec, 456_789);
            assert_eq!(tv.sec * 1_000_000 + tv.usec, us);
        }
        _ => panic!("no time value stored"),
    }
}

#[test]
fn get_time_is_monotonic_across_calls() {
    let mut t = Task::new();
    let mut mem = PhysMemory::new();
    assert_eq!(sys_mmap(&mut t, 0x10000, 4096, 0b011), 0);
    let mut last: usize = 0;
    for us in [0usize, 1, 999_999, 1_000_000, 1_000_001, 87_654_321] {
        assert_eq!(sys_get_time(&t, &mut mem, 0x10000, 0, us), 0);
        match mem.read(0) {
            Some(UserData::Time(tv)) => {
                let rebuilt = tv.sec * 1_000_000 + tv.usec;
                assert_eq!(rebuilt, us);
                assert!(rebuilt >= last);
                assert!(tv.usec < 1_000_000);
                last = rebuilt;
            }
            _ => panic!("no time value stored"),
        }
    }
}

#[test]
fn task_info_snapshots_the_running_task() {
    let mut t = Task::new();
    let mut mem = PhysMemory::new();
    assert_eq!(sys_mmap(&mut t, 0x10000, 4096, 0b011), 0);
    t.syscall_times[5] = 7;
    t.run_time_us = 123_456;
    assert_eq!(sys_task_info(&t, &mut mem, 0x10000 + 64), 0);
    match mem.read(64) {
        Some(UserData::Info(info)) => {
            assert_eq!(info.status, TaskStatus::Running);
            assert_eq!(info.syscall_times[5], 7);
            assert_eq!(info.syscall_times[0], 0);
            // Elapsed time is reported in whole milliseconds.
            assert_eq!(info.time, 123);
        }
        _ => panic!("no task snapshot stored"),
    }
}

#[test]
fn yield_returns_zero_and_preserves_the_task() {
    let mut t = Task::new();
    assert_eq!(sys_mmap(&mut t, 0x10000, 4096, 0b011), 0);
    assert_eq!(sys_yield(&mut t), 0);
    assert_eq!(t.status, TaskStatus::Running);
    assert_eq!(sys_munmap(&mut t, 0x10000, 4096), 0);
}

#[test]
fn exit_retires_the_task() {
    let mut t = Task::new();
    sys_exit(&mut t, 3);
    assert_eq!(t.status, TaskStatus::Exited);
}

#[test]
fn set_priority_is_unsupported() {
    assert_eq!(sys_set_priority(0), -1);
    assert_eq!(sys_set_priority(16), -1);
    assert_eq!(sys_set_priority(-5), -1);
}
