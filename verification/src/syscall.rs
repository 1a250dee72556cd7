//! The syscall surface: entry points that validate arguments, translate
//! user pointers, and either act directly or forward to the scheduler and
//! the mapping manager. Each returns a signed integer, 0 for success and -1
//! for failure.
//!
//! The scheduler's "currently running task", the timer's microsecond count
//! and physical memory are passed in explicitly; a token naming the running
//! task's page table must be retrieved fresh on every syscall, never cached,
//! because the running task changes between syscalls.

use vstd::prelude::*;
use crate::addr::{PAGE_SIZE, vpn_of, offset_of, floor_vpn, page_offset};
use crate::page_table::{PageTable, Pte};
use crate::address_space::{page_count, range_set, region_added};
use crate::mapping::{mmap, munmap, mmap_allowed, munmap_allowed};
use crate::task::{Task, TaskStatus, TaskInfo};
use crate::time::{TimeVal, time_val_of};
use crate::phys_mem::{PhysMemory, UserData};

verus! {

/// What translating a pointer yields: the physical frame of its virtual
/// page, scaled to an address, plus the page offset, which translation
/// preserves.
pub open spec fn spec_translate(m: Map<usize, Pte>, ptr: usize) -> int {
    m[vpn_of(ptr)].ppn * PAGE_SIZE + offset_of(ptr)
}

/// The Address Translator: convert a user virtual pointer into a physical
/// address through the owning task's page table. The caller's buffer must
/// be validly mapped — an unmapped page here is a contract violation of the
/// user program, not a recoverable error — and the result must fit a
/// machine word. Looks the page up on every call; nothing is cached.
pub fn get_physical_address(table: &PageTable, ptr: usize) -> (pa: usize)
    requires
        table@.contains_key(vpn_of(ptr)),
        spec_translate(table@, ptr) <= usize::MAX,
    ensures
        pa == spec_translate(table@, ptr),
{
    let vpn = floor_vpn(ptr);
    let pte = table.find_pte(vpn).unwrap();
    pte.ppn * PAGE_SIZE + page_offset(ptr)
}

/// Terminal transition for the calling task: report its exit code and hand
/// control to the scheduler, which retires the task and runs the next one.
/// A real kernel never returns from this syscall; here the retired task is
/// left in the `Exited` state, which the scheduler never resumes.
pub fn sys_exit(task: &mut Task, exit_code: i32)
    ensures
        final(task).status == TaskStatus::Exited,
        final(task).space == old(task).space,
        final(task).syscall_times == old(task).syscall_times,
        final(task).run_time_us == old(task).run_time_us,
{
    let _ = exit_code;
    task.status = TaskStatus::Exited;
}

/// Voluntarily give up the remaining time slice. The scheduler suspends the
/// task and runs others; when control eventually returns, the task runs
/// again with its state intact and the syscall returns 0.
pub fn sys_yield(task: &mut Task) -> (r: isize)
    ensures
        r == 0,
        *final(task) == *old(task),
{
    let _ = task;
    0
}

/// Read the current monotonic time source and write the (seconds,
/// microseconds) pair into the user buffer at `ts`, through a translated
/// physical alias. The buffer must be validly mapped. Always returns 0.
pub fn sys_get_time(task: &Task, mem: &mut PhysMemory, ts: usize, _tz: usize, now_us: usize) -> (r:
    isize)
    requires
        task.space@.contains_key(vpn_of(ts)),
        spec_translate(task.space@, ts) <= usize::MAX,
    ensures
        r == 0,
        final(mem)@ == old(mem)@.insert(
            spec_translate(task.space@, ts) as usize,
            UserData::Time(time_val_of(now_us)),
        ),
{
    let tv = TimeVal::from_micros(now_us);
    let pa = get_physical_address(&task.space.table, ts);
    mem.write(pa, UserData::Time(tv));
    0
}

/// Unsupported in this configuration: always reports failure.
pub fn sys_set_priority(_prio: isize) -> (r: isize)
    ensures
        r == -1,
{
    -1
}

/// Create an anonymous mapping of `len` bytes at `start` with permission
/// mask `port`. Returns 0 exactly when the mask is valid, `start` is
/// page-aligned, the region is free and frames remain; otherwise returns -1
/// with the address space unchanged.
pub fn sys_mmap(task: &mut Task, start: usize, len: usize, port: usize) -> (r: isize)
    requires
        old(task).wf(),
        start + len <= usize::MAX,
    ensures
        final(task).wf(),
        r == 0 || r == -1,
        r == 0 <==> mmap_allowed(old(task).space, start, len, port),
        r == 0 ==> final(task).space@ == region_added(
            old(task).space@,
            old(task).space.next_frame,
            start,
            len,
            port,
        ) && final(task).space.next_frame == old(task).space.next_frame + page_count(start, len),
        r == -1 ==> final(task).space == old(task).space,
        final(task).status == old(task).status,
        final(task).syscall_times == old(task).syscall_times,
        final(task).run_time_us == old(task).run_time_us,
{
    match mmap(&mut task.space, start, len, port) {
        Ok(_) => 0,
        Err(_) => -1,
    }
}

/// Remove the mapping covering `[start, start+len)`. Returns 0 exactly when
/// `start` is page-aligned and the region is fully mapped; otherwise
/// returns -1 with the address space unchanged.
pub fn sys_munmap(task: &mut Task, start: usize, len: usize) -> (r: isize)
    requires
        old(task).wf(),
        start + len <= usize::MAX,
    ensures
        final(task).wf(),
        r == 0 || r == -1,
        r == 0 <==> munmap_allowed(old(task).space, start, len),
        r == 0 ==> final(task).space@ == old(task).space@.remove_keys(range_set(start, len))
            && final(task).space.next_frame == old(task).space.next_frame,
        r == -1 ==> final(task).space == old(task).space,
        final(task).status == old(task).status,
        final(task).syscall_times == old(task).syscall_times,
        final(task).run_time_us == old(task).run_time_us,
{
    match munmap(&mut task.space, start, len) {
        Ok(_) => 0,
        Err(_) => -1,
    }
}

/// Gather the running task's status, syscall counters and elapsed running
/// time (microseconds converted to whole milliseconds) and write the
/// snapshot into the user buffer at `ti`, through a translated physical
/// alias. The buffer must be validly mapped. Always returns 0.
pub fn sys_task_info(task: &Task, mem: &mut PhysMemory, ti: usize) -> (r: isize)
    requires
        task.space@.contains_key(vpn_of(ti)),
        spec_translate(task.space@, ti) <= usize::MAX,
    ensures
        r == 0,
        final(mem)@ == old(mem)@.insert(
            spec_translate(task.space@, ti) as usize,
            UserData::Info(
                (TaskInfo {
                    status: task.status,
                    syscall_times: task.syscall_times,
                    time: task.run_time_us / 1000,
                }),
            ),
        ),
{
    let info = TaskInfo {
        status: task.status,
        syscall_times: task.syscall_times,
        time: task.run_time_us / 1000,
    };
    let pa = get_physical_address(&task.space.table, ti);
    mem.write(pa, UserData::Info(info));
    0
}

} // verus!
