use syscall_core::directory::TaskDirectory;
use syscall_core::mapping::PAGE_SIZE;
use syscall_core::task::{
    TaskStatus, MAX_SYSCALL_NUM, SYSCALL_GET_TIME, SYSCALL_TASK_INFO, USER_HEAP_BOTTOM,
    USER_HEAP_TOP,
};

const MAP_BASE: usize = 0x2000_0000;

#[test]
fn boot_directory_is_fresh() {
    let d = TaskDirectory::new(3);
    assert_eq!(d.current, 0);
    assert_eq!(d.tasks.len(), 3);
    assert_eq!(d.ready, vec![1, 2]);
    assert!(matches!(d.tasks[0].status, TaskStatus::Running));
    assert!(matches!(d.tasks[1].status, TaskStatus::Ready));
    assert_eq!(d.tasks[0].syscall_times.len(), MAX_SYSCALL_NUM);
    assert!(d.tasks[0].syscall_times.iter().all(|&c| c == 0));
    assert_eq!(d.tasks[0].mappings.len(), 0);
    assert_eq!(d.tasks[0].brk, USER_HEAP_BOTTOM);
}

#[test]
fn get_time_splits_reading() {
    let mut d = TaskDirectory::new(1);
    let (r, tv) = d.sys_get_time(1_500_000);
    assert_eq!(r, 0);
    assert_eq!(tv.sec, 1);
    assert_eq!(tv.usec, 500_000);
}

#[test]
fn get_time_edge_readings() {
    let mut d = TaskDirectory::new(1);
    let (_, tv) = d.sys_get_time(999_999);
    assert_eq!((tv.sec, tv.usec), (0, 999_999));
    let (_, tv) = d.sys_get_time(1_000_000);
    assert_eq!((tv.sec, tv.usec), (1, 0));
    let (_, tv) = d.sys_get_time(0);
    assert_eq!((tv.sec, tv.usec), (0, 0));
}

#[test]
fn back_to_back_get_time_is_monotone() {
    let mut d = TaskDirectory::new(1);
    let (r1, tv1) = d.sys_get_time(2_345_678);
    let (r2, tv2) = d.sys_get_time(2_345_679);
    assert_eq!((r1, r2), (0, 0));
    assert!(tv1.usec < 1_000_000);
    assert!(tv2.usec < 1_000_000);
    assert!(tv2.sec > tv1.sec || (tv2.sec == tv1.sec && tv2.usec >= tv1.usec));
}

#[test]
fn get_time_counter_strictly_increases() {
    let mut d = TaskDirectory::new(1);
    d.sys_get_time(10);
    let (_, info1) = d.sys_task_info();
    d.sys_get_time(20);
    let (_, info2) = d.sys_task_info();
    assert_eq!(info1.syscall_times[SYSCALL_GET_TIME], 1);
    assert_eq!(info2.syscall_times[SYSCALL_GET_TIME], 2);
    assert_eq!(
        info2.syscall_times[SYSCALL_GET_TIME],
        info1.syscall_times[SYSCALL_GET_TIME] + 1
    );
}

#[test]
fn task_info_counts_its_own_call() {
    let mut d = TaskDirectory::new(1);
    let (r, info) = d.sys_task_info();
    assert_eq!(r, 0);
    assert!(matches!(info.status, TaskStatus::Running));
    assert_eq!(info.syscall_times[SYSCALL_TASK_INFO], 1);
    assert_eq!(info.syscall_times[SYSCALL_GET_TIME], 0);
    assert_eq!(info.time, 0);
}

#[test]
fn task_info_reports_run_time() {
    let mut d = TaskDirectory::new(1);
    d.record_run_time(7);
    d.record_run_time(35);
    let (_, info) = d.sys_task_info();
    assert_eq!(info.time, 42);
}

#[test]
fn mmap_munmap_round_trip() {
    let mut d = TaskDirectory::new(1);
    assert_eq!(d.sys_mmap(MAP_BASE, 2 * PAGE_SIZE, 3), 0);
    assert_eq!(d.tasks[0].mappings.len(), 1);
    assert_eq!(d.tasks[0].mappings[0].base, MAP_BASE);
    assert_eq!(d.tasks[0].mappings[0].page_count, 2);
    assert_eq!(d.tasks[0].mappings[0].permissions, 3);
    assert_eq!(d.sys_munmap(MAP_BASE, 2 * PAGE_SIZE), 0);
    assert_eq!(d.tasks[0].mappings.len(), 0);
    // no double free: the same unmap again fails
    assert_eq!(d.sys_munmap(MAP_BASE, 2 * PAGE_SIZE), -1);
}

#[test]
fn mmap_rounds_length_up() {
    let mut d = TaskDirectory::new(1);
    assert_eq!(d.sys_mmap(MAP_BASE, 1, 7), 0);
    assert_eq!(d.tasks[0].mappings[0].page_count, 1);
    // the rounded length is what munmap must match
    assert_eq!(d.sys_munmap(MAP_BASE, PAGE_SIZE), 0);
    assert_eq!(d.tasks[0].mappings.len(), 0);
}

#[test]
fn mmap_invalid_port_rejected() {
    let mut d = TaskDirectory::new(1);
    assert_eq!(d.sys_mmap(MAP_BASE, PAGE_SIZE, 0), -1);
    assert_eq!(d.sys_mmap(MAP_BASE, PAGE_SIZE, 8), -1);
    assert_eq!(d.sys_mmap(MAP_BASE, PAGE_SIZE, 0x10 | 1), -1);
    assert_eq!(d.sys_mmap(MAP_BASE, 123, 0), -1);
    assert_eq!(d.tasks[0].mappings.len(), 0);
}

#[test]
fn mmap_zero_length_trivially_succeeds() {
    let mut d = TaskDirectory::new(1);
    assert_eq!(d.sys_mmap(MAP_BASE, 0, 3), 0);
    assert_eq!(d.sys_mmap(MAP_BASE + PAGE_SIZE, 0, 7), 0);
    // zero length is checked before the permission bits
    assert_eq!(d.sys_mmap(MAP_BASE, 0, 0), 0);
    assert_eq!(d.tasks[0].mappings.len(), 0);
}

#[test]
fn mmap_overlap_rejected() {
    let mut d = TaskDirectory::new(1);
    assert_eq!(d.sys_mmap(MAP_BASE, 2 * PAGE_SIZE, 3), 0);
    // second call overlapping the tail page fails and changes nothing
    assert_eq!(d.sys_mmap(MAP_BASE + PAGE_SIZE, PAGE_SIZE, 3), -1);
    assert_eq!(d.sys_mmap(MAP_BASE, 2 * PAGE_SIZE, 3), -1);
    assert_eq!(d.tasks[0].mappings.len(), 1);
    assert_eq!(d.tasks[0].mappings[0].base, MAP_BASE);
    assert_eq!(d.tasks[0].mappings[0].page_count, 2);
    // an adjacent, non-overlapping range is still fine
    assert_eq!(d.sys_mmap(MAP_BASE + 2 * PAGE_SIZE, PAGE_SIZE, 3), 0);
    assert_eq!(d.tasks[0].mappings.len(), 2);
}

#[test]
fn mmap_misaligned_start_rejected() {
    let mut d = TaskDirectory::new(1);
    assert_eq!(d.sys_mmap(MAP_BASE + 1, PAGE_SIZE, 3), -1);
    assert_eq!(d.tasks[0].mappings.len(), 0);
}

#[test]
fn mmap_range_past_address_space_rejected() {
    let mut d = TaskDirectory::new(1);
    let top_page = usize::MAX - (PAGE_SIZE - 1);
    assert_eq!(d.sys_mmap(top_page, PAGE_SIZE, 3), -1);
    assert_eq!(d.tasks[0].mappings.len(), 0);
}

#[test]
fn munmap_partial_or_unmapped_rejected() {
    let mut d = TaskDirectory::new(1);
    assert_eq!(d.sys_mmap(MAP_BASE, 2 * PAGE_SIZE, 3), 0);
    // partial unmap of one page out of two
    assert_eq!(d.sys_munmap(MAP_BASE, PAGE_SIZE), -1);
    // unmap at the wrong start
    assert_eq!(d.sys_munmap(MAP_BASE + PAGE_SIZE, PAGE_SIZE), -1);
    // unmap of a range that was never mapped
    assert_eq!(d.sys_munmap(0x3000_0000, PAGE_SIZE), -1);
    // zero length matches no whole mapping
    assert_eq!(d.sys_munmap(MAP_BASE, 0), -1);
    assert_eq!(d.tasks[0].mappings.len(), 1);
}

#[test]
fn sbrk_round_trip() {
    let mut d = TaskDirectory::new(1);
    let r1 = d.sys_sbrk(4096);
    assert_eq!(r1, USER_HEAP_BOTTOM as isize);
    let r2 = d.sys_sbrk(-4096);
    assert_eq!(r2, (USER_HEAP_BOTTOM + 4096) as isize);
    assert_eq!(d.tasks[0].brk, USER_HEAP_BOTTOM);
}

#[test]
fn sbrk_below_floor_rejected() {
    let mut d = TaskDirectory::new(1);
    assert_eq!(d.sys_sbrk(-1), -1);
    assert_eq!(d.tasks[0].brk, USER_HEAP_BOTTOM);
    assert_eq!(d.sys_sbrk(4096), USER_HEAP_BOTTOM as isize);
    assert_eq!(d.sys_sbrk(-4097), -1);
    assert_eq!(d.tasks[0].brk, USER_HEAP_BOTTOM + 4096);
}

#[test]
fn sbrk_above_ceiling_rejected() {
    let mut d = TaskDirectory::new(1);
    let room = USER_HEAP_TOP - USER_HEAP_BOTTOM;
    assert!(room <= i32::MAX as usize);
    assert_eq!(d.sys_sbrk(room as i32), USER_HEAP_BOTTOM as isize);
    assert_eq!(d.tasks[0].brk, USER_HEAP_TOP);
    assert_eq!(d.sys_sbrk(1), -1);
    assert_eq!(d.tasks[0].brk, USER_HEAP_TOP);
}

#[test]
fn sbrk_zero_reports_break() {
    let mut d = TaskDirectory::new(1);
    assert_eq!(d.sys_sbrk(0), USER_HEAP_BOTTOM as isize);
    assert_eq!(d.tasks[0].brk, USER_HEAP_BOTTOM);
}

#[test]
fn yield_rotates_two_tasks() {
    let mut d = TaskDirectory::new(2);
    assert_eq!(d.sys_yield(), 0);
    assert_eq!(d.current, 1);
    assert_eq!(d.current_task_id(), 1);
    assert!(matches!(d.tasks[0].status, TaskStatus::Ready));
    assert!(matches!(d.tasks[1].status, TaskStatus::Running));
    assert_eq!(d.ready, vec![0]);
    assert_eq!(d.sys_yield(), 0);
    assert_eq!(d.current, 0);
    assert_eq!(d.ready, vec![1]);
}

#[test]
fn yield_with_no_other_task_keeps_running() {
    let mut d = TaskDirectory::new(1);
    assert_eq!(d.sys_yield(), 0);
    assert_eq!(d.current, 0);
    assert!(matches!(d.tasks[0].status, TaskStatus::Running));
    assert!(d.ready.is_empty());
}

#[test]
fn exit_releases_and_switches() {
    let mut d = TaskDirectory::new(2);
    assert_eq!(d.sys_mmap(MAP_BASE, PAGE_SIZE, 3), 0);
    d.sys_exit(17);
    assert!(matches!(d.tasks[0].status, TaskStatus::Exited));
    assert_eq!(d.tasks[0].exit_code, 17);
    assert_eq!(d.tasks[0].mappings.len(), 0);
    assert_eq!(d.current, 1);
    assert!(matches!(d.tasks[1].status, TaskStatus::Running));
    assert!(d.ready.is_empty());
}

#[test]
fn exit_of_last_task_idles() {
    let mut d = TaskDirectory::new(1);
    d.sys_exit(0);
    assert!(matches!(d.tasks[0].status, TaskStatus::Exited));
    assert_eq!(d.current, 0);
    assert!(d.ready.is_empty());
}

#[test]
fn mappings_are_per_task() {
    let mut d = TaskDirectory::new(2);
    assert_eq!(d.sys_mmap(MAP_BASE, PAGE_SIZE, 3), 0);
    assert_eq!(d.sys_yield(), 0);
    // the other task's address space is untouched, and the same range is
    // free for it
    assert_eq!(d.tasks[1].mappings.len(), 0);
    assert_eq!(d.sys_mmap(MAP_BASE, PAGE_SIZE, 7), 0);
    assert_eq!(d.tasks[0].mappings.len(), 1);
    assert_eq!(d.tasks[1].mappings.len(), 1);
}
