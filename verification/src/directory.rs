//! The task directory: the explicitly owned state behind the syscall
//! handlers, indexed by task id.
//!
//! One task is current (on the single CPU); runnable tasks wait in a FIFO
//! ready queue. Every handler is a method that takes the directory by
//! mutable reference, validates its plain-value arguments, and returns the
//! signed result word of the syscall convention: `0` (or the previous break
//! for `sbrk`) on success, `-1` on failure.

use vstd::prelude::*;
use vstd::assert_seqs_equal;
use crate::mapping::{
    lemma_mmap_preserves_wf, lemma_munmap_preserves_wf, mmap_into, mmap_post, munmap_from,
    munmap_post,
};
use crate::task::{
    bumped, counted_frame, counted_with_status, exited, only_counted, same_with_status,
    sbrk_accepts, TaskControl,
    TaskInfo, TaskStatus, SYSCALL_EXIT, SYSCALL_GET_TIME, SYSCALL_MMAP, SYSCALL_MUNMAP,
    SYSCALL_SBRK, SYSCALL_TASK_INFO, SYSCALL_YIELD,
};
use crate::time::TimeVal;

verus! {

/// The directory of all tasks, the current task id, and the FIFO queue of
/// runnable task ids.
#[derive(Debug)]
pub struct TaskDirectory {
    /// All task records, indexed by task id.
    pub tasks: Vec<TaskControl>,
    /// Id of the task the CPU is executing (or, once every task has
    /// exited, of the last one to run).
    pub current: usize,
    /// Ids of the `Ready` tasks, in scheduling order.
    pub ready: Vec<usize>,
}

impl TaskDirectory {
    /// The record of the current task.
    pub open spec fn cur_task(self) -> TaskControl {
        self.tasks@[self.current as int]
    }

    /// Structural invariant: ids in range, every record well formed, the
    /// ready queue holding distinct `Ready` tasks other than the current
    /// one, and the current task `Running` — or `Exited` when the last
    /// runnable task has exited and the kernel idles.
    pub open spec fn wf(self) -> bool {
        &&& self.tasks@.len() > 0
        &&& self.current < self.tasks@.len()
        &&& forall|i: int| 0 <= i < self.tasks@.len() ==> self.tasks@[i].wf()
        &&& forall|i: int| 0 <= i < self.ready@.len() ==> self.ready@[i] < self.tasks@.len()
        &&& forall|i: int|
            0 <= i < self.ready@.len() ==> self.tasks@[self.ready@[i] as int].status
                == TaskStatus::Ready
        &&& forall|i: int, j: int|
            0 <= i < j < self.ready@.len() ==> self.ready@[i] != self.ready@[j]
        &&& forall|i: int| 0 <= i < self.ready@.len() ==> self.ready@[i] != self.current
        &&& (self.cur_task().status == TaskStatus::Running || self.cur_task().status
            == TaskStatus::Exited)
    }

    /// Everything outside the current task's record is untouched: same
    /// current id, same ready queue, every other record unchanged.
    pub open spec fn others_unchanged(pre: TaskDirectory, post: TaskDirectory) -> bool {
        &&& post.current == pre.current
        &&& post.ready@ == pre.ready@
        &&& post.tasks@.len() == pre.tasks@.len()
        &&& forall|i: int|
            0 <= i < pre.tasks@.len() && i != pre.current ==> post.tasks@[i] == pre.tasks@[i]
    }

    /// Boots a directory of `num_tasks` fresh tasks: task 0 running, the
    /// rest ready in id order.
    pub fn new(num_tasks: usize) -> (d: TaskDirectory)
        requires
            num_tasks >= 1,
        ensures
            d.wf(),
            d.tasks@.len() == num_tasks,
            d.current == 0,
            d.cur_task().status == TaskStatus::Running,
            forall|i: int| 0 <= i < num_tasks ==> d.tasks@[i].is_fresh(),
            forall|i: int| 1 <= i < num_tasks ==> d.tasks@[i].status == TaskStatus::Ready,
            d.ready@.len() == num_tasks - 1,
            forall|i: int| 0 <= i < num_tasks - 1 ==> d.ready@[i] == i + 1,
    {
        let mut tasks: Vec<TaskControl> = Vec::new();
        let mut ready: Vec<usize> = Vec::new();
        tasks.push(TaskControl::new(TaskStatus::Running));
        let mut id: usize = 1;
        while id < num_tasks
            invariant
                1 <= id <= num_tasks,
                tasks@.len() == id,
                ready@.len() == id - 1,
                forall|i: int| 0 <= i < id ==> tasks@[i].wf(),
                forall|i: int| 0 <= i < id ==> tasks@[i].is_fresh(),
                tasks@[0].status == TaskStatus::Running,
                forall|i: int| 1 <= i < id ==> tasks@[i].status == TaskStatus::Ready,
                forall|i: int| 0 <= i < id - 1 ==> ready@[i] == i + 1,
            decreases num_tasks - id,
        {
            tasks.push(TaskControl::new(TaskStatus::Ready));
            ready.push(id);
            id += 1;
        }
        TaskDirectory { tasks, current: 0, ready }
    }

    /// Id of the task the CPU is executing.
    pub fn current_task_id(&self) -> (id: usize)
        ensures
            id == self.current,
    {
        self.current
    }

    /// Counts one invocation of syscall `id` against the current task and
    /// hands its record back for the handler's own effect.
    fn take_cur_counted(&mut self, id: usize) -> (t: TaskControl)
        requires
            old(self).wf(),
            id < crate::task::MAX_SYSCALL_NUM,
        ensures
            counted_frame(old(self).cur_task(), t, id as int),
            t.status == old(self).cur_task().status,
            t.mappings@ == old(self).cur_task().mappings@,
            t.brk == old(self).cur_task().brk,
            t.wf(),
            final(self).tasks@ == old(self).tasks@.remove(old(self).current as int),
            final(self).current == old(self).current,
            final(self).ready@ == old(self).ready@,
    {
        let c = self.current;
        let mut t = self.tasks.remove(c);
        t.bump_syscall(id);
        t
    }

    /// Puts the current task's record back at its id.
    fn put_cur(&mut self, t: TaskControl, ghost_pre: Ghost<TaskDirectory>)
        requires
            ghost_pre@.wf(),
            old(self).tasks@ == ghost_pre@.tasks@.remove(ghost_pre@.current as int),
            old(self).current == ghost_pre@.current,
            old(self).ready@ == ghost_pre@.ready@,
        ensures
            final(self).tasks@ == ghost_pre@.tasks@.update(ghost_pre@.current as int, t),
            final(self).current == ghost_pre@.current,
            final(self).ready@ == ghost_pre@.ready@,
            TaskDirectory::others_unchanged(ghost_pre@, *final(self)),
            final(self).cur_task() == t,
    {
        let c = self.current;
        self.tasks.insert(c, t);
        proof {
            let pre_tasks = ghost_pre@.tasks@;
            let ci = ghost_pre@.current as int;
            assert_seqs_equal!(pre_tasks.remove(ci).insert(ci, t) == pre_tasks.update(ci, t));
        }
    }

    /// How `sys_yield` relates the directory before and after. The caller
    /// is counted and moved to the back of the ready queue; the head of the
    /// queue (the caller itself when no other task was ready) becomes the
    /// running current task. Nothing else moves.
    pub open spec fn yield_post(pre: TaskDirectory, post: TaskDirectory) -> bool {
        let c = pre.current as int;
        &&& post.tasks@.len() == pre.tasks@.len()
        &&& if pre.ready@.len() == 0 {
            &&& post.current == pre.current
            &&& post.ready@ == pre.ready@
            &&& only_counted(pre.tasks@[c], post.tasks@[c], SYSCALL_YIELD as int)
            &&& forall|i: int|
                0 <= i < pre.tasks@.len() && i != c ==> post.tasks@[i] == pre.tasks@[i]
        } else {
            let n = pre.ready@[0] as int;
            &&& post.current == pre.ready@[0]
            &&& post.ready@ == pre.ready@.drop_first().push(pre.current)
            &&& counted_with_status(pre.tasks@[c], post.tasks@[c], SYSCALL_YIELD as int,
            TaskStatus::Ready)
            &&& same_with_status(pre.tasks@[n], post.tasks@[n], TaskStatus::Running)
            &&& forall|i: int|
                0 <= i < pre.tasks@.len() && i != c && i != n ==> post.tasks@[i] == pre.tasks@[i]
        }
    }

    /// How `sys_exit` relates the directory before and after. The caller's
    /// record is terminated ([`exited`]); the head of the ready queue, if
    /// any task is still runnable, becomes the running current task, and
    /// otherwise the kernel idles with the exited task still current.
    pub open spec fn exit_post(pre: TaskDirectory, post: TaskDirectory, code: i32) -> bool {
        let c = pre.current as int;
        &&& post.tasks@.len() == pre.tasks@.len()
        &&& exited(pre.tasks@[c], post.tasks@[c], code)
        &&& if pre.ready@.len() == 0 {
            &&& post.current == pre.current
            &&& post.ready@ == pre.ready@
            &&& forall|i: int|
                0 <= i < pre.tasks@.len() && i != c ==> post.tasks@[i] == pre.tasks@[i]
        } else {
            let n = pre.ready@[0] as int;
            &&& post.current == pre.ready@[0]
            &&& post.ready@ == pre.ready@.drop_first()
            &&& same_with_status(pre.tasks@[n], post.tasks@[n], TaskStatus::Running)
            &&& forall|i: int|
                0 <= i < pre.tasks@.len() && i != c && i != n ==> post.tasks@[i] == pre.tasks@[i]
        }
    }

    /// `sys_yield`: the current task gives the CPU up. It is counted,
    /// marked `Ready` at the back of the ready queue, and the next
    /// runnable task — the caller itself when none other is ready — starts
    /// running. Always returns 0; the call has no failure mode.
    pub fn sys_yield(&mut self) -> (r: isize)
        requires
            old(self).wf(),
            old(self).cur_task().status == TaskStatus::Running,
        ensures
            final(self).wf(),
            r == 0,
            TaskDirectory::yield_post(*old(self), *final(self)),
            final(self).cur_task().status == TaskStatus::Running,
    {
        let ghost pre = *self;
        let mut t = self.take_cur_counted(SYSCALL_YIELD);
        t.status = TaskStatus::Ready;
        self.put_cur(t, Ghost(pre));
        let c = self.current;
        self.ready.push(c);
        let n = self.ready.remove(0);
        let ghost mid = *self;
        let mut t2 = self.tasks.remove(n);
        t2.status = TaskStatus::Running;
        self.tasks.insert(n, t2);
        self.current = n;
        proof {
            let ci = pre.current as int;
            let ni = n as int;
            assert_seqs_equal!(
                mid.tasks@.remove(ni).insert(ni, t2) == mid.tasks@.update(ni, t2)
            );
            if pre.ready@.len() == 0 {
                assert(n == pre.current);
                assert(self.ready@ =~= pre.ready@);
                assert(self.tasks@ =~= pre.tasks@.update(ci, t2));
            } else {
                assert(n == pre.ready@[0]);
                assert(ni != ci);
                assert(self.ready@ =~= pre.ready@.drop_first().push(pre.current));
                assert(self.tasks@[ci] == t);
                assert(self.tasks@[ni] == t2);
            }
        }
        0
    }

    /// `sys_exit`: the current task terminates with `code`. Its record is
    /// marked `Exited` with the code stored, its mapping records are all
    /// released (their frames go back to the allocator collaborator), and
    /// the next runnable task, if any, starts running; with none left the
    /// kernel idles. The task never runs again — the trap path never
    /// returns to it, and `Exited` is terminal in this directory.
    pub fn sys_exit(&mut self, exit_code: i32)
        requires
            old(self).wf(),
            old(self).cur_task().status == TaskStatus::Running,
        ensures
            final(self).wf(),
            TaskDirectory::exit_post(*old(self), *final(self), exit_code),
    {
        let ghost pre = *self;
        let mut t = self.take_cur_counted(SYSCALL_EXIT);
        t.status = TaskStatus::Exited;
        t.exit_code = exit_code;
        t.mappings = Vec::new();
        self.put_cur(t, Ghost(pre));
        if self.ready.len() > 0 {
            let n = self.ready.remove(0);
            let ghost mid = *self;
            let mut t2 = self.tasks.remove(n);
            t2.status = TaskStatus::Running;
            self.tasks.insert(n, t2);
            self.current = n;
            proof {
                let ni = n as int;
                assert_seqs_equal!(
                    mid.tasks@.remove(ni).insert(ni, t2) == mid.tasks@.update(ni, t2)
                );
            }
        }
    }

    /// `sys_get_time`: counts the call, splits the collaborator clock's
    /// microsecond reading `now_us` into a [`TimeVal`], and returns it with
    /// result 0 for the trap path to write through the translator. The
    /// call has no failure mode.
    pub fn sys_get_time(&mut self, now_us: usize) -> (r: (isize, TimeVal))
        requires
            old(self).wf(),
            old(self).cur_task().status == TaskStatus::Running,
        ensures
            final(self).wf(),
            r.0 == 0,
            r.1.is_split_of(now_us),
            r.1.usec < crate::time::USEC_PER_SEC,
            TaskDirectory::others_unchanged(*old(self), *final(self)),
            only_counted(old(self).cur_task(), final(self).cur_task(), SYSCALL_GET_TIME as int),
    {
        let ghost pre = *self;
        let t = self.take_cur_counted(SYSCALL_GET_TIME);
        self.put_cur(t, Ghost(pre));
        (0, TimeVal::from_micros(now_us))
    }

    /// `sys_task_info`: counts the call, then composes the current task's
    /// status, syscall histogram (including this call, already counted)
    /// and running time, returning it with result 0 for the trap path to
    /// write through the translator.
    pub fn sys_task_info(&mut self) -> (r: (isize, TaskInfo))
        requires
            old(self).wf(),
            old(self).cur_task().status == TaskStatus::Running,
        ensures
            final(self).wf(),
            r.0 == 0,
            r.1.status == old(self).cur_task().status,
            r.1.syscall_times@ == bumped(
                old(self).cur_task().syscall_times@,
                SYSCALL_TASK_INFO as int,
            ),
            r.1.time == old(self).cur_task().time_ms,
            TaskDirectory::others_unchanged(*old(self), *final(self)),
            only_counted(old(self).cur_task(), final(self).cur_task(), SYSCALL_TASK_INFO as int),
    {
        let ghost pre = *self;
        let t = self.take_cur_counted(SYSCALL_TASK_INFO);
        let ti = t.info();
        self.put_cur(t, Ghost(pre));
        (0, ti)
    }

    /// `sys_mmap`: counts the call, then maps `len` bytes (rounded up to
    /// whole pages) at the page-aligned virtual address `start` with
    /// permission bits `port` for the current task, exactly as
    /// [`mmap_post`] states: 0 on success (trivially for `len == 0`), -1
    /// and an unchanged mapping set on any rejected request. A misaligned
    /// `start` is rejected, since the translator collaborator cannot map a
    /// non-page-aligned base.
    pub fn sys_mmap(&mut self, start: usize, len: usize, port: usize) -> (r: isize)
        requires
            old(self).wf(),
            old(self).cur_task().status == TaskStatus::Running,
        ensures
            final(self).wf(),
            TaskDirectory::others_unchanged(*old(self), *final(self)),
            counted_frame(old(self).cur_task(), final(self).cur_task(), SYSCALL_MMAP as int),
            final(self).cur_task().status == old(self).cur_task().status,
            final(self).cur_task().brk == old(self).cur_task().brk,
            mmap_post(
                old(self).cur_task().mappings@,
                final(self).cur_task().mappings@,
                r,
                start,
                len,
                port,
            ),
    {
        let ghost pre = *self;
        let mut t = self.take_cur_counted(SYSCALL_MMAP);
        let r = mmap_into(&mut t.mappings, start, len, port);
        proof {
            lemma_mmap_preserves_wf(
                pre.cur_task().mappings@,
                t.mappings@,
                r,
                start,
                len,
                port,
            );
        }
        self.put_cur(t, Ghost(pre));
        r
    }

    /// `sys_munmap`: counts the call, then removes the current task's one
    /// mapping record that matches `start` and the rounded `len` exactly,
    /// as [`munmap_post`] states: 0 and the record gone on a match, -1 and
    /// an unchanged mapping set otherwise — partial unmaps, spans of
    /// several records and unmapped ranges all fail.
    pub fn sys_munmap(&mut self, start: usize, len: usize) -> (r: isize)
        requires
            old(self).wf(),
            old(self).cur_task().status == TaskStatus::Running,
        ensures
            final(self).wf(),
            TaskDirectory::others_unchanged(*old(self), *final(self)),
            counted_frame(old(self).cur_task(), final(self).cur_task(), SYSCALL_MUNMAP as int),
            final(self).cur_task().status == old(self).cur_task().status,
            final(self).cur_task().brk == old(self).cur_task().brk,
            munmap_post(
                old(self).cur_task().mappings@,
                final(self).cur_task().mappings@,
                r,
                start,
                len,
            ),
    {
        let ghost pre = *self;
        let mut t = self.take_cur_counted(SYSCALL_MUNMAP);
        let r = munmap_from(&mut t.mappings, start, len);
        proof {
            lemma_munmap_preserves_wf(pre.cur_task().mappings@, t.mappings@, r, start, len);
        }
        self.put_cur(t, Ghost(pre));
        r
    }

    /// `sys_sbrk`: counts the call, then moves the current task's heap
    /// break by `delta` bytes, returning the previous break on success and
    /// -1 with the break unchanged when the move would leave the heap's
    /// `[floor, ceiling]` bounds. The break region is pure accounting
    /// against explicit mappings: it is not checked for overlap with them,
    /// which is the loader's layout concern, not this handler's.
    pub fn sys_sbrk(&mut self, delta: i32) -> (r: isize)
        requires
            old(self).wf(),
            old(self).cur_task().status == TaskStatus::Running,
        ensures
            final(self).wf(),
            TaskDirectory::others_unchanged(*old(self), *final(self)),
            counted_frame(old(self).cur_task(), final(self).cur_task(), SYSCALL_SBRK as int),
            final(self).cur_task().status == old(self).cur_task().status,
            final(self).cur_task().mappings@ == old(self).cur_task().mappings@,
            sbrk_accepts(old(self).cur_task(), delta) ==> r == old(self).cur_task().brk
                && final(self).cur_task().brk == old(self).cur_task().brk + delta,
            !sbrk_accepts(old(self).cur_task(), delta) ==> r == -1 && final(self).cur_task().brk
                == old(self).cur_task().brk,
    {
        let ghost pre = *self;
        let mut t = self.take_cur_counted(SYSCALL_SBRK);
        let r = t.sbrk(delta);
        self.put_cur(t, Ghost(pre));
        r
    }

    /// Accumulates `ms` milliseconds of running time on the current task's
    /// record, saturating at the counter's maximum. The clock collaborator
    /// calls this as the task runs; `sys_task_info` reads it back.
    pub fn record_run_time(&mut self, ms: usize)
        requires
            old(self).wf(),
        ensures
            final(self).wf(),
            TaskDirectory::others_unchanged(*old(self), *final(self)),
            final(self).cur_task().time_ms == if old(self).cur_task().time_ms + ms <= usize::MAX {
                old(self).cur_task().time_ms + ms
            } else {
                usize::MAX as int
            },
            final(self).cur_task().status == old(self).cur_task().status,
            final(self).cur_task().exit_code == old(self).cur_task().exit_code,
            final(self).cur_task().syscall_times@ == old(self).cur_task().syscall_times@,
            final(self).cur_task().mappings@ == old(self).cur_task().mappings@,
            final(self).cur_task().heap_bottom == old(self).cur_task().heap_bottom,
            final(self).cur_task().brk == old(self).cur_task().brk,
            final(self).cur_task().heap_limit == old(self).cur_task().heap_limit,
    {
        let ghost pre = *self;
        let c = self.current;
        let mut t = self.tasks.remove(c);
        if ms <= usize::MAX - t.time_ms {
            t.time_ms = t.time_ms + ms;
        } else {
            t.time_ms = usize::MAX;
        }
        self.put_cur(t, Ghost(pre));
    }
}

} // verus!
