//! Per-task records of the task directory: status, syscall telemetry, the
//! heap break, and the owned mapping set.

use vstd::prelude::*;
use crate::mapping::{mappings_wf, MemoryMapping};

verus! {

/// Upper bound (exclusive) on syscall identifiers; the length of every
/// per-task invocation histogram.
pub const MAX_SYSCALL_NUM: usize = 500;

/// Syscall identifier of `sys_exit`.
pub const SYSCALL_EXIT: usize = 93;

/// Syscall identifier of `sys_yield`.
pub const SYSCALL_YIELD: usize = 124;

/// Syscall identifier of `sys_get_time`.
pub const SYSCALL_GET_TIME: usize = 169;

/// Syscall identifier of `sys_sbrk`.
pub const SYSCALL_SBRK: usize = 214;

/// Syscall identifier of `sys_munmap`.
pub const SYSCALL_MUNMAP: usize = 215;

/// Syscall identifier of `sys_mmap`.
pub const SYSCALL_MMAP: usize = 222;

/// Syscall identifier of `sys_task_info`.
pub const SYSCALL_TASK_INFO: usize = 410;

/// First address of a fresh task's heap: the floor below which the break
/// never moves.
pub const USER_HEAP_BOTTOM: usize = 0x1000_0000;

/// Configured ceiling of a task's heap: the break never moves above it.
pub const USER_HEAP_TOP: usize = 0x1100_0000;

/// Where a task stands in its life cycle. `Exited` is terminal: no task
/// re-enters `Ready` or `Running` after it.
#[derive(Clone, Copy, Debug, PartialEq, Eq, Structural)]
pub enum TaskStatus {
    /// Runnable, waiting in the ready queue.
    Ready,
    /// The one task the CPU is executing.
    Running,
    /// Terminated; its resources are released.
    Exited,
}

/// The snapshot `sys_task_info` composes for user memory: current status,
/// the full per-syscall invocation histogram (including the call in
/// progress), and accumulated running time in milliseconds.
#[derive(Debug)]
pub struct TaskInfo {
    /// Status of the task at the time of the call.
    pub status: TaskStatus,
    /// Invocation count per syscall identifier; length `MAX_SYSCALL_NUM`.
    pub syscall_times: Vec<u32>,
    /// Accumulated running time in milliseconds since first scheduled.
    pub time: usize,
}

/// One task's record in the directory.
#[derive(Debug)]
pub struct TaskControl {
    /// Life-cycle status.
    pub status: TaskStatus,
    /// Exit code recorded by `sys_exit`; zero until the task exits.
    pub exit_code: i32,
    /// Invocation count per syscall identifier; length `MAX_SYSCALL_NUM`.
    pub syscall_times: Vec<u32>,
    /// Accumulated running time in milliseconds.
    pub time_ms: usize,
    /// The task's live, pairwise-disjoint mapping records.
    pub mappings: Vec<MemoryMapping>,
    /// Floor of the heap: the break never falls below it.
    pub heap_bottom: usize,
    /// Current break: first address past the data segment.
    pub brk: usize,
    /// Ceiling of the heap: the break never rises above it.
    pub heap_limit: usize,
}

/// A counter one higher, saturating at the type's maximum.
pub open spec fn sat_inc(c: u32) -> u32 {
    if c < u32::MAX {
        (c + 1) as u32
    } else {
        u32::MAX
    }
}

/// The histogram after one more invocation of syscall `id`.
pub open spec fn bumped(h: Seq<u32>, id: int) -> Seq<u32> {
    h.update(id, sat_inc(h[id]))
}

/// `sbrk(delta)` is acceptable exactly when the moved break stays between
/// the heap floor and the configured ceiling.
pub open spec fn sbrk_accepts(t: TaskControl, delta: i32) -> bool {
    t.heap_bottom <= t.brk + delta <= t.heap_limit
}

/// How `sbrk` relates the record before and after to its result: on an
/// acceptable delta it returns the previous break and moves it; otherwise
/// it returns -1 and the break is unchanged. Nothing else of the record
/// moves. New pages are backed lazily: the break is pure accounting here,
/// and first touch is the translator collaborator's concern.
pub open spec fn sbrk_post(pre: TaskControl, post: TaskControl, r: isize, delta: i32) -> bool {
    &&& sbrk_accepts(pre, delta) ==> r == pre.brk && post.brk == pre.brk + delta
    &&& !sbrk_accepts(pre, delta) ==> r == -1 && post.brk == pre.brk
    &&& post.status == pre.status
    &&& post.exit_code == pre.exit_code
    &&& post.syscall_times@ == pre.syscall_times@
    &&& post.time_ms == pre.time_ms
    &&& post.mappings@ == pre.mappings@
    &&& post.heap_bottom == pre.heap_bottom
    &&& post.heap_limit == pre.heap_limit
}

/// The record after counting syscall `id`, with status, mappings and break
/// left open for the handler's own effect: everything else is unchanged.
pub open spec fn counted_frame(pre: TaskControl, post: TaskControl, id: int) -> bool {
    &&& post.syscall_times@ == bumped(pre.syscall_times@, id)
    &&& post.exit_code == pre.exit_code
    &&& post.time_ms == pre.time_ms
    &&& post.heap_bottom == pre.heap_bottom
    &&& post.heap_limit == pre.heap_limit
}

/// The record after a handler that only counts its syscall: status,
/// mappings and break are untouched too.
pub open spec fn only_counted(pre: TaskControl, post: TaskControl, id: int) -> bool {
    &&& counted_frame(pre, post, id)
    &&& post.status == pre.status
    &&& post.mappings@ == pre.mappings@
    &&& post.brk == pre.brk
}

/// The record after a handler that counts its syscall and moves the task
/// to status `st`, touching nothing else.
pub open spec fn counted_with_status(
    pre: TaskControl,
    post: TaskControl,
    id: int,
    st: TaskStatus,
) -> bool {
    &&& counted_frame(pre, post, id)
    &&& post.status == st
    &&& post.mappings@ == pre.mappings@
    &&& post.brk == pre.brk
}

/// The record with only its status changed, to `st` — how the scheduler
/// side of `yield` and `exit` touches the task it switches to.
pub open spec fn same_with_status(pre: TaskControl, post: TaskControl, st: TaskStatus) -> bool {
    &&& post.status == st
    &&& post.exit_code == pre.exit_code
    &&& post.syscall_times@ == pre.syscall_times@
    &&& post.time_ms == pre.time_ms
    &&& post.mappings@ == pre.mappings@
    &&& post.heap_bottom == pre.heap_bottom
    &&& post.brk == pre.brk
    &&& post.heap_limit == pre.heap_limit
}

/// The record of a task that `sys_exit(code)` has terminated: marked
/// `Exited` with `code` recorded, its syscall counted, every mapping
/// record released, and the rest as it was.
pub open spec fn exited(pre: TaskControl, post: TaskControl, code: i32) -> bool {
    &&& post.status == TaskStatus::Exited
    &&& post.exit_code == code
    &&& post.syscall_times@ == bumped(pre.syscall_times@, SYSCALL_EXIT as int)
    &&& post.time_ms == pre.time_ms
    &&& post.mappings@.len() == 0
    &&& post.heap_bottom == pre.heap_bottom
    &&& post.brk == pre.brk
    &&& post.heap_limit == pre.heap_limit
}

impl TaskControl {
    /// Structural invariant of a record: full-length histogram, disjoint
    /// well-formed mappings, and a break between its floor and a ceiling
    /// low enough that `sbrk` can return it in a signed word.
    pub open spec fn wf(self) -> bool {
        &&& self.syscall_times@.len() == MAX_SYSCALL_NUM
        &&& mappings_wf(self.mappings@)
        &&& self.heap_bottom <= self.brk <= self.heap_limit
        &&& self.heap_limit <= isize::MAX
    }

    /// A record as the directory creates it at boot: zeroed telemetry, no
    /// mappings, the break at the heap floor.
    pub open spec fn is_fresh(self) -> bool {
        &&& self.syscall_times@.len() == MAX_SYSCALL_NUM
        &&& forall|k: int| 0 <= k < MAX_SYSCALL_NUM ==> self.syscall_times@[k] == 0
        &&& self.exit_code == 0
        &&& self.time_ms == 0
        &&& self.mappings@.len() == 0
        &&& self.heap_bottom == USER_HEAP_BOTTOM
        &&& self.brk == USER_HEAP_BOTTOM
        &&& self.heap_limit == USER_HEAP_TOP
    }

    /// Builds a fresh record with the given status.
    pub fn new(status: TaskStatus) -> (t: TaskControl)
        ensures
            t.wf(),
            t.is_fresh(),
            t.status == status,
    {
        let mut times: Vec<u32> = Vec::new();
        let mut k: usize = 0;
        while k < MAX_SYSCALL_NUM
            invariant
                k <= MAX_SYSCALL_NUM,
                times@.len() == k,
                forall|j: int| 0 <= j < k ==> times@[j] == 0,
            decreases MAX_SYSCALL_NUM - k,
        {
            times.push(0);
            k += 1;
        }
        TaskControl {
            status,
            exit_code: 0,
            syscall_times: times,
            time_ms: 0,
            mappings: Vec::new(),
            heap_bottom: USER_HEAP_BOTTOM,
            brk: USER_HEAP_BOTTOM,
            heap_limit: USER_HEAP_TOP,
        }
    }

    /// Counts one invocation of syscall `id`, saturating at the counter's
    /// maximum; nothing else of the record moves.
    pub fn bump_syscall(&mut self, id: usize)
        requires
            id < old(self).syscall_times@.len(),
        ensures
            final(self).syscall_times@ == bumped(old(self).syscall_times@, id as int),
            final(self).status == old(self).status,
            final(self).exit_code == old(self).exit_code,
            final(self).time_ms == old(self).time_ms,
            final(self).mappings@ == old(self).mappings@,
            final(self).heap_bottom == old(self).heap_bottom,
            final(self).brk == old(self).brk,
            final(self).heap_limit == old(self).heap_limit,
    {
        let c = self.syscall_times[id];
        let bumped_c = if c < u32::MAX {
            c + 1
        } else {
            u32::MAX
        };
        self.syscall_times.set(id, bumped_c);
    }

    /// Moves the heap break by `delta` bytes, as [`sbrk_post`] states:
    /// returns the previous break, or -1 with the break unchanged when the
    /// move would leave `[heap_bottom, heap_limit]`.
    pub fn sbrk(&mut self, delta: i32) -> (r: isize)
        requires
            old(self).wf(),
        ensures
            final(self).wf(),
            sbrk_post(*old(self), *final(self), r, delta),
    {
        let prev = self.brk;
        if delta >= 0 {
            let d = delta as usize;
            if d <= self.heap_limit - self.brk {
                self.brk = self.brk + d;
                prev as isize
            } else {
                -1
            }
        } else {
            let d = (-(delta as i64)) as usize;
            if d <= self.brk - self.heap_bottom {
                self.brk = self.brk - d;
                prev as isize
            } else {
                -1
            }
        }
    }

    /// Copies the record's telemetry into the snapshot `sys_task_info`
    /// writes out: the status, the histogram as it stands, and the running
    /// time.
    pub fn info(&self) -> (ti: TaskInfo)
        ensures
            ti.status == self.status,
            ti.syscall_times@ == self.syscall_times@,
            ti.time == self.time_ms,
    {
        let n = self.syscall_times.len();
        let mut times: Vec<u32> = Vec::new();
        let mut k: usize = 0;
        while k < n
            invariant
                k <= n,
                n == self.syscall_times@.len(),
                times@.len() == k,
                forall|j: int| 0 <= j < k ==> times@[j] == self.syscall_times@[j],
            decreases n - k,
        {
            times.push(self.syscall_times[k]);
            k += 1;
        }
        proof {
            assert(times@ =~= self.syscall_times@);
        }
        TaskInfo { status: self.status, syscall_times: times, time: self.time_ms }
    }
}

/// Law: counting a syscall raises exactly its own counter by one (below
/// saturation), so the count of `sys_get_time` observed through
/// `sys_task_info` strictly increases by one across consecutive
/// `sys_get_time` calls of one task.
pub proof fn lemma_counter_strictly_increases(h: Seq<u32>, id: int)
    requires
        0 <= id < h.len(),
        h[id] < u32::MAX - 1,
    ensures
        bumped(h, id)[id] == h[id] + 1,
        bumped(bumped(h, id), id)[id] == h[id] + 2,
        forall|k: int| 0 <= k < h.len() && k != id ==> bumped(h, id)[k] == h[k],
{
}

/// Law: moving the break by `n` and then by `-n` returns first the
/// original break and then the moved one, and restores the original break,
/// whenever the first move stays within bounds.
pub proof fn lemma_sbrk_round_trip(
    t0: TaskControl,
    t1: TaskControl,
    t2: TaskControl,
    r1: isize,
    r2: isize,
    n: i32,
    m: i32,
)
    requires
        t0.wf(),
        n != i32::MIN,
        m == -n,
        sbrk_accepts(t0, n),
        sbrk_post(t0, t1, r1, n),
        sbrk_post(t1, t2, r2, m),
    ensures
        r1 == t0.brk,
        r2 == t0.brk + n,
        t2.brk == t0.brk,
{
}

/// Law: a move that would drop the break below the heap floor fails with
/// -1 and leaves the break unchanged.
pub proof fn lemma_sbrk_below_floor_rejected(t0: TaskControl, t1: TaskControl, r: isize, delta: i32)
    requires
        t0.brk + delta < t0.heap_bottom,
        sbrk_post(t0, t1, r, delta),
    ensures
        r == -1,
        t1.brk == t0.brk,
{
}

} // verus!
