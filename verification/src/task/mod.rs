//! Tasks and the cooperative round-robin scheduler.
//!
//! The scheduler keeps the table of tasks and decides; it never transfers
//! control itself.  Each decision comes back as a value that says which
//! context to save into and which to resume, or that the machine is to be
//! powered off.  The borrow of the table has ended by then, so whoever
//! performs the switch cannot hold the table across it.
pub mod context;
pub mod task;

use context::TaskContext;
use task::TaskControlBlock;
use task::TaskStatus;
use vstd::prelude::*;

verus! {

/// Slots in the table of tasks.
pub const MAX_TASK_NUM: usize = 16;

/// What the caller of the scheduler is to do next.
#[derive(Copy, Clone, PartialEq, Eq, Structural, Debug)]
pub enum Dispatch {
    /// Save the running context into that of task `from` and resume task
    /// `to`.
    Switch { from: usize, to: usize },
    /// No task is ready: power the machine off.
    Shutdown,
}

/// What the scheduler knows of its tasks, as plain mathematics.
#[verifier::ext_equal]
pub struct TaskTable {
    /// The number of slots in use: those from 0 up to, and without, it.
    pub num_task: nat,
    /// The slot of the task that runs, or ran last.
    pub current_task: nat,
    /// The status of each slot.
    pub status: Seq<TaskStatus>,
}

impl TaskTable {
    /// The table has `MAX_TASK_NUM` slots, the slots in use come first and
    /// are the ones that are not `UnInit`, the current task is one of them,
    /// and no task but the current one runs.
    pub open spec fn wf(self) -> bool {
        &&& self.status.len() == MAX_TASK_NUM
        &&& self.num_task <= MAX_TASK_NUM
        &&& self.current_task < MAX_TASK_NUM
        &&& self.num_task > 0 ==> self.current_task < self.num_task
        &&& forall|i: int|
            0 <= i < MAX_TASK_NUM ==> ((#[trigger] self.status[i] == TaskStatus::UnInit) <==> i
                >= self.num_task)
        &&& forall|i: int|
            0 <= i < MAX_TASK_NUM && #[trigger] self.status[i] == TaskStatus::Running ==> i
                == self.current_task
    }

    /// The table at boot: `num_task` tasks, all ready, none running yet.
    pub open spec fn booted(num_task: nat) -> TaskTable {
        TaskTable {
            num_task,
            current_task: 0,
            status: Seq::new(
                MAX_TASK_NUM as nat,
                |i: int|
                    if i < num_task {
                        TaskStatus::Ready
                    } else {
                        TaskStatus::UnInit
                    },
            ),
        }
    }

    /// The status of the current task.
    pub open spec fn current_status(self) -> TaskStatus {
        self.status[self.current_task as int]
    }

    /// The slot that lies `distance` slots behind the current one, going
    /// round the slots in use.
    pub open spec fn slot_at(self, distance: nat) -> nat {
        (self.current_task + distance) % self.num_task
    }

    /// The first ready slot among those that lie `distance` or more slots
    /// behind the current one, up to the current slot itself, which comes
    /// last at distance `num_task`.
    pub open spec fn first_ready(self, distance: nat) -> Option<nat>
        decreases self.num_task + 1 - distance,
    {
        if distance > self.num_task {
            None
        } else if self.status[self.slot_at(distance) as int] == TaskStatus::Ready {
            Some(self.slot_at(distance))
        } else {
            self.first_ready(distance + 1)
        }
    }

    /// The task that round-robin picks next: the ready task nearest behind
    /// the current one.
    pub open spec fn next_task(self) -> Option<nat> {
        self.first_ready(1)
    }

    /// The table with the status of slot `id` set to `status`.
    pub open spec fn with_status(self, id: nat, status: TaskStatus) -> TaskTable {
        TaskTable { status: self.status.update(id as int, status), ..self }
    }

    /// The table after the first task was started.
    pub open spec fn started(self) -> TaskTable {
        self.with_status(0, TaskStatus::Running)
    }

    /// The table after the current task gave up the processor.
    pub open spec fn suspended(self) -> TaskTable {
        self.with_status(self.current_task, TaskStatus::Ready)
    }

    /// The table after the current task ended.
    pub open spec fn exited(self) -> TaskTable {
        self.with_status(self.current_task, TaskStatus::Finished)
    }

    /// The table after the next task was picked: that task runs and is the
    /// current one.  With no ready task the table stays as it is.
    pub open spec fn dispatched(self) -> TaskTable {
        match self.next_task() {
            Some(next) => TaskTable {
                current_task: next,
                status: self.status.update(next as int, TaskStatus::Running),
                ..self
            },
            None => self,
        }
    }

    /// What picking the next task asks of the caller.
    pub open spec fn decision(self) -> Dispatch {
        match self.next_task() {
            Some(next) => Dispatch::Switch { from: self.current_task as usize, to: next as usize },
            None => Dispatch::Shutdown,
        }
    }

    /// How many slots behind the current one slot `id` lies, going round the
    /// slots in use: from 1 for the slot right behind to `num_task` for the
    /// current slot itself.
    pub open spec fn distance_to(self, id: nat) -> nat {
        if id > self.current_task {
            (id - self.current_task) as nat
        } else {
            (id + self.num_task - self.current_task) as nat
        }
    }

    /// Going round the slots in use, the slots at the distances 1 to
    /// `num_task` are all of them, each once.
    pub proof fn lemma_distance(self, id: nat, distance: nat)
        requires
            self.wf(),
        ensures
            1 <= distance <= self.num_task ==> self.slot_at(distance) < self.num_task
                && self.distance_to(self.slot_at(distance)) == distance,
            id < self.num_task ==> 1 <= self.distance_to(id) <= self.num_task && self.slot_at(
                self.distance_to(id),
            ) == id,
    {
        let n = self.num_task as int;
        let c = self.current_task as int;
        if 1 <= distance <= self.num_task {
            lemma_wrap(c + distance, n);
        }
        if id < self.num_task {
            lemma_wrap(c + self.distance_to(id), n);
        }
    }

    /// What `first_ready` finds is a ready slot in use, none of the slots
    /// between `distance` and it is ready, and it finds nothing only if none
    /// of the slots from `distance` on is ready.
    pub proof fn lemma_first_ready(self, distance: nat)
        requires
            self.wf(),
            1 <= distance,
        ensures
            match self.first_ready(distance) {
                Some(id) => {
                    &&& id < self.num_task
                    &&& self.status[id as int] == TaskStatus::Ready
                    &&& distance <= self.distance_to(id) <= self.num_task
                    &&& forall|nearer: nat|
                        distance <= nearer < self.distance_to(id) ==> self.status[self.slot_at(
                            nearer,
                        ) as int] != TaskStatus::Ready
                },
                None => forall|d: nat|
                    distance <= d <= self.num_task ==> self.status[self.slot_at(d) as int]
                        != TaskStatus::Ready,
            },
        decreases self.num_task + 1 - distance,
    {
        if distance <= self.num_task {
            self.lemma_distance(0, distance);
            if self.status[self.slot_at(distance) as int] != TaskStatus::Ready {
                self.lemma_first_ready(distance + 1);
            }
        }
    }

    /// Round-robin picks the ready task that lies nearest behind the current
    /// one, the current task itself being the farthest; it picks a slot in
    /// use, and it picks nothing only if no task is ready.
    pub proof fn lemma_next_task(self)
        requires
            self.wf(),
        ensures
            match self.next_task() {
                Some(id) => {
                    &&& id < self.num_task
                    &&& self.status[id as int] == TaskStatus::Ready
                    &&& forall|other: nat|
                        other < self.num_task && self.status[other as int] == TaskStatus::Ready
                            ==> self.distance_to(id) <= self.distance_to(other)
                },
                None => forall|id: nat|
                    id < self.num_task ==> self.status[id as int] != TaskStatus::Ready,
            },
    {
        self.lemma_first_ready(1);
        assert forall|other: nat|
            other < self.num_task && self.status[other as int] == TaskStatus::Ready implies (
        match self.next_task() {
            Some(id) => self.distance_to(id) <= self.distance_to(other),
            None => false,
        }) by {
            self.lemma_distance(other, 0);
        }
    }

    /// Each step of a task's life keeps the invariant of the table: the
    /// start of the first task, a task giving up the processor, a task
    /// ending, and the choice of the next task once the current one runs no
    /// longer.
    pub proof fn lemma_steps_keep_wf(self)
        requires
            self.wf(),
        ensures
            self.current_task == 0 && self.status[0] == TaskStatus::Ready ==> self.started().wf(),
            self.current_status() == TaskStatus::Running ==> self.suspended().wf()
                && self.exited().wf(),
            self.current_status() != TaskStatus::Running ==> self.dispatched().wf(),
    {
        self.lemma_next_task();
    }

    /// A task that has ended stays so whatever step the table takes, and an
    /// unused slot stays unused.
    pub proof fn lemma_finished_is_final(self, id: int)
        requires
            self.wf(),
            0 <= id < MAX_TASK_NUM,
            self.status[id] == TaskStatus::Finished || self.status[id] == TaskStatus::UnInit,
        ensures
            self.current_task == 0 && self.status[0] == TaskStatus::Ready ==> self.started().status[id]
                == self.status[id],
            self.current_status() == TaskStatus::Running ==> self.suspended().status[id]
                == self.status[id] && self.exited().status[id] == self.status[id],
            self.dispatched().status[id] == self.status[id],
    {
        self.lemma_next_task();
    }

    /// When the running task gives up the processor there is always a task
    /// to switch to, if only the task itself, and that task runs afterwards.
    pub proof fn lemma_suspend_then_dispatch(self)
        requires
            self.wf(),
            self.current_status() == TaskStatus::Running,
        ensures
            self.suspended().wf(),
            self.suspended().current_status() == TaskStatus::Ready,
            self.suspended().next_task() is Some,
            self.suspended().decision() is Switch,
            self.suspended().dispatched().wf(),
            self.suspended().dispatched().current_status() == TaskStatus::Running,
    {
        let waiting = self.suspended();
        waiting.lemma_next_task();
    }

    /// Round-robin is fair.  When the running task gives up the processor or
    /// ends, a ready task `waiting` is either picked or lies strictly nearer
    /// behind the task that is picked than it lay behind the one that ran.
    /// No task lies more than `num_task` slots behind, so a task that stays
    /// ready is picked after `num_task` such steps at the latest.
    pub proof fn lemma_round_robin_is_fair(self, waiting: nat)
        requires
            self.wf(),
            self.current_status() == TaskStatus::Running,
            waiting < self.num_task,
            self.status[waiting as int] == TaskStatus::Ready,
        ensures
            1 <= self.distance_to(waiting) <= self.num_task,
            self.suspended().next_task() matches Some(next) && (next == waiting
                || self.suspended().dispatched().distance_to(waiting) < self.distance_to(waiting)),
            self.exited().next_task() matches Some(next) && (next == waiting
                || self.exited().dispatched().distance_to(waiting) < self.distance_to(waiting)),
    {
        self.lemma_steps_keep_wf();
        self.lemma_distance(waiting, 0);
        self.suspended().lemma_nearest(waiting);
        self.exited().lemma_nearest(waiting);
    }

    /// The task that is picked lies strictly nearer behind the current one
    /// than any other ready task.
    proof fn lemma_nearest(self, waiting: nat)
        requires
            self.wf(),
            waiting < self.num_task,
            self.status[waiting as int] == TaskStatus::Ready,
        ensures
            self.next_task() matches Some(next) && (next == waiting || (self.distance_to(next)
                < self.distance_to(waiting) && self.dispatched().distance_to(waiting)
                == self.distance_to(waiting) - self.distance_to(next))),
    {
        self.lemma_next_task();
        let next = self.next_task()->Some_0;
        self.lemma_distance(waiting, 0);
        self.lemma_distance(next, 0);
        assert(self.distance_to(next) <= self.distance_to(waiting));
        if self.distance_to(next) == self.distance_to(waiting) {
            assert(self.slot_at(self.distance_to(next)) == self.slot_at(self.distance_to(waiting)));
        }
    }

    /// When the running task ends, the machine is powered off exactly if no
    /// other task is ready; otherwise the task that is picked runs.
    pub proof fn lemma_exit_then_dispatch(self)
        requires
            self.wf(),
            self.current_status() == TaskStatus::Running,
        ensures
            self.exited().wf(),
            self.exited().current_status() == TaskStatus::Finished,
            self.exited().dispatched().wf(),
            self.exited().decision() is Switch ==> self.exited().dispatched().current_status()
                == TaskStatus::Running,
            self.exited().decision() is Shutdown <==> forall|id: int|
                0 <= id < self.num_task && id != self.current_task ==> self.status[id]
                    != TaskStatus::Ready,
    {
        let ended = self.exited();
        ended.lemma_next_task();
        if ended.next_task() is None {
            assert forall|id: int|
                0 <= id < self.num_task && id != self.current_task implies self.status[id]
                != TaskStatus::Ready by {
                assert(ended.status[id as nat as int] != TaskStatus::Ready);
            }
        } else {
            let next = ended.next_task()->Some_0;
            assert(self.status[next as int] == TaskStatus::Ready);
        }
    }
}

/// A number below twice `n` wraps round `n` at most once.
proof fn lemma_wrap(x: int, n: int)
    requires
        0 < n,
        0 <= x < 2 * n,
    ensures
        x % n == if x < n {
            x
        } else {
            x - n
        },
{
    if x < n {
        vstd::arithmetic::div_mod::lemma_small_mod(x as nat, n as nat);
    } else {
        vstd::arithmetic::div_mod::lemma_small_mod((x - n) as nat, n as nat);
        vstd::arithmetic::div_mod::lemma_mod_add_multiples_vanish(x - n, n);
    }
}

/// The table of tasks and the scheduler over it.
pub struct TaskManager {
    num_task: usize,
    current_task: usize,
    tcbs: [TaskControlBlock; MAX_TASK_NUM],
}

impl TaskManager {
    /// What the scheduler knows of its tasks.
    pub closed spec fn view(&self) -> TaskTable {
        TaskTable {
            num_task: self.num_task as nat,
            current_task: self.current_task as nat,
            status: Seq::new(MAX_TASK_NUM as nat, |i: int| self.tcbs[i].task_status),
        }
    }

    /// The saved context of slot `id`.
    pub closed spec fn context(&self, id: int) -> TaskContext {
        self.tcbs[id].task_cx
    }

    /// The invariant of the scheduler: that of its table.
    pub open spec fn wf(&self) -> bool {
        self@.wf()
    }

    /// The scheduler at boot, with one task for each kernel stack.  Task
    /// `i` is ready, and its first switch enters `trampoline` on the stack
    /// whose top is `kernel_stack_ptrs[i]`.  The other slots stay unused.
    pub fn new(kernel_stack_ptrs: &[usize], trampoline: usize) -> (manager: Self)
        requires
            kernel_stack_ptrs@.len() <= MAX_TASK_NUM,
        ensures
            manager.wf(),
            manager@ == TaskTable::booted(kernel_stack_ptrs@.len()),
            forall|i: int|
                0 <= i < kernel_stack_ptrs@.len() ==> (#[trigger] manager.context(i))@
                    == TaskContext::restore_init_spec(kernel_stack_ptrs@[i], trampoline),
            forall|i: int|
                kernel_stack_ptrs@.len() <= i < MAX_TASK_NUM ==> (#[trigger] manager.context(
                    i,
                )).regs() == Seq::new(14, |r: int| 0usize),
    {
        let num_task = kernel_stack_ptrs.len();
        let mut tcbs = [TaskControlBlock {
            task_status: TaskStatus::UnInit,
            task_cx: TaskContext::default(),
        };MAX_TASK_NUM];
        let mut i: usize = 0;
        while i < num_task
            invariant
                i <= num_task <= 16,
                num_task == kernel_stack_ptrs@.len(),
                forall|j: int| 0 <= j < i ==> (#[trigger] tcbs[j]).task_status == TaskStatus::Ready,
                forall|j: int|
                    0 <= j < i ==> (#[trigger] tcbs[j]).task_cx@ == TaskContext::restore_init_spec(
                        kernel_stack_ptrs@[j],
                        trampoline,
                    ),
                forall|j: int| i <= j < 16 ==> (#[trigger] tcbs[j]).task_status == TaskStatus::UnInit,
                forall|j: int|
                    i <= j < 16 ==> (#[trigger] tcbs[j]).task_cx.regs() == Seq::new(
                        14,
                        |r: int| 0usize,
                    ),
            decreases num_task - i,
        {
            tcbs[i].task_status = TaskStatus::Ready;
            tcbs[i].task_cx = TaskContext::restore_init(kernel_stack_ptrs[i], trampoline);
            i += 1;
        }
        let manager = TaskManager { num_task, current_task: 0, tcbs };
        assert(manager@.status =~= TaskTable::booted(num_task as nat).status);
        manager
    }

    /// The number of tasks.
    pub fn num_task(&self) -> (count: usize)
        ensures
            count == self@.num_task,
    {
        self.num_task
    }

    /// The slot of the task that runs, or ran last.
    pub fn current_task(&self) -> (id: usize)
        ensures
            id == self@.current_task,
    {
        self.current_task
    }

    /// The status of slot `id`.
    pub fn task_status(&self, id: usize) -> (status: TaskStatus)
        requires
            id < MAX_TASK_NUM,
        ensures
            status == self@.status[id as int],
    {
        self.tcbs[id].task_status
    }

    /// The saved context of slot `id`.
    pub fn task_cx(&self, id: usize) -> (cx: &TaskContext)
        requires
            id < MAX_TASK_NUM,
        ensures
            *cx == self.context(id as int),
    {
        &self.tcbs[id].task_cx
    }

    /// The saved context of slot `id`, for the switch primitive to save the
    /// running context into.
    pub fn task_cx_mut(&mut self, id: usize) -> (cx: &mut TaskContext)
        requires
            id < MAX_TASK_NUM,
        ensures
            final(self)@ == old(self)@,
            *cx == old(self).context(id as int),
            final(self).context(id as int) == *final(cx),
            forall|other: int|
                0 <= other < MAX_TASK_NUM && other != id ==> final(self).context(other) == old(
                    self,
                ).context(other),
    {
        &mut self.tcbs[id].task_cx
    }

    /// Starts the first task: task 0 runs from now on.  The caller is to
    /// enter the context of the slot that comes back, which is slot 0, and
    /// has no context of its own that would be worth saving.
    pub fn run_first_task(&mut self) -> (first: usize)
        requires
            old(self).wf(),
            old(self)@.current_task == 0,
            old(self)@.status[0] == TaskStatus::Ready,
        ensures
            final(self).wf(),
            first == 0,
            final(self)@ == old(self)@.started(),
            final(self)@.current_status() == TaskStatus::Running,
            forall|id: int| 0 <= id < MAX_TASK_NUM ==> final(self).context(id) == old(self).context(id),
    {
        self.tcbs[0].task_status = TaskStatus::Running;
        assert(self@.status =~= old(self)@.started().status);
        0
    }

    /// Marks the current task, which runs, as ended.
    pub fn mark_current_exited(&mut self)
        requires
            old(self).wf(),
            old(self)@.current_status() == TaskStatus::Running,
        ensures
            final(self).wf(),
            final(self)@ == old(self)@.exited(),
            forall|id: int| 0 <= id < MAX_TASK_NUM ==> final(self).context(id) == old(self).context(id),
    {
        let current = self.current_task;
        self.tcbs[current].task_status = TaskStatus::Finished;
        assert(self@.status =~= old(self)@.exited().status);
    }

    /// Marks the current task, which runs, as ready to run again.
    pub fn mark_current_suspended(&mut self)
        requires
            old(self).wf(),
            old(self)@.current_status() == TaskStatus::Running,
        ensures
            final(self).wf(),
            final(self)@ == old(self)@.suspended(),
            forall|id: int| 0 <= id < MAX_TASK_NUM ==> final(self).context(id) == old(self).context(id),
    {
        let current = self.current_task;
        self.tcbs[current].task_status = TaskStatus::Ready;
        assert(self@.status =~= old(self)@.suspended().status);
    }

    /// Picks the next task if one is ready and makes it the running one.  The
    /// current task must have given up the processor before.  What comes
    /// back says which switch the caller is to perform; with no ready task,
    /// that the machine is to be powered off.
    pub fn run_next_task(&mut self) -> (decision: Dispatch)
        requires
            old(self).wf(),
            old(self)@.current_status() != TaskStatus::Running,
        ensures
            final(self).wf(),
            decision == old(self)@.decision(),
            final(self)@ == old(self)@.dispatched(),
            forall|id: int| 0 <= id < MAX_TASK_NUM ==> final(self).context(id) == old(self).context(id),
    {
        proof {
            self@.lemma_next_task();
        }
        if let Some(next) = self.get_next_task() {
            let current = self.current_task;
            self.current_task = next;
            self.tcbs[next].task_status = TaskStatus::Running;
            assert(self@.status =~= old(self)@.dispatched().status);
            Dispatch::Switch { from: current, to: next }
        } else {
            Dispatch::Shutdown
        }
    }

    /// The task that round-robin picks next: the first ready one among the
    /// slots behind the current one, going round all slots in use once, so
    /// that the current slot comes last.  Nothing if no task is ready.
    pub fn get_next_task(&self) -> (next: Option<usize>)
        requires
            self.wf(),
        ensures
            next is Some <==> self@.next_task() is Some,
            next matches Some(id) ==> self@.next_task() == Some(id as nat) && id < self@.num_task,
    {
        let num_task = self.num_task;
        let current = self.current_task;
        let mut id = current + 1;
        while id < current + num_task + 1
            invariant
                self@.wf(),
                num_task == self@.num_task,
                current == self@.current_task,
                current + 1 <= id <= current + num_task + 1,
                self@.next_task() == self@.first_ready((id - current) as nat),
            decreases current + num_task + 1 - id,
        {
            let slot = id % num_task;
            if self.tcbs[slot].task_status == TaskStatus::Ready {
                return Some(slot);
            }
            id += 1;
        }
        None
    }
}

/// Starts the first task of `manager`; see `TaskManager::run_first_task`.
pub fn run_first_task(manager: &mut TaskManager) -> (first: usize)
    requires
        old(manager).wf(),
        old(manager)@.current_task == 0,
        old(manager)@.status[0] == TaskStatus::Ready,
    ensures
        final(manager).wf(),
        first == 0,
        final(manager)@ == old(manager)@.started(),
        final(manager)@.current_status() == TaskStatus::Running,
        forall|id: int|
            0 <= id < MAX_TASK_NUM ==> final(manager).context(id) == old(manager).context(id),
{
    manager.run_first_task()
}

fn run_next_task(manager: &mut TaskManager) -> (decision: Dispatch)
    requires
        old(manager).wf(),
        old(manager)@.current_status() != TaskStatus::Running,
    ensures
        final(manager).wf(),
        decision == old(manager)@.decision(),
        final(manager)@ == old(manager)@.dispatched(),
        forall|id: int|
            0 <= id < MAX_TASK_NUM ==> final(manager).context(id) == old(manager).context(id),
{
    manager.run_next_task()
}

fn mark_current_exited(manager: &mut TaskManager)
    requires
        old(manager).wf(),
        old(manager)@.current_status() == TaskStatus::Running,
    ensures
        final(manager).wf(),
        final(manager)@ == old(manager)@.exited(),
        forall|id: int|
            0 <= id < MAX_TASK_NUM ==> final(manager).context(id) == old(manager).context(id),
{
    manager.mark_current_exited();
}

fn mark_current_suspended(manager: &mut TaskManager)
    requires
        old(manager).wf(),
        old(manager)@.current_status() == TaskStatus::Running,
    ensures
        final(manager).wf(),
        final(manager)@ == old(manager)@.suspended(),
        forall|id: int|
            0 <= id < MAX_TASK_NUM ==> final(manager).context(id) == old(manager).context(id),
{
    manager.mark_current_suspended();
}

/// The running task gives up the processor and stays ready; the next ready
/// task behind it runs.  The task itself is the last candidate, so there is
/// always a task to switch to.
pub fn suspend_current_and_run_next(manager: &mut TaskManager) -> (decision: Dispatch)
    requires
        old(manager).wf(),
        old(manager)@.current_status() == TaskStatus::Running,
    ensures
        final(manager).wf(),
        decision == old(manager)@.suspended().decision(),
        decision is Switch,
        final(manager)@ == old(manager)@.suspended().dispatched(),
        final(manager)@.current_status() == TaskStatus::Running,
        forall|id: int|
            0 <= id < MAX_TASK_NUM ==> final(manager).context(id) == old(manager).context(id),
{
    proof {
        manager@.lemma_suspend_then_dispatch();
    }
    mark_current_suspended(manager);
    run_next_task(manager)
}

/// The running task ends for good; the next ready task behind it runs.  With
/// no ready task left the machine is to be powered off.
pub fn exit_current_and_run_next(manager: &mut TaskManager) -> (decision: Dispatch)
    requires
        old(manager).wf(),
        old(manager)@.current_status() == TaskStatus::Running,
    ensures
        final(manager).wf(),
        decision == old(manager)@.exited().decision(),
        final(manager)@ == old(manager)@.exited().dispatched(),
        decision is Switch ==> final(manager)@.current_status() == TaskStatus::Running,
        decision is Shutdown <==> forall|id: int|
            0 <= id < old(manager)@.num_task && id != old(manager)@.current_task ==> old(
                manager,
            )@.status[id] != TaskStatus::Ready,
        forall|id: int|
            0 <= id < MAX_TASK_NUM ==> final(manager).context(id) == old(manager).context(id),
{
    proof {
        manager@.lemma_exit_then_dispatch();
    }
    mark_current_exited(manager);
    run_next_task(manager)
}

} // verus!
