use os_core::task::context::TaskContext;
use os_core::task::exit_current_and_run_next;
use os_core::task::run_first_task;
use os_core::task::suspend_current_and_run_next;
use os_core::task::task::TaskControlBlock;
use os_core::task::task::TaskStatus;
use os_core::task::Dispatch;
use os_core::task::TaskManager;
use os_core::task::MAX_TASK_NUM;

const TRAMPOLINE: usize = 0x8020_1000;

fn manager_of(tasks: usize) -> TaskManager {
    let stacks: Vec<usize> = (0..tasks).map(|i| 0x8100_0000 + i * 0x2000).collect();
    TaskManager::new(&stacks, TRAMPOLINE)
}

fn statuses(manager: &TaskManager) -> Vec<TaskStatus> {
    (0..manager.num_task()).map(|id| manager.task_status(id)).collect()
}

/// Four tasks, task 0 running, task 2 finished, tasks 1 and 3 ready.
fn manager_with_task_two_finished() -> TaskManager {
    let mut manager = manager_of(4);
    assert_eq!(run_first_task(&mut manager), 0);
    assert_eq!(suspend_current_and_run_next(&mut manager), Dispatch::Switch { from: 0, to: 1 });
    assert_eq!(suspend_current_and_run_next(&mut manager), Dispatch::Switch { from: 1, to: 2 });
    assert_eq!(exit_current_and_run_next(&mut manager), Dispatch::Switch { from: 2, to: 3 });
    assert_eq!(suspend_current_and_run_next(&mut manager), Dispatch::Switch { from: 3, to: 0 });
    manager
}

#[test]
fn restore_init_builds_a_first_context() {
    let cx = TaskContext::restore_init(0x8100_2000, TRAMPOLINE);
    assert_eq!(cx.ra(), TRAMPOLINE);
    assert_eq!(cx.sp(), 0x8100_2000);
    for i in 0..12 {
        assert_eq!(cx.s(i), 0);
    }
    let mut regs = [0usize; 14];
    regs[0] = TRAMPOLINE;
    regs[1] = 0x8100_2000;
    assert_eq!(*cx.as_regs(), regs);
}

#[test]
fn default_context_is_all_zero() {
    let cx = TaskContext::default();
    assert_eq!(cx.ra(), 0);
    assert_eq!(cx.sp(), 0);
    assert_eq!(*cx.as_regs(), [0usize; 14]);
}

#[test]
fn context_registers_can_be_saved_into() {
    let mut cx = TaskContext::default();
    {
        let regs = cx.as_regs_mut();
        regs[0] = 0x1111;
        regs[1] = 0x2222;
        regs[2] = 0x3333;
        regs[13] = 0x4444;
    }
    assert_eq!(cx.ra(), 0x1111);
    assert_eq!(cx.sp(), 0x2222);
    assert_eq!(cx.s(0), 0x3333);
    assert_eq!(cx.s(11), 0x4444);
    let copy = cx;
    assert_eq!(*copy.as_regs(), *cx.as_regs());
}

#[test]
fn task_control_block_holds_status_and_context() {
    let tcb = TaskControlBlock {
        task_status: TaskStatus::Ready,
        task_cx: TaskContext::restore_init(0x9000, TRAMPOLINE),
    };
    let copy = tcb;
    assert_eq!(copy.task_status, TaskStatus::Ready);
    assert_eq!(copy.task_cx.sp(), 0x9000);
    assert_eq!(tcb.task_cx.ra(), TRAMPOLINE);
}

#[test]
fn boot_makes_every_task_ready() {
    let manager = manager_of(3);
    assert_eq!(manager.num_task(), 3);
    assert_eq!(manager.current_task(), 0);
    assert_eq!(statuses(&manager), vec![TaskStatus::Ready; 3]);
    for id in 3..MAX_TASK_NUM {
        assert_eq!(manager.task_status(id), TaskStatus::UnInit);
    }
    for id in 0..3 {
        assert_eq!(manager.task_cx(id).ra(), TRAMPOLINE);
        assert_eq!(manager.task_cx(id).sp(), 0x8100_0000 + id * 0x2000);
        assert_eq!(manager.task_cx(id).s(5), 0);
    }
}

#[test]
fn boot_takes_a_full_table() {
    let manager = manager_of(MAX_TASK_NUM);
    assert_eq!(manager.num_task(), 16);
    assert_eq!(statuses(&manager), vec![TaskStatus::Ready; 16]);
}

#[test]
fn boot_without_tasks_has_nothing_to_run() {
    let manager = manager_of(0);
    assert_eq!(manager.num_task(), 0);
    assert_eq!(manager.get_next_task(), None);
    assert_eq!(manager.task_status(0), TaskStatus::UnInit);
}

#[test]
fn run_first_task_sets_task_zero_running() {
    let mut manager = manager_of(4);
    assert_eq!(run_first_task(&mut manager), 0);
    assert_eq!(manager.current_task(), 0);
    assert_eq!(
        statuses(&manager),
        vec![TaskStatus::Running, TaskStatus::Ready, TaskStatus::Ready, TaskStatus::Ready]
    );
}

#[test]
fn run_first_task_as_a_method() {
    let mut manager = manager_of(1);
    assert_eq!(manager.run_first_task(), 0);
    assert_eq!(manager.task_status(0), TaskStatus::Running);
}

#[test]
fn next_task_skips_finished_tasks() {
    let mut manager = manager_with_task_two_finished();
    assert_eq!(
        statuses(&manager),
        vec![TaskStatus::Running, TaskStatus::Ready, TaskStatus::Finished, TaskStatus::Ready]
    );
    assert_eq!(manager.get_next_task(), Some(1));
    manager.mark_current_suspended();
    assert_eq!(
        statuses(&manager),
        vec![TaskStatus::Ready, TaskStatus::Ready, TaskStatus::Finished, TaskStatus::Ready]
    );
    assert_eq!(manager.current_task(), 0);
    assert_eq!(manager.get_next_task(), Some(1));
}

#[test]
fn next_task_after_task_one_finished() {
    let mut manager = manager_with_task_two_finished();
    assert_eq!(suspend_current_and_run_next(&mut manager), Dispatch::Switch { from: 0, to: 1 });
    assert_eq!(exit_current_and_run_next(&mut manager), Dispatch::Switch { from: 1, to: 3 });
    assert_eq!(suspend_current_and_run_next(&mut manager), Dispatch::Switch { from: 3, to: 0 });
    assert_eq!(manager.current_task(), 0);
    assert_eq!(manager.get_next_task(), Some(3));
    manager.mark_current_suspended();
    assert_eq!(
        statuses(&manager),
        vec![TaskStatus::Ready, TaskStatus::Finished, TaskStatus::Finished, TaskStatus::Ready]
    );
    assert_eq!(manager.get_next_task(), Some(3));
}

#[test]
fn no_next_task_when_all_others_finished() {
    let mut manager = manager_with_task_two_finished();
    assert_eq!(suspend_current_and_run_next(&mut manager), Dispatch::Switch { from: 0, to: 1 });
    assert_eq!(exit_current_and_run_next(&mut manager), Dispatch::Switch { from: 1, to: 3 });
    assert_eq!(exit_current_and_run_next(&mut manager), Dispatch::Switch { from: 3, to: 0 });
    assert_eq!(manager.current_task(), 0);
    assert_eq!(
        statuses(&manager),
        vec![TaskStatus::Running, TaskStatus::Finished, TaskStatus::Finished, TaskStatus::Finished]
    );
    assert_eq!(manager.get_next_task(), None);
    assert_eq!(exit_current_and_run_next(&mut manager), Dispatch::Shutdown);
    assert_eq!(statuses(&manager), vec![TaskStatus::Finished; 4]);
    assert_eq!(manager.get_next_task(), None);
}

#[test]
fn a_ready_current_task_is_the_last_candidate() {
    let mut manager = manager_with_task_two_finished();
    assert_eq!(suspend_current_and_run_next(&mut manager), Dispatch::Switch { from: 0, to: 1 });
    assert_eq!(exit_current_and_run_next(&mut manager), Dispatch::Switch { from: 1, to: 3 });
    assert_eq!(exit_current_and_run_next(&mut manager), Dispatch::Switch { from: 3, to: 0 });
    manager.mark_current_suspended();
    assert_eq!(
        statuses(&manager),
        vec![TaskStatus::Ready, TaskStatus::Finished, TaskStatus::Finished, TaskStatus::Finished]
    );
    assert_eq!(manager.get_next_task(), Some(0));
    assert_eq!(manager.run_next_task(), Dispatch::Switch { from: 0, to: 0 });
    assert_eq!(manager.task_status(0), TaskStatus::Running);
}

#[test]
fn suspend_goes_round_the_ready_tasks() {
    let mut manager = manager_of(3);
    run_first_task(&mut manager);
    assert_eq!(suspend_current_and_run_next(&mut manager), Dispatch::Switch { from: 0, to: 1 });
    assert_eq!(
        statuses(&manager),
        vec![TaskStatus::Ready, TaskStatus::Running, TaskStatus::Ready]
    );
    assert_eq!(manager.current_task(), 1);
    assert_eq!(suspend_current_and_run_next(&mut manager), Dispatch::Switch { from: 1, to: 2 });
    assert_eq!(suspend_current_and_run_next(&mut manager), Dispatch::Switch { from: 2, to: 0 });
    assert_eq!(suspend_current_and_run_next(&mut manager), Dispatch::Switch { from: 0, to: 1 });
    assert_eq!(manager.current_task(), 1);
}

#[test]
fn a_lone_task_switches_to_itself() {
    let mut manager = manager_of(1);
    run_first_task(&mut manager);
    assert_eq!(suspend_current_and_run_next(&mut manager), Dispatch::Switch { from: 0, to: 0 });
    assert_eq!(manager.task_status(0), TaskStatus::Running);
    assert_eq!(exit_current_and_run_next(&mut manager), Dispatch::Shutdown);
    assert_eq!(manager.task_status(0), TaskStatus::Finished);
}

#[test]
fn exit_is_final() {
    let mut manager = manager_of(3);
    run_first_task(&mut manager);
    assert_eq!(exit_current_and_run_next(&mut manager), Dispatch::Switch { from: 0, to: 1 });
    assert_eq!(manager.task_status(0), TaskStatus::Finished);
    for _ in 0..8 {
        let decision = suspend_current_and_run_next(&mut manager);
        assert!(matches!(decision, Dispatch::Switch { to, .. } if to != 0));
        assert_eq!(manager.task_status(0), TaskStatus::Finished);
    }
    assert_eq!(exit_current_and_run_next(&mut manager), Dispatch::Switch { from: 1, to: 2 });
    assert_eq!(exit_current_and_run_next(&mut manager), Dispatch::Shutdown);
    assert_eq!(statuses(&manager), vec![TaskStatus::Finished; 3]);
}

#[test]
fn unused_slots_are_never_scheduled() {
    let mut manager = manager_of(2);
    run_first_task(&mut manager);
    for _ in 0..10 {
        match suspend_current_and_run_next(&mut manager) {
            Dispatch::Switch { from, to } => assert!(from < 2 && to < 2),
            Dispatch::Shutdown => panic!("a ready task was left"),
        }
    }
    for id in 2..MAX_TASK_NUM {
        assert_eq!(manager.task_status(id), TaskStatus::UnInit);
    }
}

#[test]
fn every_ready_task_runs_within_one_round() {
    let mut manager = manager_of(5);
    run_first_task(&mut manager);
    let mut ran = vec![false; 5];
    ran[0] = true;
    for _ in 0..4 {
        match suspend_current_and_run_next(&mut manager) {
            Dispatch::Switch { to, .. } => ran[to] = true,
            Dispatch::Shutdown => panic!("a ready task was left"),
        }
    }
    assert_eq!(ran, vec![true; 5]);
}

#[test]
fn the_switch_saves_into_the_table() {
    let mut manager = manager_of(2);
    run_first_task(&mut manager);
    let decision = suspend_current_and_run_next(&mut manager);
    assert_eq!(decision, Dispatch::Switch { from: 0, to: 1 });
    {
        let saved = manager.task_cx_mut(0).as_regs_mut();
        saved[0] = 0xaaaa;
        saved[1] = 0xbbbb;
    }
    assert_eq!(manager.task_cx(0).ra(), 0xaaaa);
    assert_eq!(manager.task_cx(0).sp(), 0xbbbb);
    assert_eq!(manager.task_cx(1).ra(), TRAMPOLINE);
    assert_eq!(statuses(&manager), vec![TaskStatus::Ready, TaskStatus::Running]);
}

#[test]
fn marking_and_dispatching_step_by_step() {
    let mut manager = manager_of(2);
    manager.run_first_task();
    manager.mark_current_exited();
    assert_eq!(statuses(&manager), vec![TaskStatus::Finished, TaskStatus::Ready]);
    assert_eq!(manager.current_task(), 0);
    assert_eq!(manager.run_next_task(), Dispatch::Switch { from: 0, to: 1 });
    assert_eq!(statuses(&manager), vec![TaskStatus::Finished, TaskStatus::Running]);
    assert_eq!(manager.current_task(), 1);
    manager.mark_current_exited();
    assert_eq!(manager.run_next_task(), Dispatch::Shutdown);
    assert_eq!(manager.current_task(), 1);
}
