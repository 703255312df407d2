use nano_core::scheduler::RunQueue;
use nano_core::scheduler::ScheduleOutcome;
use nano_core::scheduler::Task;
use nano_core::scheduler::TaskList;
use nano_core::scheduler::add_task_to_runqueue;
use nano_core::scheduler::remove_task_from_runqueue;
use nano_core::scheduler::schedule;
use nano_core::scheduler::select_next_task;

fn queue_of(ids: &[u64]) -> RunQueue {
    let mut rq = RunQueue::new();
    for &id in ids {
        add_task_to_runqueue(&mut rq, id);
    }
    rq
}

fn queue_contents(rq: &RunQueue) -> Vec<u64> {
    let mut out = Vec::new();
    for i in 0..rq.len() {
        out.push(rq.get(i));
    }
    out
}

const A: u64 = 1;
const B: u64 = 2;
const C: u64 = 3;

fn abc_tasks(current: Option<u64>) -> TaskList {
    TaskList {
        tasks: vec![
            Task { id: A, runnable: true },
            Task { id: B, runnable: false },
            Task { id: C, runnable: true },
        ],
        current,
    }
}

#[test]
fn round_robin_selects_first_runnable_and_rotates() {
    let mut rq = queue_of(&[A, B, C]);
    let tasks = abc_tasks(Some(99));
    let outcome = schedule(&mut rq, &tasks);
    assert_eq!(outcome, ScheduleOutcome::Switch { from: 99, to: A });
    assert_eq!(queue_contents(&rq), vec![B, C, A]);
}

#[test]
fn round_robin_reports_no_switch_when_selected_is_current() {
    let mut rq = queue_of(&[A, B, C]);
    let tasks = abc_tasks(Some(A));
    let outcome = schedule(&mut rq, &tasks);
    assert_eq!(outcome, ScheduleOutcome::NoSwitch);
    // the chosen task is still re-enqueued at the back
    assert_eq!(queue_contents(&rq), vec![B, C, A]);
}

#[test]
fn no_runnable_task_means_no_switch_and_untouched_order() {
    let mut rq = queue_of(&[A, B, C]);
    let tasks = TaskList {
        tasks: vec![
            Task { id: A, runnable: false },
            Task { id: B, runnable: false },
            Task { id: C, runnable: false },
        ],
        current: Some(A),
    };
    let outcome = schedule(&mut rq, &tasks);
    assert_eq!(outcome, ScheduleOutcome::NoSwitch);
    assert_eq!(queue_contents(&rq), vec![A, B, C]);
}

#[test]
fn empty_queue_means_no_switch() {
    let mut rq = RunQueue::new();
    let tasks = abc_tasks(Some(A));
    assert_eq!(schedule(&mut rq, &tasks), ScheduleOutcome::NoSwitch);
    assert_eq!(rq.len(), 0);
}

#[test]
fn single_task_that_is_current_means_no_switch() {
    let mut rq = queue_of(&[C]);
    let tasks = TaskList { tasks: vec![Task { id: C, runnable: true }], current: Some(C) };
    let outcome = schedule(&mut rq, &tasks);
    assert_eq!(outcome, ScheduleOutcome::NoSwitch);
    assert_eq!(queue_contents(&rq), vec![C]);
}

#[test]
fn selection_skips_tasks_missing_from_the_task_list() {
    let mut rq = queue_of(&[7, C]);
    let tasks = abc_tasks(Some(99));
    let outcome = schedule(&mut rq, &tasks);
    assert_eq!(outcome, ScheduleOutcome::Switch { from: 99, to: C });
    assert_eq!(queue_contents(&rq), vec![7, C]);
}

#[test]
fn select_next_task_returns_none_without_runnable_tasks() {
    let mut rq = queue_of(&[B]);
    let tasks = abc_tasks(Some(A));
    assert_eq!(select_next_task(&mut rq, &tasks), None);
    assert_eq!(queue_contents(&rq), vec![B]);
}

#[test]
fn select_next_task_rotates_the_chosen_task() {
    let mut rq = queue_of(&[B, A, C]);
    let tasks = abc_tasks(Some(A));
    assert_eq!(select_next_task(&mut rq, &tasks), Some(A));
    assert_eq!(queue_contents(&rq), vec![B, C, A]);
}

#[test]
fn removing_an_absent_task_is_a_no_op() {
    let mut rq = queue_of(&[A, B, C]);
    remove_task_from_runqueue(&mut rq, 42);
    assert_eq!(queue_contents(&rq), vec![A, B, C]);
}

#[test]
fn removing_a_present_task_keeps_the_others_in_order() {
    let mut rq = queue_of(&[A, B, C]);
    remove_task_from_runqueue(&mut rq, B);
    assert_eq!(queue_contents(&rq), vec![A, C]);
}

#[test]
fn removing_from_an_empty_queue_is_a_no_op() {
    let mut rq = RunQueue::new();
    remove_task_from_runqueue(&mut rq, A);
    assert_eq!(rq.len(), 0);
}

#[test]
fn adding_a_queued_task_again_changes_nothing() {
    let mut rq = queue_of(&[A, B]);
    add_task_to_runqueue(&mut rq, A);
    assert_eq!(queue_contents(&rq), vec![A, B]);
}

#[test]
fn contains_task_reflects_membership() {
    let rq = queue_of(&[A, C]);
    assert!(rq.contains_task(A));
    assert!(!rq.contains_task(B));
    assert!(rq.contains_task(C));
}
