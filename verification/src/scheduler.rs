//! The run queue and the round-robin scheduling policy.
//!
//! The queue holds task handles in scheduling order; membership means
//! "eligible to be considered", while runnability is read from the task
//! layer on every selection.  Selection scans from the front for the first
//! runnable task and rotates it to the back; the context switch itself is
//! an action the caller performs, with hardware interrupts disabled for the
//! whole invocation.

use vstd::prelude::*;
use vstd::pervasive::unreached;

verus! {

/// The scheduler's view of one task: its identity and its runnability
/// predicate's current value.  The task's remaining state belongs to the
/// task layer.
#[derive(Clone, Copy, PartialEq, Eq, Structural, Debug)]
pub struct Task {
    pub id: u64,
    pub runnable: bool,
}

/// What the task layer provides: every task the kernel knows, and which of
/// them is running on this core.
pub struct TaskList {
    pub tasks: Vec<Task>,
    pub current: Option<u64>,
}

/// Whether the task layer holds a runnable task with this identity.
pub open spec fn task_runnable(tasks: Seq<Task>, id: u64) -> bool {
    exists|i: int| 0 <= i < tasks.len() && (#[trigger] tasks[i]).id == id && tasks[i].runnable
}

impl TaskList {
    /// The runnability predicate, as the scheduler reads it.
    pub fn is_runnable(&self, id: u64) -> (b: bool)
        ensures
            b == task_runnable(self.tasks@, id),
    {
        let mut b = false;
        let mut i: usize = 0;
        while i < self.tasks.len()
            invariant
                i <= self.tasks@.len(),
                b == exists|j: int|
                    0 <= j < i && (#[trigger] self.tasks@[j]).id == id && self.tasks@[j].runnable,
            decreases self.tasks@.len() - i,
        {
            let t = self.tasks[i];
            if t.id == id && t.runnable {
                b = true;
            }
            i = i + 1;
        }
        b
    }

    /// The currently running task, as the task layer reports it.
    pub fn get_current(&self) -> (c: Option<u64>)
        ensures
            c == self.current,
    {
        self.current
    }
}

/// No task handle occurs twice.
pub open spec fn distinct_ids(q: Seq<u64>) -> bool {
    forall|i: int, j: int| 0 <= i < j < q.len() ==> q[i] != q[j]
}

/// `q` with every occurrence of `id` removed, the order of the rest kept.
pub open spec fn queue_without(q: Seq<u64>, id: u64) -> Seq<u64>
    decreases q.len(),
{
    if q.len() == 0 {
        q
    } else if q.last() == id {
        queue_without(q.drop_last(), id)
    } else {
        queue_without(q.drop_last(), id).push(q.last())
    }
}

/// Removal keeps distinctness, introduces no new handles, and is the
/// identity when the handle is absent.
pub proof fn lemma_queue_without_preserves(q: Seq<u64>, id: u64)
    ensures
        distinct_ids(q) ==> distinct_ids(queue_without(q, id)),
        !q.contains(id) ==> queue_without(q, id) =~= q,
        forall|x: u64| #[trigger] queue_without(q, id).contains(x) ==> q.contains(x) && x != id,
    decreases q.len(),
{
    if q.len() == 0 {
    } else {
        let qd = q.drop_last();
        let last = q.last();
        lemma_queue_without_preserves(qd, id);
        assert forall|x: u64| #[trigger] qd.contains(x) implies q.contains(x) by {
            let k = choose|k: int| 0 <= k < qd.len() && qd[k] == x;
            assert(q[k] == x);
        }
        if last == id {
            assert(q.contains(id)) by {
                assert(q[q.len() - 1] == id);
            }
            assert forall|x: u64| #[trigger] queue_without(q, id).contains(x) implies q.contains(x)
                && x != id by {
                assert(queue_without(qd, id).contains(x));
            }
        } else {
            let wd = queue_without(qd, id);
            let w = wd.push(last);
            assert(queue_without(q, id) == w);
            assert forall|x: u64| #[trigger] w.contains(x) implies q.contains(x) && x != id by {
                let k = choose|k: int| 0 <= k < w.len() && w[k] == x;
                if k < w.len() - 1 {
                    assert(wd[k] == x);
                    assert(wd.contains(x));
                } else {
                    assert(x == last);
                    assert(q[q.len() - 1] == last);
                }
            }
            assert forall|x: u64| #[trigger] queue_without(q, id).contains(x) implies q.contains(x)
                && x != id by {
                assert(w.contains(x));
            }
            if distinct_ids(q) {
                assert(distinct_ids(qd));
                if wd.contains(last) {
                    assert(qd.contains(last));
                    let k = choose|k: int| 0 <= k < qd.len() && qd[k] == last;
                    assert(q[k] == q[q.len() - 1]);
                    assert(false);
                }
                assert forall|a: int, b: int| 0 <= a < b < w.len() implies w[a] != w[b] by {
                    if b == w.len() - 1 {
                        assert(wd[a] == w[a]);
                        assert(wd.contains(w[a]));
                    }
                }
            }
            if !q.contains(id) {
                assert forall|x: u64| #[trigger] qd.contains(x) implies x != id by {
                    let k = choose|k: int| 0 <= k < qd.len() && qd[k] == x;
                    assert(q[k] == x);
                }
                assert(!qd.contains(id));
                assert(w =~= qd.push(last));
                assert(qd.push(last) =~= q);
            }
        }
    }
}

/// Removing a task that is not present is a no-op: no error, no mutation.
pub proof fn lemma_remove_absent_is_noop(q: Seq<u64>, id: u64)
    requires
        !q.contains(id),
    ensures
        queue_without(q, id) == q,
{
    lemma_queue_without_preserves(q, id);
}

/// The ordered collection of schedulable task handles.
pub struct RunQueue {
    queue: Vec<u64>,
}

impl View for RunQueue {
    type V = Seq<u64>;

    closed spec fn view(&self) -> Seq<u64> {
        self.queue@
    }
}

impl RunQueue {
    /// Queue invariant: a task handle appears at most once.
    pub open spec fn wf(&self) -> bool {
        distinct_ids(self@)
    }

    /// An empty queue.
    pub fn new() -> (q: RunQueue)
        ensures
            q.wf(),
            q@.len() == 0,
    {
        RunQueue { queue: Vec::new() }
    }

    /// How many handles are queued.
    pub fn len(&self) -> (n: usize)
        ensures
            n == self@.len(),
    {
        self.queue.len()
    }

    /// The handle at position `i` of the scheduling order.
    pub fn get(&self, i: usize) -> (id: u64)
        requires
            i < self@.len(),
        ensures
            id == self@[i as int],
    {
        self.queue[i]
    }

    /// Whether `id` is queued.
    pub fn contains_task(&self, id: u64) -> (b: bool)
        ensures
            b == self@.contains(id),
    {
        let mut i: usize = 0;
        let mut b = false;
        while i < self.queue.len()
            invariant
                i <= self.queue@.len(),
                b == exists|j: int| 0 <= j < i && #[trigger] self.queue@[j] == id,
            decreases self.queue@.len() - i,
        {
            if self.queue[i] == id {
                b = true;
            }
            i = i + 1;
        }
        b
    }
}

/// Insert a task handle at the back of the queue.  A handle that is already
/// queued stays where it is, keeping the at-most-once invariant.
pub fn add_task_to_runqueue(rq: &mut RunQueue, task: u64)
    requires
        old(rq).wf(),
    ensures
        final(rq).wf(),
        final(rq)@ == if old(rq)@.contains(task) {
            old(rq)@
        } else {
            old(rq)@.push(task)
        },
{
    if !rq.contains_task(task) {
        assert(forall|i: int| 0 <= i < rq@.len() ==> rq@[i] != task);
        rq.queue.push(task);
    }
}

/// Remove every entry matching `task` from the queue; removing an absent
/// task is a no-op.
pub fn remove_task_from_runqueue(rq: &mut RunQueue, task: u64)
    requires
        old(rq).wf(),
    ensures
        final(rq).wf(),
        final(rq)@ == queue_without(old(rq)@, task),
        !old(rq)@.contains(task) ==> final(rq)@ == old(rq)@,
{
    let n = rq.queue.len();
    let mut out: Vec<u64> = Vec::new();
    let mut i: usize = 0;
    while i < n
        invariant
            i <= n,
            n == rq.queue@.len(),
            out@ == queue_without(rq.queue@.take(i as int), task),
        decreases n - i,
    {
        let id = rq.queue[i];
        proof {
            assert(rq.queue@.take(i + 1).drop_last() =~= rq.queue@.take(i as int));
            assert(rq.queue@.take(i + 1).last() == rq.queue@[i as int]);
        }
        if id != task {
            out.push(id);
        }
        i = i + 1;
    }
    proof {
        assert(rq.queue@.take(n as int) =~= rq.queue@);
        lemma_queue_without_preserves(rq.queue@, task);
    }
    rq.queue = out;
}

/// Scan from the front for the first runnable task; when one is found,
/// rotate it to the back of the queue and hand it out.  `None` exactly when
/// no queued task is runnable, in which case the order is untouched.
pub fn select_next_task(rq: &mut RunQueue, tasks: &TaskList) -> (r: Option<u64>)
    requires
        old(rq).wf(),
    ensures
        final(rq).wf(),
        r is None <==> (forall|i: int|
            0 <= i < old(rq)@.len() ==> !task_runnable(tasks.tasks@, #[trigger] old(rq)@[i])),
        r is None ==> final(rq)@ == old(rq)@,
        r matches Some(id) ==> exists|idx: int|
            {
                &&& 0 <= idx < old(rq)@.len()
                &&& #[trigger] old(rq)@[idx] == id
                &&& task_runnable(tasks.tasks@, id)
                &&& (forall|j: int|
                    0 <= j < idx ==> !task_runnable(tasks.tasks@, #[trigger] old(rq)@[j]))
                &&& final(rq)@ == old(rq)@.remove(idx).push(id)
            },
{
    let n = rq.queue.len();
    let mut chosen: Option<usize> = None;
    let mut i: usize = 0;
    while i < n
        invariant
            i <= n,
            n == rq.queue@.len(),
            rq.wf(),
            match chosen {
                None => forall|j: int|
                    0 <= j < i ==> !task_runnable(tasks.tasks@, #[trigger] rq.queue@[j]),
                Some(k) => {
                    &&& k < i <= n
                    &&& task_runnable(tasks.tasks@, rq.queue@[k as int])
                    &&& (forall|j: int|
                        0 <= j < k ==> !task_runnable(tasks.tasks@, #[trigger] rq.queue@[j]))
                },
            },
        decreases n - i,
    {
        if chosen.is_none() {
            if tasks.is_runnable(rq.queue[i]) {
                chosen = Some(i);
            }
        }
        i = i + 1;
    }
    match chosen {
        None => None,
        Some(k) => {
            let id = rq.queue.remove(k);
            rq.queue.push(id);
            proof {
                lemma_rotation_keeps_distinct(old(rq)@, k as int);
            }
            Some(id)
        },
    }
}

/// Moving the element at `idx` to the back keeps the handles distinct.
proof fn lemma_rotation_keeps_distinct(q: Seq<u64>, idx: int)
    requires
        distinct_ids(q),
        0 <= idx < q.len(),
    ensures
        distinct_ids(q.remove(idx).push(q[idx])),
{
    let rot = q.remove(idx).push(q[idx]);
    q.remove_ensures(idx);
    assert forall|a: int, b: int| 0 <= a < b < rot.len() implies rot[a] != rot[b] by {
        if b < rot.len() - 1 {
            let a0 = if a < idx {
                a
            } else {
                a + 1
            };
            let b0 = if b < idx {
                b
            } else {
                b + 1
            };
            assert(rot[a] == q[a0] && rot[b] == q[b0]);
        } else {
            let a0 = if a < idx {
                a
            } else {
                a + 1
            };
            assert(rot[a] == q[a0] && rot[b] == q[idx]);
        }
    }
}

/// The outcome of one scheduling decision.  For `Switch`, the caller must
/// perform the context-switch primitive from `from` to `to`; control
/// returns to `from` only when it is later switched back to.
#[derive(Clone, Copy, PartialEq, Eq, Structural, Debug)]
pub enum ScheduleOutcome {
    NoSwitch,
    Switch { from: u64, to: u64 },
}

/// Everything [`schedule`] promises, over the queue before (`pre`) and
/// after (`post`), the task layer's state, and the reported outcome: with
/// no runnable task the queue is untouched and no switch is reported;
/// otherwise the first runnable task is rotated to the back, and a switch
/// is reported exactly when that task is not the current one.
pub open spec fn schedule_post(
    pre: Seq<u64>,
    post: Seq<u64>,
    tasks: Seq<Task>,
    current: Option<u64>,
    r: ScheduleOutcome,
) -> bool {
    if forall|i: int| 0 <= i < pre.len() ==> !task_runnable(tasks, #[trigger] pre[i]) {
        post == pre && r is NoSwitch
    } else {
        exists|idx: int|
            {
                &&& 0 <= idx < pre.len()
                &&& task_runnable(tasks, #[trigger] pre[idx])
                &&& (forall|j: int| 0 <= j < idx ==> !task_runnable(tasks, #[trigger] pre[j]))
                &&& post == pre.remove(idx).push(pre[idx])
                &&& (match current {
                    Some(c) => r == if c == pre[idx] {
                        ScheduleOutcome::NoSwitch
                    } else {
                        ScheduleOutcome::Switch { from: c, to: pre[idx] }
                    },
                    None => true,
                })
            }
    }
}

/// One scheduling decision.  Hardware interrupts must be disabled for the
/// full duration of the call; the caller owes the context switch whenever
/// `Switch` comes back.  The current task may be selected again: it is then
/// rotated like any other and the self-switch is skipped.
pub fn schedule(rq: &mut RunQueue, tasks: &TaskList) -> (r: ScheduleOutcome)
    requires
        old(rq).wf(),
        (exists|i: int|
            0 <= i < old(rq)@.len() && task_runnable(tasks.tasks@, #[trigger] old(rq)@[i]))
            ==> tasks.current is Some,
    ensures
        final(rq).wf(),
        schedule_post(old(rq)@, final(rq)@, tasks.tasks@, tasks.current, r),
{
    match select_next_task(rq, tasks) {
        None => ScheduleOutcome::NoSwitch,
        Some(id) => {
            proof {
                let idx = choose|idx: int|
                    {
                        &&& 0 <= idx < old(rq)@.len()
                        &&& #[trigger] old(rq)@[idx] == id
                        &&& task_runnable(tasks.tasks@, id)
                        &&& (forall|j: int|
                            0 <= j < idx ==> !task_runnable(tasks.tasks@, #[trigger] old(rq)@[j]))
                        &&& rq@ == old(rq)@.remove(idx).push(id)
                    };
                assert(0 <= idx < old(rq)@.len() && task_runnable(tasks.tasks@, old(rq)@[idx]));
            }
            match tasks.get_current() {
                Some(c) => {
                    if c == id {
                        ScheduleOutcome::NoSwitch
                    } else {
                        ScheduleOutcome::Switch { from: c, to: id }
                    }
                },
                None => unreached(),
            }
        },
    }
}

/// With no runnable task queued, scheduling reports no switch and leaves
/// the queue order unchanged.
pub proof fn lemma_no_runnable_no_switch(
    pre: Seq<u64>,
    post: Seq<u64>,
    tasks: Seq<Task>,
    current: Option<u64>,
    r: ScheduleOutcome,
)
    requires
        schedule_post(pre, post, tasks, current, r),
        forall|i: int| 0 <= i < pre.len() ==> !task_runnable(tasks, #[trigger] pre[i]),
    ensures
        r is NoSwitch,
        post == pre,
{
}

/// A queue holding exactly the current task never produces a switch:
/// selection finds that task, its rotation is a no-op in net position, and
/// the identity check short-circuits the switch.
pub proof fn lemma_single_current_task_no_switch(
    pre: Seq<u64>,
    post: Seq<u64>,
    tasks: Seq<Task>,
    c: u64,
    r: ScheduleOutcome,
)
    requires
        pre.len() == 1,
        pre[0] == c,
        schedule_post(pre, post, tasks, Some(c), r),
    ensures
        r is NoSwitch,
        post == pre,
{
    if forall|i: int| 0 <= i < pre.len() ==> !task_runnable(tasks, #[trigger] pre[i]) {
    } else {
        let idx = choose|idx: int|
            {
                &&& 0 <= idx < pre.len()
                &&& task_runnable(tasks, #[trigger] pre[idx])
                &&& (forall|j: int| 0 <= j < idx ==> !task_runnable(tasks, #[trigger] pre[j]))
                &&& post == pre.remove(idx).push(pre[idx])
                &&& r == if c == pre[idx] {
                    ScheduleOutcome::NoSwitch
                } else {
                    ScheduleOutcome::Switch { from: c, to: pre[idx] }
                }
            };
        assert(idx == 0);
        assert(pre.remove(0).push(pre[0]) =~= pre);
    }
}

} // verus!
