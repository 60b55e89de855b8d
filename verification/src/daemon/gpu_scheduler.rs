//! Scheduling of pending tasks onto the GPUs of a pool: a task goes to the
//! first GPU of the pool, in pool order, that runs nothing and that the
//! monitor reports idle; tasks leave the queue in the order they came.
use vstd::prelude::*;

use super::gpu_monitor::GpuMonitor;
use crate::base::models::Task;
use std::collections::VecDeque;

verus! {

broadcast use vstd::std_specs::vecdeque::group_vec_dequeue_axioms;

/// `ids` with every occurrence of `id` removed, the rest in order.
pub open spec fn without(ids: Seq<u128>, id: u128) -> Seq<u128>
    decreases ids.len(),
{
    if ids.len() == 0 {
        ids
    } else {
        let rest = without(ids.drop_last(), id);
        if ids.last() == id {
            rest
        } else {
            rest.push(ids.last())
        }
    }
}

/// The position of the most urgent task of `queue`: the first one with the
/// smallest priority value (lower values run first).
pub open spec fn most_urgent(queue: Seq<Task>) -> int
    decreases queue.len(),
{
    if queue.len() <= 1 {
        0
    } else {
        let k = most_urgent(queue.drop_last());
        if queue.last().priority < queue[k].priority {
            queue.len() - 1
        } else {
            k
        }
    }
}

/// The most urgent task has the smallest priority value of the queue, and
/// every task before it a larger one.
pub proof fn lemma_most_urgent(queue: Seq<Task>)
    requires
        queue.len() > 0,
    ensures
        0 <= most_urgent(queue) < queue.len(),
        forall|j: int| 0 <= j < queue.len() ==> queue[most_urgent(queue)].priority <= #[trigger] queue[j].priority,
        forall|j: int| 0 <= j < most_urgent(queue) ==> #[trigger] queue[j].priority > queue[most_urgent(queue)].priority,
    decreases queue.len(),
{
    if queue.len() > 1 {
        let p = queue.drop_last();
        lemma_most_urgent(p);
        let k = most_urgent(p);
        assert forall|j: int| 0 <= j < p.len() implies #[trigger] queue[j] == p[j] by {}
        assert(queue[k] == p[k]);
    }
}

/// Removing the only id of a list leaves it empty.
proof fn lemma_without_only(id: u128)
    ensures
        without(seq![id], id) == Seq::<u128>::empty(),
{
    let one = seq![id];
    assert(one.drop_last() =~= Seq::<u128>::empty());
    assert(without(one.drop_last(), id) =~= Seq::<u128>::empty());
    assert(without(one, id) =~= Seq::<u128>::empty());
}

/// The number of task ids held over all slots.
pub open spec fn slot_task_total(slots: Seq<(u32, Seq<u128>)>) -> nat
    decreases slots.len(),
{
    if slots.len() == 0 {
        0
    } else {
        slot_task_total(slots.drop_last()) + slots.last().1.len()
    }
}

/// The number of slots that hold at least one task id.
pub open spec fn busy_slot_count(slots: Seq<(u32, Seq<u128>)>) -> nat
    decreases slots.len(),
{
    if slots.len() == 0 {
        0
    } else {
        busy_slot_count(slots.drop_last()) + (if slots.last().1.len() > 0 {
            1nat
        } else {
            0nat
        })
    }
}

/// Status summary for the GPU scheduler.
#[derive(Clone, Debug)]
pub struct SchedulerStatus {
    /// Total number of GPUs in the pool.
    pub total_gpus: usize,
    /// Number of active tasks.
    pub active_tasks: usize,
    /// Number of pending tasks.
    pub pending_tasks: usize,
    /// Number of GPUs without an active task.
    pub available_gpus: usize,
}

/// Keeps the pool, the tasks running on each GPU, the queue of pending
/// tasks and the monitor that says which GPUs are idle.
#[derive(Clone, Debug)]
pub struct GpuScheduler {
    gpu_pool: Vec<u32>,
    /// One slot per distinct GPU of the pool: the GPU and the ids of the
    /// tasks running on it.
    active_tasks: Vec<(u32, Vec<u128>)>,
    pending_queue: VecDeque<Task>,
    monitor: GpuMonitor,
}

impl GpuScheduler {
    /// The GPUs of the pool, in the order given.
    pub closed spec fn pool(self) -> Seq<u32> {
        self.gpu_pool@
    }

    /// The slots: each distinct GPU of the pool with the ids of its tasks.
    pub closed spec fn slots(self) -> Seq<(u32, Seq<u128>)> {
        self.active_tasks@.map_values(|s: (u32, Vec<u128>)| (s.0, s.1@))
    }

    /// The tasks waiting for a GPU, oldest first.
    pub closed spec fn pending(self) -> Seq<Task> {
        self.pending_queue@
    }

    /// The monitor consulted for idleness.
    pub closed spec fn monitor(self) -> GpuMonitor {
        self.monitor
    }

    /// Whether `gpu` has a slot.
    pub open spec fn has_slot(self, gpu: u32) -> bool {
        exists|i: int| 0 <= i < self.slots().len() && #[trigger] self.slots()[i].0 == gpu
    }

    /// The ids of the tasks running on `gpu` (empty when it has no slot).
    pub open spec fn tasks_on(self, gpu: u32) -> Seq<u128> {
        if self.has_slot(gpu) {
            self.slots()[choose|i: int| 0 <= i < self.slots().len() && #[trigger] self.slots()[i].0 == gpu].1
        } else {
            Seq::empty()
        }
    }

    /// Whether a task may be placed on `gpu` now: it has a slot, runs
    /// nothing, and the monitor reports it idle.
    pub open spec fn ready(self, gpu: u32) -> bool {
        &&& self.has_slot(gpu)
        &&& self.tasks_on(gpu).len() == 0
        &&& self.monitor().idle(gpu)
    }

    /// The number of tasks running, over all GPUs.
    pub open spec fn active_count(self) -> nat {
        slot_task_total(self.slots())
    }

    /// `next` is `self` after the most urgent pending task `t` was placed on `g`,
    /// the first ready GPU of the pool in pool order.
    pub open spec fn placed(self, next: GpuScheduler, t: Task, g: u32) -> bool {
        self.placed_from(self.pending(), next, t, g)
    }

    /// `next` is `self`, with `queue` pending, after the most urgent task `t` of
    /// `queue` was placed on `g`, the first ready GPU of the pool.
    pub open spec fn placed_from(self, queue: Seq<Task>, next: GpuScheduler, t: Task, g: u32) -> bool {
        &&& queue.len() > 0
        &&& t == queue[most_urgent(queue)]
        &&& next.pending() == queue.remove(most_urgent(queue))
        &&& exists|k: int|
            0 <= k < self.pool().len() && self.pool()[k] == g && self.ready(g) && forall|j: int|
                0 <= j < k ==> !self.ready(#[trigger] self.pool()[j])
        &&& next.tasks_on(g) == seq![t.task_id]
        &&& forall|h: u32| h != g ==> #[trigger] next.tasks_on(h) == self.tasks_on(h)
        &&& forall|h: u32| #[trigger] next.has_slot(h) == self.has_slot(h)
        &&& next.active_count() == self.active_count() + 1
        &&& next.pool() == self.pool()
        &&& next.monitor() == self.monitor()
    }

    /// `next` is `self` after `id` was removed from the tasks of `gpu`.
    pub open spec fn released(self, next: GpuScheduler, gpu: u32, id: u128) -> bool {
        &&& next.tasks_on(gpu) == without(self.tasks_on(gpu), id)
        &&& forall|h: u32| h != gpu ==> #[trigger] next.tasks_on(h) == self.tasks_on(h)
        &&& forall|h: u32| #[trigger] next.has_slot(h) == self.has_slot(h)
        &&& next.active_count() + self.tasks_on(gpu).len() == self.active_count() + without(
            self.tasks_on(gpu),
            id,
        ).len()
        &&& next.pending() == self.pending()
        &&& next.pool() == self.pool()
        &&& next.monitor() == self.monitor()
    }

    /// The scheduler's invariant: one slot per distinct pool GPU, never
    /// more than one task on a GPU, and a well-formed monitor.
    pub closed spec fn wf(self) -> bool {
        &&& forall|i: int, j: int|
            0 <= i < self.slots().len() && 0 <= j < self.slots().len() && i != j
                ==> self.slots()[i].0 != self.slots()[j].0
        &&& forall|k: int| 0 <= k < self.gpu_pool@.len() ==> self.has_slot(#[trigger] self.gpu_pool@[k])
        &&& forall|i: int| 0 <= i < self.slots().len() ==> self.gpu_pool@.contains(#[trigger] self.slots()[i].0)
        &&& self.slots().len() <= self.gpu_pool@.len()
        &&& forall|i: int| 0 <= i < self.slots().len() ==> (#[trigger] self.slots()[i]).1.len() <= 1
        &&& self.monitor.wf()
    }

    proof fn lemma_tasks_on_slot(self, i: int)
        requires
            self.wf(),
            0 <= i < self.slots().len(),
        ensures
            self.has_slot(self.slots()[i].0),
            self.tasks_on(self.slots()[i].0) == self.slots()[i].1,
    {
        let g = self.slots()[i].0;
        assert(self.slots()[i].0 == g);
        let c = choose|j: int| 0 <= j < self.slots().len() && #[trigger] self.slots()[j].0 == g;
        assert(c == i);
    }

    /// Every GPU runs at most one task.
    pub proof fn lemma_one_task_per_gpu(self, gpu: u32)
        requires
            self.wf(),
        ensures
            self.tasks_on(gpu).len() <= 1,
    {
        if self.has_slot(gpu) {
            let c = choose|j: int| 0 <= j < self.slots().len() && #[trigger] self.slots()[j].0 == gpu;
            assert(self.slots()[c].1.len() <= 1);
        }
    }

    /// A scheduler over `gpu_pool` with nothing running and nothing pending.
    pub fn new(gpu_pool: Vec<u32>, monitor: GpuMonitor) -> (s: GpuScheduler)
        requires
            monitor.wf(),
        ensures
            s.wf(),
            s.pool() == gpu_pool@,
            s.monitor() == monitor,
            s.pending().len() == 0,
            forall|g: u32| s.has_slot(g) <==> gpu_pool@.contains(g),
            forall|g: u32| #[trigger] s.tasks_on(g) == Seq::<u128>::empty(),
            s.active_count() == 0,
    {
        let n = gpu_pool.len();
        let mut active_tasks: Vec<(u32, Vec<u128>)> = Vec::new();
        let mut i: usize = 0;
        while i < n
            invariant
                n == gpu_pool@.len(),
                i <= n,
                active_tasks@.len() <= i,
                forall|a: int, b: int|
                    0 <= a < active_tasks@.len() && 0 <= b < active_tasks@.len() && a != b
                        ==> active_tasks@[a].0 != active_tasks@[b].0,
                forall|k: int| 0 <= k < i ==> keyed(active_tasks@, #[trigger] gpu_pool@[k]),
                forall|a: int|
                    0 <= a < active_tasks@.len() ==> gpu_pool@.take(i as int).contains(
                        #[trigger] active_tasks@[a].0,
                    ),
                forall|a: int| 0 <= a < active_tasks@.len() ==> (#[trigger] active_tasks@[a]).1@.len() == 0,
            decreases n - i,
        {
            let g = gpu_pool[i];
            let mut found = false;
            let mut j: usize = 0;
            while j < active_tasks.len()
                invariant
                    j <= active_tasks@.len(),
                    found <==> keyed(active_tasks@.take(j as int), g),
                decreases active_tasks@.len() - j,
            {
                proof {
                    lemma_keyed_take(active_tasks@, j as int, g);
                }
                if active_tasks[j].0 == g {
                    found = true;
                }
                j = j + 1;
            }
            let ghost before = active_tasks@;
            proof {
                assert(before.take(j as int) =~= before);
                assert(gpu_pool@.take(i + 1) =~= gpu_pool@.take(i as int).push(g));
            }
            if !found {
                active_tasks.push((g, Vec::new()));
                proof {
                    assert forall|k: int| 0 <= k < i + 1 implies keyed(active_tasks@, #[trigger] gpu_pool@[k]) by {
                        if k < i {
                            let a = choose|a: int| 0 <= a < before.len() && #[trigger] before[a].0 == gpu_pool@[k];
                            assert(active_tasks@[a] == before[a]);
                        } else {
                            assert(active_tasks@[before.len() as int].0 == gpu_pool@[k]);
                        }
                    }
                    assert forall|a: int| 0 <= a < active_tasks@.len() implies gpu_pool@.take(i + 1).contains(
                        #[trigger] active_tasks@[a].0) by {
                        if a < before.len() {
                            assert(active_tasks@[a] == before[a]);
                            assert(gpu_pool@.take(i as int).contains(before[a].0));
                        } else {
                            assert(gpu_pool@.take(i + 1)[i as int] == g);
                        }
                    }
                }
            } else {
                proof {
                    assert forall|a: int| 0 <= a < active_tasks@.len() implies gpu_pool@.take(i + 1).contains(
                        #[trigger] active_tasks@[a].0) by {
                        assert(gpu_pool@.take(i as int).contains(active_tasks@[a].0));
                    }
                }
            }
            i = i + 1;
        }
        let s = GpuScheduler { gpu_pool, active_tasks, pending_queue: VecDeque::new(), monitor };
        proof {
            let slots = s.slots();
            assert(gpu_pool@.take(n as int) =~= gpu_pool@);
            assert forall|k: int| 0 <= k < s.gpu_pool@.len() implies s.has_slot(#[trigger] s.gpu_pool@[k]) by {
                assert(keyed(active_tasks@, gpu_pool@[k]));
                let a = choose|a: int| 0 <= a < active_tasks@.len() && #[trigger] active_tasks@[a].0 == gpu_pool@[k];
                assert(slots[a].0 == gpu_pool@[k]);
            }
            assert forall|a: int| 0 <= a < slots.len() implies s.gpu_pool@.contains(#[trigger] slots[a].0) by {
                assert(gpu_pool@.take(n as int).contains(active_tasks@[a].0));
            }
            assert(s.wf());
            assert forall|g: u32| s.has_slot(g) <==> gpu_pool@.contains(g) by {
                if s.has_slot(g) {
                    let a = choose|a: int| 0 <= a < slots.len() && #[trigger] slots[a].0 == g;
                    assert(s.gpu_pool@.contains(slots[a].0));
                }
                if gpu_pool@.contains(g) {
                    let k = choose|k: int| 0 <= k < n && gpu_pool@[k] == g;
                    assert(s.has_slot(s.gpu_pool@[k]));
                }
            }
            assert forall|g: u32| #[trigger] s.tasks_on(g) == Seq::<u128>::empty() by {
                if s.has_slot(g) {
                    let c = choose|j: int| 0 <= j < slots.len() && #[trigger] slots[j].0 == g;
                    assert(slots[c].1 =~= Seq::<u128>::empty());
                }
            }
            lemma_total_zero(slots);
        }
        s
    }

    /// Records the latest utilization reading of `gpu_id` with the monitor;
    /// the running tasks, the queue and the pool stay as they are.
    pub fn record_utilization(&mut self, gpu_id: u32, utilization: Option<u32>)
        requires
            old(self).wf(),
        ensures
            final(self).wf(),
            final(self).pool() == old(self).pool(),
            final(self).slots() == old(self).slots(),
            final(self).pending() == old(self).pending(),
            final(self).monitor().pool() == old(self).monitor().pool(),
            final(self).monitor().simulates() == old(self).monitor().simulates(),
            final(self).monitor().reading(gpu_id) == (if old(self).monitor().pool().contains(gpu_id) {
                utilization
            } else {
                None
            }),
            forall|g: u32| g != gpu_id ==> final(self).monitor().reading(g) == old(self).monitor().reading(g),
    {
        self.monitor.record_utilization(gpu_id, utilization);
        proof {
            assert(self.slots() =~= old(self).slots());
            assert forall|k: int| 0 <= k < self.gpu_pool@.len() implies self.has_slot(#[trigger] self.gpu_pool@[k]) by {
                assert(old(self).has_slot(old(self).gpu_pool@[k]));
            }
        }
    }

    /// Adds `task` at the back of the pending queue.
    pub fn enqueue(&mut self, task: Task)
        requires
            old(self).wf(),
        ensures
            final(self).wf(),
            final(self).pending() == old(self).pending().push(task),
            final(self).pool() == old(self).pool(),
            final(self).slots() == old(self).slots(),
            final(self).monitor() == old(self).monitor(),
    {
        self.pending_queue.push_back(task);
        proof {
            assert(self.slots() == old(self).slots());
        }
    }

    fn slot_index(&self, gpu_id: u32) -> (r: Option<usize>)
        requires
            self.wf(),
        ensures
            match r {
                Some(i) => i < self.slots().len() && self.slots()[i as int].0 == gpu_id,
                None => !self.has_slot(gpu_id),
            },
    {
        let n = self.active_tasks.len();
        let mut i: usize = 0;
        while i < n
            invariant
                n == self.active_tasks@.len(),
                i <= n,
                forall|k: int| 0 <= k < i ==> self.active_tasks@[k].0 != gpu_id,
            decreases n - i,
        {
            if self.active_tasks[i].0 == gpu_id {
                return Some(i);
            }
            i = i + 1;
        }
        proof {
            if self.has_slot(gpu_id) {
                let c = choose|j: int| 0 <= j < self.slots().len() && #[trigger] self.slots()[j].0 == gpu_id;
                assert(self.active_tasks@[c].0 == gpu_id);
            }
        }
        None
    }

    /// The first GPU of the pool, in pool order, that is ready.
    fn get_next_idle_gpu(&self) -> (r: Option<u32>)
        requires
            self.wf(),
        ensures
            match r {
                Some(g) => exists|k: int|
                    0 <= k < self.pool().len() && self.pool()[k] == g && self.ready(g) && forall|
                        j: int,
                    | 0 <= j < k ==> !self.ready(#[trigger] self.pool()[j]),
                None => forall|k: int| 0 <= k < self.pool().len() ==> !self.ready(#[trigger] self.pool()[k]),
            },
    {
        let n = self.gpu_pool.len();
        let mut k: usize = 0;
        while k < n
            invariant
                self.wf(),
                n == self.gpu_pool@.len(),
                k <= n,
                forall|j: int| 0 <= j < k ==> !self.ready(#[trigger] self.gpu_pool@[j]),
            decreases n - k,
        {
            let g = self.gpu_pool[k];
            match self.slot_index(g) {
                Some(i) => {
                    proof {
                        self.lemma_tasks_on_slot(i as int);
                    }
                    if self.active_tasks[i].1.len() == 0 && self.monitor.is_gpu_idle(g) {
                        proof {
                            assert(self.slots()[i as int].1 == self.active_tasks@[i as int].1@);
                            assert(self.ready(g));
                            assert(self.pool()[k as int] == g);
                        }
                        return Some(g);
                    }
                },
                None => {},
            }
            k = k + 1;
        }
        None
    }

    /// The position of the most urgent pending task.
    fn most_urgent_index(&self) -> (r: usize)
        requires
            self.pending().len() > 0,
        ensures
            r == most_urgent(self.pending()),
            r < self.pending().len(),
    {
        let ghost q = self.pending_queue@;
        let n = self.pending_queue.len();
        let mut best: usize = 0;
        let mut k: usize = 1;
        proof {
            assert(q.take(1).len() == 1);
        }
        while k < n
            invariant
                q == self.pending_queue@,
                n == q.len(),
                1 <= k <= n,
                best < k,
                best == most_urgent(q.take(k as int)),
            decreases n - k,
        {
            proof {
                let t = q.take(k + 1);
                assert(t.drop_last() =~= q.take(k as int));
                assert(t.last() == q[k as int]);
                assert(t[best as int] == q[best as int]);
            }
            if self.pending_queue[k].priority < self.pending_queue[best].priority {
                best = k;
            }
            k = k + 1;
        }
        proof {
            assert(q.take(n as int) =~= q);
            lemma_most_urgent(q);
        }
        best
    }

    /// Moves the most urgent pending task (the smallest priority value, the
    /// oldest among equals) onto the first ready GPU of the pool.
    /// Returns the task and the GPU, or `None`, with nothing changed, when
    /// nothing is pending or no GPU is ready.
    pub fn schedule_next(&mut self) -> (r: Option<(Task, u32)>)
        requires
            old(self).wf(),
        ensures
            final(self).wf(),
            final(self).pool() == old(self).pool(),
            final(self).monitor() == old(self).monitor(),
            match r {
                None => {
                    &&& *final(self) == *old(self)
                    &&& (old(self).pending().len() == 0 || forall|k: int|
                        0 <= k < old(self).pool().len() ==> !old(self).ready(
                            #[trigger] old(self).pool()[k],
                        ))
                },
                Some((t, g)) => old(self).placed(*final(self), t, g),
            },
    {
        if self.pending_queue.len() == 0 {
            return None;
        }
        let gpu_id = match self.get_next_idle_gpu() {
            Some(g) => g,
            None => {
                return None;
            },
        };
        let i = match self.slot_index(gpu_id) {
            Some(i) => i,
            None => {
                proof {
                    let k = choose|k: int|
                        0 <= k < self.pool().len() && self.pool()[k] == gpu_id && self.ready(gpu_id)
                            && forall|j: int| 0 <= j < k ==> !self.ready(#[trigger] self.pool()[j]);
                }
                return None;
            },
        };
        let ghost old_slots = self.slots();
        proof {
            self.lemma_tasks_on_slot(i as int);
        }
        let at = self.most_urgent_index();
        let task = match self.pending_queue.remove(at) {
            Some(t) => t,
            None => {
                proof {
                    assert(false);
                }
                return None;
            },
        };
        let mut ids: Vec<u128> = Vec::new();
        ids.push(task.task_id);
        self.active_tasks.set(i, (gpu_id, ids));
        proof {
            let slots = self.slots();
            assert(slots =~= old_slots.update(i as int, (gpu_id, seq![task.task_id])));
            assert(self.wf()) by {
                assert forall|k: int| 0 <= k < self.gpu_pool@.len() implies self.has_slot(
                    #[trigger] self.gpu_pool@[k],
                ) by {
                    let g = self.gpu_pool@[k];
                    assert(old(self).has_slot(g));
                    let c = choose|j: int| 0 <= j < old_slots.len() && #[trigger] old_slots[j].0 == g;
                    assert(slots[c].0 == g);
                }
            }
            assert forall|h: u32| #[trigger] self.has_slot(h) == old(self).has_slot(h) by {
                if old(self).has_slot(h) {
                    let c = choose|j: int| 0 <= j < old_slots.len() && #[trigger] old_slots[j].0 == h;
                    assert(slots[c].0 == h);
                }
                if self.has_slot(h) {
                    let c = choose|j: int| 0 <= j < slots.len() && #[trigger] slots[j].0 == h;
                    assert(old_slots[c].0 == h);
                }
            }
            self.lemma_tasks_on_slot(i as int);
            assert forall|h: u32| h != gpu_id implies #[trigger] self.tasks_on(h) == old(self).tasks_on(h) by {
                if self.has_slot(h) {
                    let c = choose|j: int| 0 <= j < slots.len() && #[trigger] slots[j].0 == h;
                    self.lemma_tasks_on_slot(c);
                    old(self).lemma_tasks_on_slot(c);
                }
            }
            lemma_total_update(old_slots, i as int, (gpu_id, seq![task.task_id]));
        }
        Some((task, gpu_id))
    }

    /// Removes `task_id` from the tasks of `gpu_id`; a GPU without a slot
    /// is left alone.
    pub fn release_gpu(&mut self, gpu_id: u32, task_id: u128)
        requires
            old(self).wf(),
        ensures
            final(self).wf(),
            old(self).released(*final(self), gpu_id, task_id),
            old(self).tasks_on(gpu_id) == seq![task_id] ==> final(self).tasks_on(gpu_id)
                == Seq::<u128>::empty(),
    {
        proof {
            lemma_without_only(task_id);
        }
        let i = match self.slot_index(gpu_id) {
            Some(i) => i,
            None => {
                return;
            },
        };
        let ghost old_slots = self.slots();
        proof {
            self.lemma_tasks_on_slot(i as int);
        }
        let n = self.active_tasks[i].1.len();
        let mut kept: Vec<u128> = Vec::new();
        let mut k: usize = 0;
        while k < n
            invariant
                n == old_slots[i as int].1.len(),
                i < old_slots.len(),
                old_slots == self.slots(),
                k <= n,
                kept@ == without(old_slots[i as int].1.take(k as int), task_id),
            decreases n - k,
        {
            let id = self.active_tasks[i].1[k];
            proof {
                let s = old_slots[i as int].1;
                assert(s.take(k + 1).drop_last() =~= s.take(k as int));
            }
            if id != task_id {
                kept.push(id);
            }
            k = k + 1;
        }
        proof {
            assert(old_slots[i as int].1.take(n as int) =~= old_slots[i as int].1);
            lemma_without_len(old_slots[i as int].1, task_id);
        }
        self.active_tasks.set(i, (gpu_id, kept));
        proof {
            let slots = self.slots();
            let new_slot = (gpu_id, without(old_slots[i as int].1, task_id));
            assert(slots =~= old_slots.update(i as int, new_slot));
            assert(self.wf()) by {
                assert forall|k: int| 0 <= k < self.gpu_pool@.len() implies self.has_slot(
                    #[trigger] self.gpu_pool@[k],
                ) by {
                    let g = self.gpu_pool@[k];
                    assert(old(self).has_slot(g));
                    let c = choose|j: int| 0 <= j < old_slots.len() && #[trigger] old_slots[j].0 == g;
                    assert(slots[c].0 == g);
                }
            }
            assert forall|h: u32| #[trigger] self.has_slot(h) == old(self).has_slot(h) by {
                if old(self).has_slot(h) {
                    let c = choose|j: int| 0 <= j < old_slots.len() && #[trigger] old_slots[j].0 == h;
                    assert(slots[c].0 == h);
                }
                if self.has_slot(h) {
                    let c = choose|j: int| 0 <= j < slots.len() && #[trigger] slots[j].0 == h;
                    assert(old_slots[c].0 == h);
                }
            }
            self.lemma_tasks_on_slot(i as int);
            assert forall|h: u32| h != gpu_id implies #[trigger] self.tasks_on(h) == old(self).tasks_on(h) by {
                if self.has_slot(h) {
                    let c = choose|j: int| 0 <= j < slots.len() && #[trigger] slots[j].0 == h;
                    self.lemma_tasks_on_slot(c);
                    old(self).lemma_tasks_on_slot(c);
                }
            }
            lemma_total_update(old_slots, i as int, new_slot);
        }
    }

    /// The number of tasks running, over all GPUs.
    pub fn get_active_task_count(&self) -> (r: usize)
        requires
            self.wf(),
        ensures
            r == self.active_count(),
    {
        let n = self.active_tasks.len();
        let mut total: usize = 0;
        let mut i: usize = 0;
        while i < n
            invariant
                self.wf(),
                n == self.slots().len(),
                i <= n,
                total == slot_task_total(self.slots().take(i as int)),
                total <= i,
            decreases n - i,
        {
            proof {
                let s = self.slots();
                assert(s.take(i + 1).drop_last() =~= s.take(i as int));
                assert(s[i as int].1.len() <= 1);
            }
            total = total + self.active_tasks[i].1.len();
            i = i + 1;
        }
        proof {
            assert(self.slots().take(n as int) =~= self.slots());
        }
        total
    }

    /// The number of tasks waiting for a GPU.
    pub fn get_pending_count(&self) -> (r: usize)
        ensures
            r == self.pending().len(),
    {
        self.pending_queue.len()
    }

    /// The GPUs of the pool.
    pub fn get_gpu_pool(&self) -> (r: &[u32])
        ensures
            r@ == self.pool(),
    {
        self.gpu_pool.as_slice()
    }

    /// The monitor consulted for idleness.
    pub fn get_monitor(&self) -> (r: &GpuMonitor)
        ensures
            *r == self.monitor(),
    {
        &self.monitor
    }

    /// Whether a task runs on `gpu_id`.
    pub fn is_gpu_busy(&self, gpu_id: u32) -> (b: bool)
        requires
            self.wf(),
        ensures
            b == (self.tasks_on(gpu_id).len() > 0),
    {
        match self.slot_index(gpu_id) {
            Some(i) => {
                proof {
                    self.lemma_tasks_on_slot(i as int);
                }
                self.active_tasks[i].1.len() > 0
            },
            None => false,
        }
    }

    /// The ids of the tasks running on `gpu_id`, or `None` when the GPU is
    /// not in the pool.
    pub fn get_gpu_tasks(&self, gpu_id: u32) -> (r: Option<&Vec<u128>>)
        requires
            self.wf(),
        ensures
            match r {
                Some(v) => self.has_slot(gpu_id) && v@ == self.tasks_on(gpu_id),
                None => !self.has_slot(gpu_id),
            },
    {
        match self.slot_index(gpu_id) {
            Some(i) => {
                proof {
                    self.lemma_tasks_on_slot(i as int);
                }
                let slot = &self.active_tasks[i];
                Some(&slot.1)
            },
            None => None,
        }
    }

    /// Totals of the pool, the running and pending tasks, and the GPUs
    /// that run nothing.
    pub fn get_status_summary(&self) -> (st: SchedulerStatus)
        requires
            self.wf(),
        ensures
            st.total_gpus == self.pool().len(),
            st.active_tasks == self.active_count(),
            st.pending_tasks == self.pending().len(),
            st.available_gpus == self.pool().len() - busy_slot_count(self.slots()),
            st.active_tasks + st.available_gpus == st.total_gpus,
    {
        let n = self.active_tasks.len();
        let mut busy: usize = 0;
        let mut i: usize = 0;
        while i < n
            invariant
                n == self.slots().len(),
                i <= n,
                busy == busy_slot_count(self.slots().take(i as int)),
                busy <= i,
            decreases n - i,
        {
            proof {
                let s = self.slots();
                assert(s.take(i + 1).drop_last() =~= s.take(i as int));
            }
            if self.active_tasks[i].1.len() > 0 {
                busy = busy + 1;
            }
            i = i + 1;
        }
        proof {
            assert(self.slots().take(n as int) =~= self.slots());
            lemma_busy_is_total(self.slots());
        }
        SchedulerStatus {
            total_gpus: self.gpu_pool.len(),
            active_tasks: self.get_active_task_count(),
            pending_tasks: self.pending_queue.len(),
            available_gpus: self.gpu_pool.len() - busy,
        }
    }
}

/// Releasing the task that scheduling placed on a GPU undoes the placement:
/// every GPU runs what it ran before, and as many tasks run as before; the
/// task has left the pending queue.
pub proof fn lemma_release_undoes_placement(
    s0: GpuScheduler,
    s1: GpuScheduler,
    s2: GpuScheduler,
    t: Task,
    g: u32,
)
    requires
        s0.wf(),
        s0.placed(s1, t, g),
        s1.released(s2, g, t.task_id),
    ensures
        forall|h: u32| #[trigger] s2.tasks_on(h) == s0.tasks_on(h),
        forall|h: u32| #[trigger] s2.has_slot(h) == s0.has_slot(h),
        s2.active_count() == s0.active_count(),
        s2.pending() == s0.pending().remove(most_urgent(s0.pending())),
{
    let id = t.task_id;
    let one = seq![id];
    assert(one.drop_last() =~= Seq::<u128>::empty());
    assert(without(one.drop_last(), id) =~= Seq::<u128>::empty());
    assert(one.last() == id);
    assert(without(one, id) =~= Seq::<u128>::empty());
    assert(s0.tasks_on(g) =~= Seq::<u128>::empty());
    assert forall|h: u32| #[trigger] s2.tasks_on(h) == s0.tasks_on(h) by {
        if h == g {
        }
    }
}

proof fn lemma_busy_is_total(slots: Seq<(u32, Seq<u128>)>)
    requires
        forall|i: int| 0 <= i < slots.len() ==> (#[trigger] slots[i]).1.len() <= 1,
    ensures
        busy_slot_count(slots) == slot_task_total(slots),
    decreases slots.len(),
{
    if slots.len() > 0 {
        lemma_busy_is_total(slots.drop_last());
    }
}

/// Whether some entry of `v` is keyed by `g`.
spec fn keyed(v: Seq<(u32, Vec<u128>)>, g: u32) -> bool {
    exists|a: int| 0 <= a < v.len() && #[trigger] v[a].0 == g
}

proof fn lemma_keyed_take(v: Seq<(u32, Vec<u128>)>, j: int, g: u32)
    requires
        0 <= j < v.len(),
    ensures
        keyed(v.take(j + 1), g) <==> (keyed(v.take(j), g) || v[j].0 == g),
{
    let t = v.take(j + 1);
    if keyed(t, g) {
        let a = choose|a: int| 0 <= a < t.len() && #[trigger] t[a].0 == g;
        if a < j {
            assert(v.take(j)[a].0 == g);
        }
    }
    if keyed(v.take(j), g) {
        let a = choose|a: int| 0 <= a < j && #[trigger] v.take(j)[a].0 == g;
        assert(t[a].0 == g);
    }
    if v[j].0 == g {
        assert(t[j].0 == g);
    }
}

proof fn lemma_total_zero(slots: Seq<(u32, Seq<u128>)>)
    requires
        forall|i: int| 0 <= i < slots.len() ==> (#[trigger] slots[i]).1.len() == 0,
    ensures
        slot_task_total(slots) == 0,
    decreases slots.len(),
{
    if slots.len() > 0 {
        lemma_total_zero(slots.drop_last());
    }
}

proof fn lemma_total_update(slots: Seq<(u32, Seq<u128>)>, i: int, s: (u32, Seq<u128>))
    requires
        0 <= i < slots.len(),
    ensures
        slot_task_total(slots.update(i, s)) + slots[i].1.len() == slot_task_total(slots) + s.1.len(),
        busy_slot_count(slots.update(i, s)) + (if slots[i].1.len() > 0 { 1int } else { 0int })
            == busy_slot_count(slots) + (if s.1.len() > 0 { 1int } else { 0int }),
    decreases slots.len(),
{
    let u = slots.update(i, s);
    if i < slots.len() - 1 {
        lemma_total_update(slots.drop_last(), i, s);
        assert(u.drop_last() =~= slots.drop_last().update(i, s));
    } else {
        assert(u.drop_last() =~= slots.drop_last());
    }
}

proof fn lemma_without_len(ids: Seq<u128>, id: u128)
    ensures
        without(ids, id).len() <= ids.len(),
    decreases ids.len(),
{
    if ids.len() > 0 {
        lemma_without_len(ids.drop_last(), id);
    }
}

} // verus!
