//! The decisions of GPU-aware processing: a task is queued and placed on a
//! ready GPU, or refused when none is ready; when its run ends the GPU is
//! released and, for a task of a batch, the batch's progress is recorded.
//! Running the task and reading or writing progress files is the caller's.
use vstd::prelude::*;

use super::executor::Executor;
use super::gpu_monitor::GpuMonitor;
use super::gpu_scheduler::GpuScheduler;
use crate::base::batch_tracker::BatchTracker;
use crate::base::models::Task;

verus! {

/// The error given when no GPU can take a task.
pub open spec fn no_gpu_message() -> Seq<char> {
    "No available GPU for task execution"@
}

/// Coordinates the scheduler and the executor.
#[derive(Clone, Debug)]
pub struct GpuTaskProcessor {
    gpu_scheduler: GpuScheduler,
    executor: Executor,
    batch_tracker: Option<BatchTracker>,
}

impl GpuTaskProcessor {
    /// The scheduler.
    pub closed spec fn scheduler(self) -> GpuScheduler {
        self.gpu_scheduler
    }

    /// The executor.
    pub closed spec fn runner(self) -> Executor {
        self.executor
    }

    /// The batch tracker, if batches are tracked.
    pub closed spec fn tracker(self) -> Option<BatchTracker> {
        self.batch_tracker
    }

    /// A processor over `gpu_pool`, whose monitor simulates when
    /// `simulate_mode` is set.
    pub fn new(
        gpu_pool: Vec<u32>,
        executor: Executor,
        simulate_mode: bool,
        batch_tracker: Option<BatchTracker>,
    ) -> (r: Result<GpuTaskProcessor, String>)
        ensures
            r matches Ok(p) && p.scheduler().wf() && p.scheduler().pool() == gpu_pool@
                && p.scheduler().monitor().pool() == gpu_pool@
                && p.scheduler().monitor().simulates() == simulate_mode
                && p.scheduler().pending().len() == 0 && p.scheduler().active_count() == 0
                && (forall|g: u32| p.scheduler().has_slot(g) <==> gpu_pool@.contains(g))
                && (forall|g: u32| #[trigger] p.scheduler().tasks_on(g) == Seq::<u128>::empty())
                && p.runner() == executor && p.tracker() == batch_tracker,
    {
        let n = gpu_pool.len();
        let mut monitor_pool: Vec<u32> = Vec::new();
        let mut i: usize = 0;
        while i < n
            invariant
                n == gpu_pool@.len(),
                i <= n,
                monitor_pool@ == gpu_pool@.take(i as int),
            decreases n - i,
        {
            monitor_pool.push(gpu_pool[i]);
            i = i + 1;
            proof {
                assert(monitor_pool@ =~= gpu_pool@.take(i as int));
            }
        }
        proof {
            assert(monitor_pool@ =~= gpu_pool@);
        }
        let monitor = GpuMonitor::new(monitor_pool, simulate_mode);
        let scheduler = GpuScheduler::new(gpu_pool, monitor);
        Ok(GpuTaskProcessor { gpu_scheduler: scheduler, executor, batch_tracker })
    }

    /// The scheduler.
    pub fn gpu_scheduler(&self) -> (r: &GpuScheduler)
        ensures
            *r == self.scheduler(),
    {
        &self.gpu_scheduler
    }

    /// The executor.
    pub fn executor(&self) -> (r: &Executor)
        ensures
            *r == self.runner(),
    {
        &self.executor
    }

    /// The batch tracker.
    pub fn batch_tracker(&self) -> (r: Option<&BatchTracker>)
        ensures
            match r {
                Some(t) => self.tracker() == Some(*t),
                None => self.tracker() is None,
            },
    {
        match &self.batch_tracker {
            Some(t) => Some(t),
            None => None,
        }
    }

    /// Queues `task` and places the most urgent queued task on the first ready
    /// GPU. Returns that task and GPU, or the no-GPU error, the task then
    /// staying queued.
    pub fn begin_task(&mut self, task: Task) -> (r: Result<(Task, u32), String>)
        requires
            old(self).scheduler().wf(),
        ensures
            final(self).scheduler().wf(),
            final(self).runner() == old(self).runner(),
            final(self).tracker() == old(self).tracker(),
            match r {
                Ok((t, g)) => old(self).scheduler().placed_from(
                    old(self).scheduler().pending().push(task),
                    final(self).scheduler(),
                    t,
                    g,
                ),
                Err(e) => {
                    &&& e@ == no_gpu_message()
                    &&& final(self).scheduler().pending() == old(self).scheduler().pending().push(task)
                    &&& final(self).scheduler().slots() == old(self).scheduler().slots()
                    &&& final(self).scheduler().pool() == old(self).scheduler().pool()
                    &&& final(self).scheduler().monitor() == old(self).scheduler().monitor()
                    &&& forall|k: int|
                        0 <= k < old(self).scheduler().pool().len() ==> !old(self).scheduler().ready(
                            #[trigger] old(self).scheduler().pool()[k],
                        )
                },
            },
    {
        self.gpu_scheduler.enqueue(task);
        match self.gpu_scheduler.schedule_next() {
            Some(p) => Ok(p),
            None => Err("No available GPU for task execution".to_owned()),
        }
    }

    /// Releases GPU `gpu_id` from `task_id` once its run is over.
    pub fn finish_task(&mut self, gpu_id: u32, task_id: u128)
        requires
            old(self).scheduler().wf(),
        ensures
            final(self).scheduler().wf(),
            old(self).scheduler().released(final(self).scheduler(), gpu_id, task_id),
            old(self).scheduler().tasks_on(gpu_id) == seq![task_id] ==> final(self).scheduler().tasks_on(
                gpu_id,
            ) == Seq::<u128>::empty(),
            final(self).runner() == old(self).runner(),
            final(self).tracker() == old(self).tracker(),
    {
        self.gpu_scheduler.release_gpu(gpu_id, task_id);
    }

    /// Records the latest utilization reading of `gpu_id`; the running
    /// tasks, the queue and the pool stay as they are.
    pub fn record_utilization(&mut self, gpu_id: u32, utilization: Option<u32>)
        requires
            old(self).scheduler().wf(),
        ensures
            final(self).scheduler().wf(),
            final(self).scheduler().pool() == old(self).scheduler().pool(),
            final(self).scheduler().slots() == old(self).scheduler().slots(),
            final(self).scheduler().pending() == old(self).scheduler().pending(),
            final(self).scheduler().monitor().pool() == old(self).scheduler().monitor().pool(),
            final(self).scheduler().monitor().simulates() == old(self).scheduler().monitor().simulates(),
            final(self).scheduler().monitor().reading(gpu_id) == (if old(self).scheduler().monitor().pool().contains(
                gpu_id,
            ) {
                utilization
            } else {
                None
            }),
            forall|g: u32|
                g != gpu_id ==> final(self).scheduler().monitor().reading(g) == old(
                    self,
                ).scheduler().monitor().reading(g),
            final(self).runner() == old(self).runner(),
            final(self).tracker() == old(self).tracker(),
    {
        self.gpu_scheduler.record_utilization(gpu_id, utilization);
    }

    /// Queues `task` for the next [`GpuTaskProcessor::next_scheduled`].
    pub fn accept(&mut self, task: Task)
        requires
            old(self).scheduler().wf(),
        ensures
            final(self).scheduler().wf(),
            final(self).scheduler().pending() == old(self).scheduler().pending().push(task),
            final(self).scheduler().slots() == old(self).scheduler().slots(),
            final(self).scheduler().pool() == old(self).scheduler().pool(),
            final(self).scheduler().monitor() == old(self).scheduler().monitor(),
            final(self).runner() == old(self).runner(),
            final(self).tracker() == old(self).tracker(),
    {
        self.gpu_scheduler.enqueue(task);
    }

    /// Places the most urgent queued task on the first ready GPU, if any.
    pub fn next_scheduled(&mut self) -> (r: Option<(Task, u32)>)
        requires
            old(self).scheduler().wf(),
        ensures
            final(self).scheduler().wf(),
            final(self).runner() == old(self).runner(),
            final(self).tracker() == old(self).tracker(),
            match r {
                None => {
                    &&& final(self).scheduler() == old(self).scheduler()
                    &&& (old(self).scheduler().pending().len() == 0 || forall|k: int|
                        0 <= k < old(self).scheduler().pool().len() ==> !old(
                            self,
                        ).scheduler().ready(#[trigger] old(self).scheduler().pool()[k]))
                },
                Some((t, g)) => old(self).scheduler().placed(final(self).scheduler(), t, g),
            },
    {
        self.gpu_scheduler.schedule_next()
    }
}

} // verus!
