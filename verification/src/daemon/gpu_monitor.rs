//! GPU idle detection: in simulation mode every GPU is idle; otherwise a
//! GPU is idle when it belongs to the pool and its last utilization reading
//! is below ten percent.
use vstd::prelude::*;

use crate::numbers::{parse_u32, parsed_u32, trim, trim_view};

verus! {

/// Utilization (percent) below which a GPU counts as idle.
pub const IDLE_UTILIZATION_LIMIT: u32 = 10;

/// Monitors a pool of GPUs. In real mode the readings come from
/// `nvidia-smi`, recorded with [`GpuMonitor::record_utilization`].
#[derive(Clone, Debug)]
pub struct GpuMonitor {
    gpu_pool: Vec<u32>,
    simulate_mode: bool,
    /// Last reading per pool position (`None`: no successful reading).
    readings: Vec<Option<u32>>,
}

impl GpuMonitor {
    /// One reading per pool position, equal for equal GPU ids.
    pub closed spec fn wf(self) -> bool {
        &&& self.readings@.len() == self.gpu_pool@.len()
        &&& forall|i: int, j: int|
            0 <= i < self.gpu_pool@.len() && 0 <= j < self.gpu_pool@.len() && self.gpu_pool@[i]
                == self.gpu_pool@[j] ==> self.readings@[i] == self.readings@[j]
    }

    /// The GPUs monitored.
    pub closed spec fn pool(self) -> Seq<u32> {
        self.gpu_pool@
    }

    /// Whether every GPU counts as idle.
    pub closed spec fn simulates(self) -> bool {
        self.simulate_mode
    }

    /// The last utilization reading of `gpu_id` (`None` when it is not in
    /// the pool or has no successful reading).
    pub closed spec fn reading(self, gpu_id: u32) -> Option<u32> {
        if self.gpu_pool@.contains(gpu_id) {
            self.readings@[choose|i: int|
                0 <= i < self.gpu_pool@.len() && self.gpu_pool@[i] == gpu_id]
        } else {
            None
        }
    }

    /// When a GPU counts as idle: always when the monitor simulates;
    /// otherwise when it is in the pool and its last reading is below the
    /// idle limit.
    pub open spec fn idle(self, gpu_id: u32) -> bool {
        ||| self.simulates()
        ||| (self.pool().contains(gpu_id) && (self.reading(gpu_id) matches Some(u) && u
            < IDLE_UTILIZATION_LIMIT))
    }

    /// A monitor for `gpu_pool`; with `simulate_mode` every GPU is idle.
    pub fn new(gpu_pool: Vec<u32>, simulate_mode: bool) -> (m: GpuMonitor)
        ensures
            m.wf(),
            m.pool() == gpu_pool@,
            m.simulates() == simulate_mode,
            forall|g: u32| m.reading(g) is None,
    {
        let n = gpu_pool.len();
        let mut readings: Vec<Option<u32>> = Vec::new();
        let mut i: usize = 0;
        while i < n
            invariant
                n == gpu_pool@.len(),
                i <= n,
                readings@.len() == i,
                forall|k: int| 0 <= k < i ==> readings@[k] is None,
            decreases n - i,
        {
            readings.push(None);
            i = i + 1;
        }
        GpuMonitor { gpu_pool, simulate_mode, readings }
    }

    /// Whether every pool GPU counts as idle (no readings are needed).
    pub fn simulated(&self) -> (b: bool)
        ensures
            b == self.simulates(),
    {
        self.simulate_mode
    }

    /// The GPUs monitored, in the order given.
    pub fn gpus(&self) -> (r: &[u32])
        ensures
            r@ == self.pool(),
    {
        self.gpu_pool.as_slice()
    }

    fn position(&self, gpu_id: u32) -> (r: Option<usize>)
        ensures
            match r {
                Some(i) => i < self.gpu_pool@.len() && self.gpu_pool@[i as int] == gpu_id,
                None => !self.gpu_pool@.contains(gpu_id),
            },
    {
        let n = self.gpu_pool.len();
        let mut i: usize = 0;
        while i < n
            invariant
                n == self.gpu_pool@.len(),
                i <= n,
                forall|k: int| 0 <= k < i ==> self.gpu_pool@[k] != gpu_id,
            decreases n - i,
        {
            if self.gpu_pool[i] == gpu_id {
                return Some(i);
            }
            i = i + 1;
        }
        None
    }

    /// Whether `gpu_id` is idle: always in simulation mode, otherwise when it
    /// is in the pool and its last reading is below the idle limit.
    pub fn is_gpu_idle(&self, gpu_id: u32) -> (b: bool)
        requires
            self.wf(),
        ensures
            b == self.idle(gpu_id),
    {
        if self.simulate_mode {
            return true;
        }
        match self.position(gpu_id) {
            None => false,
            Some(i) => {
                proof {
                    let c = choose|k: int| 0 <= k < self.gpu_pool@.len() && self.gpu_pool@[k] == gpu_id;
                    assert(self.readings@[c] == self.readings@[i as int]);
                }
                match self.readings[i] {
                    Some(u) => u < IDLE_UTILIZATION_LIMIT,
                    None => false,
                }
            },
        }
    }

    /// Records the latest utilization reading of `gpu_id` (`None`: the
    /// query failed, which counts as busy). GPUs outside the pool are ignored.
    pub fn record_utilization(&mut self, gpu_id: u32, utilization: Option<u32>)
        requires
            old(self).wf(),
        ensures
            final(self).wf(),
            final(self).pool() == old(self).pool(),
            final(self).simulates() == old(self).simulates(),
            final(self).reading(gpu_id) == (if old(self).pool().contains(gpu_id) {
                utilization
            } else {
                None
            }),
            forall|g: u32| g != gpu_id ==> final(self).reading(g) == old(self).reading(g),
    {
        let n = self.gpu_pool.len();
        let ghost old_readings = self.readings@;
        assert(self.wf());
        let mut i: usize = 0;
        while i < n
            invariant
                n == self.gpu_pool@.len(),
                self.gpu_pool@ == old(self).gpu_pool@,
                self.simulate_mode == old(self).simulate_mode,
                old_readings.len() == n,
                forall|a: int, b: int|
                    0 <= a < n && 0 <= b < n && self.gpu_pool@[a] == self.gpu_pool@[b]
                        ==> old_readings[a] == old_readings[b],
                i <= n,
                self.readings@.len() == n,
                forall|k: int|
                    0 <= k < n ==> self.readings@[k] == (if k < i && self.gpu_pool@[k] == gpu_id {
                        utilization
                    } else {
                        old_readings[k]
                    }),
            decreases n - i,
        {
            if self.gpu_pool[i] == gpu_id {
                self.readings.set(i, utilization);
            }
            i = i + 1;
        }
        proof {
            assert forall|g: u32| g != gpu_id implies self.reading(g) == old(self).reading(g) by {
                if self.gpu_pool@.contains(g) {
                    let c = choose|k: int| 0 <= k < self.gpu_pool@.len() && self.gpu_pool@[k] == g;
                    assert(self.readings@[c] == old_readings[c]);
                }
            }
            if self.gpu_pool@.contains(gpu_id) {
                let c = choose|k: int|
                    0 <= k < self.gpu_pool@.len() && self.gpu_pool@[k] == gpu_id;
                assert(self.readings@[c] == utilization);
            }
        }
    }
}

/// The utilization `nvidia-smi` printed: its output trimmed and parsed as a
/// `u32` percentage, or `None` when the query failed or printed anything else.
pub fn utilization_from_output(success: bool, stdout: &str) -> (r: Option<u32>)
    ensures
        !success ==> r is None,
        success ==> r == parsed_u32(trim_view(stdout@)),
{
    if !success {
        return None;
    }
    let t = trim(stdout);
    parse_u32(t.as_str())
}

} // verus!
