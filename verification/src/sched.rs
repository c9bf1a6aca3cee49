//! Hybrid CPU task scheduler.
//!
//! Places tasks on Performance or Efficiency cores from a scored placement
//! function, migrates them with hysteresis when their characterization
//! changes, and keeps per-core load bookkeeping.  Intensities, utilizations
//! and the configuration weights are fixed-point values in thousandths
//! (0 stands for 0.0, 1000 for 1.0).

use vstd::prelude::*;

use crate::cpu_hybrid::{CoreTopology, CoreType};
use crate::hal::HalError;
use crate::policy::PolicyMode;

verus! {

/// Characterization of a task for scheduling purposes.
#[derive(Clone, Copy, Debug)]
pub struct TaskProfile {
    /// Unique task id.
    pub task_id: u32,
    /// Task priority.
    pub priority: u8,
    /// CPU intensity in thousandths (0-1000).
    pub cpu_intensity: u32,
    /// Memory access intensity in thousandths (0-1000).
    pub memory_intensity: u32,
    /// I/O intensity in thousandths (0-1000).
    pub io_intensity: u32,
    /// The core the task currently resides on.
    pub last_core: u32,
    /// Total runtime in milliseconds.
    pub run_time: u64,
    /// Optional deadline in milliseconds.
    pub deadline: Option<u64>,
}

/// Scheduler configuration, fixed at init.
#[derive(Clone, Copy, Debug)]
pub struct SchedulerConfig {
    /// Load imbalance threshold for migration, in thousandths.
    pub migration_threshold: u32,
    /// Bias for P-core assignment, in thousandths.
    pub p_core_preference: u32,
    /// Power efficiency weight, in thousandths.
    pub power_efficiency: u32,
}

/// Per-core load bookkeeping.  Exactly one `CoreLoad` owns a given task at
/// any time; migration transfers ownership.
#[derive(Debug)]
pub struct CoreLoad {
    /// Core id.
    pub core_id: u32,
    /// Core type.
    pub core_type: CoreType,
    /// Core utilization in thousandths (0-1000).
    pub utilization: u32,
    /// Number of tasks on the core; always `active_tasks.len()`.
    pub task_count: u32,
    /// The tasks resident on this core, in arrival order.
    pub active_tasks: Vec<TaskProfile>,
}

/// Hybrid scheduler state.
pub struct HybridScheduler {
    /// Whether the scheduler has been initialized.
    pub initialized: bool,
    /// Number of live tasks.
    pub total_tasks: u32,
    /// Per-core loads, in topology enumeration order.
    pub core_loads: Vec<CoreLoad>,
    /// Scheduler configuration.
    pub config: SchedulerConfig,
    /// How many tasks were ever scheduled.
    pub scheduled: Ghost<nat>,
    /// How many tasks were ever completed.
    pub completed: Ghost<nat>,
}

/// Intensities are fractions, so at most 1000 thousandths.
pub open spec fn spec_profile_valid(p: TaskProfile) -> bool {
    p.cpu_intensity <= 1000 && p.memory_intensity <= 1000 && p.io_intensity <= 1000
}

/// Configuration weights are fractions, so at most 1000 thousandths.
pub open spec fn spec_config_valid(c: SchedulerConfig) -> bool {
    c.migration_threshold <= 1000 && c.p_core_preference <= 1000 && c.power_efficiency <= 1000
}

/// A core load is consistent: the count matches the queue, every resident
/// task names this core, and every stored profile is valid.
pub open spec fn spec_load_wf(l: CoreLoad) -> bool {
    &&& l.task_count as int == l.active_tasks@.len()
    &&& l.utilization <= 1000
    &&& forall|a: int|
        0 <= a < l.active_tasks@.len() ==> (#[trigger] l.active_tasks@[a]).last_core == l.core_id
    &&& forall|a: int|
        0 <= a < l.active_tasks@.len() ==> spec_profile_valid(#[trigger] l.active_tasks@[a])
}

/// No task id occurs twice across all core loads.
pub open spec fn spec_tasks_unique(loads: Seq<CoreLoad>) -> bool {
    forall|i: int, a: int, j: int, b: int|
        0 <= i < loads.len() && 0 <= a < loads[i].active_tasks@.len() && 0 <= j < loads.len() && 0
            <= b < loads[j].active_tasks@.len() && (i != j || a != b) ==> (
        #[trigger] loads[i].active_tasks@[a]).task_id != (
        #[trigger] loads[j].active_tasks@[b]).task_id
}

/// Whether some core load owns a task with this id.
pub open spec fn spec_has_task(loads: Seq<CoreLoad>, task_id: u32) -> bool {
    exists|i: int, a: int|
        0 <= i < loads.len() && 0 <= a < loads[i].active_tasks@.len() && (
        #[trigger] loads[i].active_tasks@[a]).task_id == task_id
}

/// The (core index, queue index) where a task resides.
pub open spec fn spec_task_location(loads: Seq<CoreLoad>, task_id: u32) -> (int, int) {
    choose|i: int, a: int|
        0 <= i < loads.len() && 0 <= a < loads[i].active_tasks@.len() && (
        #[trigger] loads[i].active_tasks@[a]).task_id == task_id
}

/// Total number of resident tasks over all core loads.
pub open spec fn spec_sum_counts(loads: Seq<CoreLoad>) -> int
    decreases loads.len(),
{
    if loads.len() == 0 {
        0
    } else {
        spec_sum_counts(loads.drop_last()) + loads.last().active_tasks@.len()
    }
}

impl HybridScheduler {
    /// Scheduler invariant: consistent loads, unique core ids, unique task
    /// ids, and counts that balance with the scheduled/completed ledger.
    pub open spec fn wf(self) -> bool {
        &&& forall|i: int|
            0 <= i < self.core_loads@.len() ==> spec_load_wf(#[trigger] self.core_loads@[i])
        &&& forall|i: int, j: int|
            0 <= i < j < self.core_loads@.len() ==> (#[trigger] self.core_loads@[i]).core_id != (
            #[trigger] self.core_loads@[j]).core_id
        &&& spec_tasks_unique(self.core_loads@)
        &&& self.total_tasks as int == spec_sum_counts(self.core_loads@)
        &&& self.completed@ <= self.scheduled@
        &&& spec_sum_counts(self.core_loads@) == self.scheduled@ - self.completed@
        &&& spec_config_valid(self.config)
    }
}

/// The sum of queue lengths is never negative.
pub proof fn lemma_sum_nonneg(loads: Seq<CoreLoad>)
    ensures
        spec_sum_counts(loads) >= 0,
    decreases loads.len(),
{
    if loads.len() > 0 {
        lemma_sum_nonneg(loads.drop_last());
    }
}

/// Each queue is at most the total.
pub proof fn lemma_sum_le(loads: Seq<CoreLoad>, i: int)
    requires
        0 <= i < loads.len(),
    ensures
        spec_sum_counts(loads) >= loads[i].active_tasks@.len(),
    decreases loads.len(),
{
    if i == loads.len() - 1 {
        lemma_sum_nonneg(loads.drop_last());
    } else {
        lemma_sum_le(loads.drop_last(), i);
        assert(loads.drop_last()[i] == loads[i]);
    }
}

/// Replacing one load changes the total by the difference of queue lengths.
pub proof fn lemma_sum_update(loads: Seq<CoreLoad>, i: int, l: CoreLoad)
    requires
        0 <= i < loads.len(),
    ensures
        spec_sum_counts(loads.update(i, l)) == spec_sum_counts(loads) + l.active_tasks@.len()
            - loads[i].active_tasks@.len(),
    decreases loads.len(),
{
    let upd = loads.update(i, l);
    if i == loads.len() - 1 {
        assert(upd.drop_last() =~= loads.drop_last());
        assert(upd.last() == l);
    } else {
        assert(upd.drop_last() =~= loads.drop_last().update(i, l));
        lemma_sum_update(loads.drop_last(), i, l);
        assert(upd.last() == loads.last());
        assert(loads.drop_last()[i] == loads[i]);
    }
}

/// With unique task ids, an occurrence is the chosen location.
pub proof fn lemma_task_location_is(loads: Seq<CoreLoad>, task_id: u32, i: int, a: int)
    requires
        spec_tasks_unique(loads),
        0 <= i < loads.len(),
        0 <= a < loads[i].active_tasks@.len(),
        loads[i].active_tasks@[a].task_id == task_id,
    ensures
        spec_has_task(loads, task_id),
        spec_task_location(loads, task_id) == (i, a),
{
    assert(spec_has_task(loads, task_id));
    let (ci, ca) = spec_task_location(loads, task_id);
    assert(0 <= ci < loads.len() && 0 <= ca < loads[ci].active_tasks@.len()
        && loads[ci].active_tasks@[ca].task_id == task_id);
    if ci != i || ca != a {
        assert(loads[ci].active_tasks@[ca].task_id != loads[i].active_tasks@[a].task_id);
    }
}

/// The scoring weight that the policy mode puts on P-core preference.
pub open spec fn spec_mode_factor(mode: PolicyMode) -> int {
    match mode {
        PolicyMode::Performance => 1000,
        PolicyMode::Balanced => 700,
        PolicyMode::PowerSaver => 300,
        PolicyMode::Custom => 1000,
    }
}

/// The effective P-core bias: preference scaled by the mode factor.
pub open spec fn spec_p_core_bias(config: SchedulerConfig, mode: PolicyMode) -> int {
    config.p_core_preference * spec_mode_factor(mode) / 1000
}

/// The placement score of a core for a task, in thousandths.  Higher is
/// better; the load-balancing penalty can push it negative.
pub open spec fn spec_score(
    l: CoreLoad,
    p: TaskProfile,
    mode: PolicyMode,
    config: SchedulerConfig,
) -> int {
    let bias = spec_p_core_bias(config, mode);
    let base = match l.core_type {
        CoreType::Performance => bias * (1000 - l.utilization) / 1000 + if p.cpu_intensity > 700 {
            300int
        } else {
            0int
        },
        CoreType::Efficiency => (1000 - bias) * (1000 - l.utilization) / 1000 + if p.io_intensity
            > 700 {
            300int
        } else {
            0int
        },
    };
    let efficiency_bonus = if mode == PolicyMode::PowerSaver && l.core_type
        == CoreType::Efficiency {
        config.power_efficiency as int
    } else {
        0int
    };
    base - 100 * (l.task_count as int) + efficiency_bonus
}

/// The first index among the first `n` loads with the maximal score.
pub open spec fn spec_best_prefix(
    loads: Seq<CoreLoad>,
    p: TaskProfile,
    mode: PolicyMode,
    config: SchedulerConfig,
    n: int,
) -> int
    decreases n,
{
    if n <= 1 {
        0
    } else {
        let b = spec_best_prefix(loads, p, mode, config, n - 1);
        if spec_score(loads[n - 1], p, mode, config) > spec_score(loads[b], p, mode, config) {
            n - 1
        } else {
            b
        }
    }
}

/// The first index with the maximal score over all loads; ties go to the
/// earliest registered core, i.e. the lowest core id.
pub open spec fn spec_best_index(
    loads: Seq<CoreLoad>,
    p: TaskProfile,
    mode: PolicyMode,
    config: SchedulerConfig,
) -> int {
    spec_best_prefix(loads, p, mode, config, loads.len() as int)
}

/// The best prefix index stays in range.
pub proof fn lemma_best_prefix_in_range(
    loads: Seq<CoreLoad>,
    p: TaskProfile,
    mode: PolicyMode,
    config: SchedulerConfig,
    n: int,
)
    requires
        1 <= n,
    ensures
        0 <= spec_best_prefix(loads, p, mode, config, n) < n,
    decreases n,
{
    if n > 1 {
        lemma_best_prefix_in_range(loads, p, mode, config, n - 1);
    }
}

/// The migration rule: a task leaves a P-core when it turned I/O-bound,
/// and leaves an E-core when it turned CPU-bound.
pub open spec fn spec_should_migrate(core_type: CoreType, p: TaskProfile) -> bool {
    match core_type {
        CoreType::Performance => p.cpu_intensity < 300 && p.io_intensity > 500,
        CoreType::Efficiency => p.cpu_intensity > 700 && p.io_intensity < 300,
    }
}

/// A load after a task was appended to it.
pub open spec fn spec_load_after_push(post: CoreLoad, pre: CoreLoad, t: TaskProfile) -> bool {
    &&& post.core_id == pre.core_id
    &&& post.core_type == pre.core_type
    &&& post.utilization == pre.utilization
    &&& post.task_count == pre.task_count + 1
    &&& post.active_tasks@ == pre.active_tasks@.push(t)
}

/// A load after the task at queue index `a` was removed.
pub open spec fn spec_load_after_remove(post: CoreLoad, pre: CoreLoad, a: int) -> bool {
    &&& post.core_id == pre.core_id
    &&& post.core_type == pre.core_type
    &&& post.utilization == pre.utilization
    &&& post.task_count == pre.task_count - 1
    &&& post.active_tasks@ == pre.active_tasks@.remove(a)
}

/// A load after the task at queue index `a` was replaced.
pub open spec fn spec_load_after_set(post: CoreLoad, pre: CoreLoad, a: int, t: TaskProfile) -> bool {
    &&& post.core_id == pre.core_id
    &&& post.core_type == pre.core_type
    &&& post.utilization == pre.utilization
    &&& post.task_count == pre.task_count
    &&& post.active_tasks@ == pre.active_tasks@.update(a, t)
}

/// All loads except index `i` agree.
pub open spec fn spec_loads_eq_except(a: Seq<CoreLoad>, b: Seq<CoreLoad>, i: int) -> bool {
    a.len() == b.len() && forall|k: int| 0 <= k < a.len() && k != i ==> a[k] == b[k]
}

/// All loads except indexes `i` and `j` agree.
pub open spec fn spec_loads_eq_except2(a: Seq<CoreLoad>, b: Seq<CoreLoad>, i: int, j: int) -> bool {
    a.len() == b.len() && forall|k: int| 0 <= k < a.len() && k != i && k != j ==> a[k] == b[k]
}

impl HybridScheduler {
    /// Build the scheduler over a topology: one empty core load per
    /// distinct core id, in first-appearance order.  Registration is
    /// idempotent, so the two thread entries of a P-core yield one load.
    pub fn init(topology: &Vec<CoreTopology>) -> (s: HybridScheduler)
        ensures
            s.wf(),
            s.initialized,
            s.total_tasks == 0,
            s.scheduled@ == 0,
            s.completed@ == 0,
            s.config == (SchedulerConfig {
                migration_threshold: 200,
                p_core_preference: 700,
                power_efficiency: 500,
            }),
            s.core_loads@.len() == spec_distinct_cores(topology@).len(),
            forall|k: int|
                0 <= k < s.core_loads@.len() ==> {
                    &&& (#[trigger] s.core_loads@[k]).core_id == spec_distinct_cores(topology@)[k].core_id as u32
                    &&& s.core_loads@[k].core_type == spec_distinct_cores(topology@)[k].core_type
                    &&& s.core_loads@[k].utilization == 0
                    &&& s.core_loads@[k].task_count == 0
                    &&& s.core_loads@[k].active_tasks@.len() == 0
                },
    {
        let mut core_loads: Vec<CoreLoad> = Vec::new();
        let mut i: usize = 0;
        while i < topology.len()
            invariant
                i <= topology@.len(),
                core_loads@.len() == spec_distinct_cores(topology@.subrange(0, i as int)).len(),
                forall|k: int|
                    0 <= k < core_loads@.len() ==> {
                        &&& (#[trigger] core_loads@[k]).core_id == spec_distinct_cores(
                            topology@.subrange(0, i as int),
                        )[k].core_id as u32
                        &&& core_loads@[k].core_type == spec_distinct_cores(
                            topology@.subrange(0, i as int),
                        )[k].core_type
                        &&& core_loads@[k].utilization == 0
                        &&& core_loads@[k].task_count == 0
                        &&& core_loads@[k].active_tasks@.len() == 0
                    },
                forall|x: int, y: int|
                    0 <= x < y < core_loads@.len() ==> (#[trigger] core_loads@[x]).core_id != (
                    #[trigger] core_loads@[y]).core_id,
            decreases topology@.len() - i as int,
        {
            let entry = topology[i];
            let ghost pre_distinct = spec_distinct_cores(topology@.subrange(0, i as int));
            let found = contains_core(&core_loads, entry.core_id as u32);
            proof {
                let sub1 = topology@.subrange(0, i as int + 1);
                assert(sub1.drop_last() =~= topology@.subrange(0, i as int));
                assert(sub1.last() == entry);
                // presence in the loads mirrors presence in the distinct prefix
                if found {
                    let x = choose|x: int|
                        0 <= x < core_loads@.len() && (#[trigger] core_loads@[x]).core_id
                            == entry.core_id as u32;
                    assert(pre_distinct[x].core_id == entry.core_id);
                    assert(spec_seq_has_core_id(pre_distinct, entry.core_id));
                    assert(spec_distinct_cores(sub1) == pre_distinct);
                } else {
                    if spec_seq_has_core_id(pre_distinct, entry.core_id) {
                        let x = choose|x: int|
                            0 <= x < pre_distinct.len() && (#[trigger] pre_distinct[x]).core_id
                                == entry.core_id;
                        assert(core_loads@[x].core_id == entry.core_id as u32);
                    }
                    assert(spec_distinct_cores(sub1) == pre_distinct.push(entry));
                }
            }
            if !found {
                core_loads.push(
                    CoreLoad {
                        core_id: entry.core_id as u32,
                        core_type: entry.core_type,
                        utilization: 0,
                        task_count: 0,
                        active_tasks: Vec::new(),
                    },
                );
            }
            i = i + 1;
        }
        proof {
            assert(topology@.subrange(0, topology@.len() as int) =~= topology@);
        }
        let s = HybridScheduler {
            initialized: true,
            total_tasks: 0,
            core_loads,
            config: SchedulerConfig {
                migration_threshold: 200,
                p_core_preference: 700,
                power_efficiency: 500,
            },
            scheduled: Ghost(0nat),
            completed: Ghost(0nat),
        };
        proof {
            lemma_sum_empty_loads(s.core_loads@);
        }
        s
    }

    /// Find the location of a task by id.
    fn find_task(&self, task_id: u32) -> (r: Option<(usize, usize)>)
        requires
            self.wf(),
        ensures
            match r {
                Some(loc) => {
                    &&& (loc.0 as int, loc.1 as int) == spec_task_location(
                        self.core_loads@,
                        task_id,
                    )
                    &&& loc.0 < self.core_loads@.len()
                    &&& loc.1 < self.core_loads@[loc.0 as int].active_tasks@.len()
                    &&& self.core_loads@[loc.0 as int].active_tasks@[loc.1 as int].task_id
                        == task_id
                    &&& spec_has_task(self.core_loads@, task_id)
                },
                None => !spec_has_task(self.core_loads@, task_id),
            },
    {
        let mut i: usize = 0;
        while i < self.core_loads.len()
            invariant
                self.wf(),
                i <= self.core_loads@.len(),
                forall|x: int, y: int|
                    0 <= x < i as int && 0 <= y < self.core_loads@[x].active_tasks@.len() ==> (
                    #[trigger] self.core_loads@[x].active_tasks@[y]).task_id != task_id,
            decreases self.core_loads@.len() - i as int,
        {
            let load = &self.core_loads[i];
            let mut a: usize = 0;
            while a < load.active_tasks.len()
                invariant
                    self.wf(),
                    i < self.core_loads@.len(),
                    load == self.core_loads@[i as int],
                    a <= load.active_tasks@.len(),
                    forall|y: int|
                        0 <= y < a as int ==> (#[trigger] load.active_tasks@[y]).task_id != task_id,
                decreases load.active_tasks@.len() - a as int,
            {
                if load.active_tasks[a].task_id == task_id {
                    proof {
                        lemma_task_location_is(self.core_loads@, task_id, i as int, a as int);
                    }
                    return Some((i, a));
                }
                a = a + 1;
            }
            i = i + 1;
        }
        proof {
            if spec_has_task(self.core_loads@, task_id) {
                let (ci, ca) = spec_task_location(self.core_loads@, task_id);
                assert(self.core_loads@[ci].active_tasks@[ca].task_id != task_id);
            }
        }
        None
    }

    /// The exec mirror of the mode factor.
    fn mode_factor(mode: PolicyMode) -> (f: u32)
        ensures
            f as int == spec_mode_factor(mode),
            300 <= f <= 1000,
    {
        match mode {
            PolicyMode::Performance => 1000,
            PolicyMode::Balanced => 700,
            PolicyMode::PowerSaver => 300,
            PolicyMode::Custom => 1000,
        }
    }

    /// Score one core for a task.
    fn score_core(load: &CoreLoad, profile: &TaskProfile, mode: PolicyMode, config: &SchedulerConfig) -> (s:
        i64)
        requires
            spec_load_wf(*load),
            spec_config_valid(*config),
        ensures
            s as int == spec_score(*load, *profile, mode, *config),
    {
        let factor = Self::mode_factor(mode) as u64;
        let pref = config.p_core_preference as u64;
        proof {
            assert(pref * factor <= 1000 * 1000) by (nonlinear_arith)
                requires
                    pref <= 1000,
                    factor <= 1000,
            ;
        }
        let bias = pref * factor / 1000;
        let headroom = (1000 - load.utilization) as u64;
        proof {
            assert(bias * headroom <= 1000 * 1000) by (nonlinear_arith)
                requires
                    bias <= 1000,
                    headroom <= 1000,
            ;
            assert((1000 - bias) * headroom <= 1000 * 1000) by (nonlinear_arith)
                requires
                    bias <= 1000,
                    headroom <= 1000,
            ;
        }
        let base: u64 = match load.core_type {
            CoreType::Performance => {
                bias * headroom / 1000 + (
                if profile.cpu_intensity > 700 {
                    300
                } else {
                    0
                })
            },
            CoreType::Efficiency => {
                (1000 - bias) * headroom / 1000 + (
                if profile.io_intensity > 700 {
                    300
                } else {
                    0
                })
            },
        };
        let efficiency_bonus: u64 = if mode == PolicyMode::PowerSaver && match load.core_type {
            CoreType::Efficiency => true,
            CoreType::Performance => false,
        } {
            config.power_efficiency as u64
        } else {
            0
        };
        let s: i64 = (base + efficiency_bonus) as i64 - 100i64 * (load.task_count as i64);
        s
    }

    /// Pick the best-scoring core for a task; `None` only when no core is
    /// registered.
    fn select_target_core(&self, profile: &TaskProfile, mode: PolicyMode) -> (r: Option<usize>)
        requires
            self.wf(),
        ensures
            match r {
                Some(bi) => self.core_loads@.len() > 0 && bi < self.core_loads@.len() && bi as int
                    == spec_best_index(self.core_loads@, *profile, mode, self.config),
                None => self.core_loads@.len() == 0,
            },
    {
        if self.core_loads.len() == 0 {
            return None;
        }
        let mut best: usize = 0;
        let mut best_score = Self::score_core(&self.core_loads[0], profile, mode, &self.config);
        let mut i: usize = 1;
        while i < self.core_loads.len()
            invariant
                self.wf(),
                self.core_loads@.len() > 0,
                1 <= i <= self.core_loads@.len(),
                best < i,
                best as int == spec_best_prefix(self.core_loads@, *profile, mode, self.config, i as int),
                best_score as int == spec_score(self.core_loads@[best as int], *profile, mode, self.config),
            decreases self.core_loads@.len() - i as int,
        {
            let s = Self::score_core(&self.core_loads[i], profile, mode, &self.config);
            if s > best_score {
                best = i;
                best_score = s;
            }
            i = i + 1;
        }
        Some(best)
    }
}

impl HybridScheduler {
    /// Place a new task on the best-scoring core.  The task id must be
    /// fresh: a second `schedule_task` with the same id is rejected with
    /// `DuplicateTask` and leaves the scheduler unchanged.
    pub fn schedule_task(&mut self, profile: TaskProfile, mode: PolicyMode) -> (r: Result<
        u32,
        HalError,
    >)
        requires
            old(self).wf(),
            spec_profile_valid(profile),
            old(self).total_tasks < u32::MAX,
        ensures
            final(self).wf(),
            final(self).initialized == old(self).initialized,
            final(self).config == old(self).config,
            !old(self).initialized ==> r == Err::<u32, HalError>(HalError::NotInitialized) && *final(self) == *old(self),
            old(self).initialized && spec_has_task(old(self).core_loads@, profile.task_id) ==> r
                == Err::<u32, HalError>(HalError::DuplicateTask) && *final(self) == *old(self),
            old(self).initialized && !spec_has_task(old(self).core_loads@, profile.task_id) && old(self).core_loads@.len() == 0 ==> r == Err::<u32, HalError>(HalError::CoreNotFound) && *final(self) == *old(self),
            old(self).initialized && !spec_has_task(old(self).core_loads@, profile.task_id) && old(self).core_loads@.len() > 0 ==> {
                let bi = spec_best_index(old(self).core_loads@, profile, mode, old(self).config);
                let placed = (TaskProfile {
                    last_core: old(self).core_loads@[bi].core_id,
                    ..profile
                });
                &&& r == Ok::<u32, HalError>(old(self).core_loads@[bi].core_id)
                &&& spec_loads_eq_except(final(self).core_loads@, old(self).core_loads@, bi)
                &&& spec_load_after_push(
                    final(self).core_loads@[bi],
                    old(self).core_loads@[bi],
                    placed,
                )
                &&& final(self).total_tasks == old(self).total_tasks + 1
                &&& final(self).scheduled@ == old(self).scheduled@ + 1
                &&& final(self).completed@ == old(self).completed@
                &&& spec_has_task(final(self).core_loads@, profile.task_id)
            },
    {
        if !self.initialized {
            return Err(HalError::NotInitialized);
        }
        match self.find_task(profile.task_id) {
            Some(_) => Err(HalError::DuplicateTask),
            None => {
                match self.select_target_core(&profile, mode) {
                    None => Err(HalError::CoreNotFound),
                    Some(bi) => {
                        let ghost pre = *self;
                        proof {
                            lemma_sum_le(pre.core_loads@, bi as int);
                            lemma_best_prefix_in_range(
                                pre.core_loads@,
                                profile,
                                mode,
                                pre.config,
                                pre.core_loads@.len() as int,
                            );
                        }
                        let core_id = self.core_loads[bi].core_id;
                        let placed = TaskProfile { last_core: core_id, ..profile };
                        let load = &mut self.core_loads[bi];
                        load.active_tasks.push(placed);
                        load.task_count = load.task_count + 1;
                        self.total_tasks = self.total_tasks + 1;
                        self.scheduled = Ghost(self.scheduled@ + 1);
                        proof {
                            let posts = self.core_loads@;
                            let pres = pre.core_loads@;
                            assert(posts == pres.update(bi as int, posts[bi as int]));
                            lemma_sum_update(pres, bi as int, posts[bi as int]);
                            let n = pres[bi as int].active_tasks@.len() as int;
                            assert(posts[bi as int].active_tasks@[n] == placed);
                            assert forall|i: int, a: int, j: int, b: int|
                                0 <= i < posts.len() && 0 <= a
                                    < posts[i].active_tasks@.len() && 0 <= j < posts.len() && 0
                                    <= b < posts[j].active_tasks@.len() && (i != j || a
                                    != b) implies (#[trigger] posts[i].active_tasks@[a]).task_id
                                != (#[trigger] posts[j].active_tasks@[b]).task_id by {
                                if i == bi as int && a == n {
                                    assert(posts[j].active_tasks@[b]
                                        == pres[j].active_tasks@[b]);
                                    assert(pres[j].active_tasks@[b].task_id != profile.task_id);
                                } else if j == bi as int && b == n {
                                    assert(posts[i].active_tasks@[a]
                                        == pres[i].active_tasks@[a]);
                                    assert(pres[i].active_tasks@[a].task_id != profile.task_id);
                                } else {
                                    assert(posts[i].active_tasks@[a]
                                        == pres[i].active_tasks@[a]);
                                    assert(posts[j].active_tasks@[b]
                                        == pres[j].active_tasks@[b]);
                                }
                            }
                            assert(spec_has_task(posts, profile.task_id));
                            assert(self.wf());
                        }
                        Ok(core_id)
                    },
                }
            },
        }
    }

    /// Remove a completed task from its core load.  An unknown id is a
    /// no-op, not an error.
    pub fn complete_task(&mut self, task_id: u32) -> (r: Result<(), HalError>)
        requires
            old(self).wf(),
        ensures
            final(self).wf(),
            final(self).initialized == old(self).initialized,
            final(self).config == old(self).config,
            !old(self).initialized ==> r == Err::<(), HalError>(HalError::NotInitialized) && *final(self) == *old(self),
            old(self).initialized && !spec_has_task(old(self).core_loads@, task_id) ==> r == Ok::<
                (),
                HalError,
            >(()) && *final(self) == *old(self),
            old(self).initialized && spec_has_task(old(self).core_loads@, task_id) ==> {
                let loc = spec_task_location(old(self).core_loads@, task_id);
                &&& r == Ok::<(), HalError>(())
                &&& spec_loads_eq_except(final(self).core_loads@, old(self).core_loads@, loc.0)
                &&& spec_load_after_remove(
                    final(self).core_loads@[loc.0],
                    old(self).core_loads@[loc.0],
                    loc.1,
                )
                &&& final(self).total_tasks == old(self).total_tasks - 1
                &&& final(self).scheduled@ == old(self).scheduled@
                &&& final(self).completed@ == old(self).completed@ + 1
                &&& !spec_has_task(final(self).core_loads@, task_id)
            },
    {
        if !self.initialized {
            return Err(HalError::NotInitialized);
        }
        match self.find_task(task_id) {
            None => Ok(()),
            Some((i, a)) => {
                let ghost pre = *self;
                proof {
                    lemma_sum_le(pre.core_loads@, i as int);
                }
                let load = &mut self.core_loads[i];
                load.active_tasks.remove(a);
                load.task_count = load.task_count - 1;
                self.total_tasks = self.total_tasks - 1;
                self.completed = Ghost(self.completed@ + 1);
                proof {
                    let posts = self.core_loads@;
                    let pres = pre.core_loads@;
                    let pre_tasks = pres[i as int].active_tasks@;
                    assert(posts == pres.update(i as int, posts[i as int]));
                    lemma_sum_update(pres, i as int, posts[i as int]);
                    pre_tasks.remove_ensures(a as int);
                    assert(spec_load_wf(posts[i as int]));
                    assert forall|x: int, c: int, y: int, d: int|
                        0 <= x < posts.len() && 0 <= c < posts[x].active_tasks@.len() && 0 <= y
                            < posts.len() && 0 <= d < posts[y].active_tasks@.len() && (x != y || c
                            != d) implies (#[trigger] posts[x].active_tasks@[c]).task_id != (
                        #[trigger] posts[y].active_tasks@[d]).task_id by {
                        let c0: int = if x == i as int && c >= a as int {
                            c + 1
                        } else {
                            c
                        };
                        let d0: int = if y == i as int && d >= a as int {
                            d + 1
                        } else {
                            d
                        };
                        assert(posts[x].active_tasks@[c] == pres[x].active_tasks@[c0]);
                        assert(posts[y].active_tasks@[d] == pres[y].active_tasks@[d0]);
                    }
                    assert forall|y: int, d: int|
                        0 <= y < posts.len() && 0 <= d
                            < posts[y].active_tasks@.len() implies (
                    #[trigger] posts[y].active_tasks@[d]).task_id != task_id by {
                        let d0: int = if y == i as int && d >= a as int {
                            d + 1
                        } else {
                            d
                        };
                        assert(posts[y].active_tasks@[d] == pres[y].active_tasks@[d0]);
                        if y == i as int && d0 == a as int {
                        } else {
                            assert(pres[y].active_tasks@[d0].task_id
                                != pres[i as int].active_tasks@[a as int].task_id);
                        }
                    }
                    assert(!spec_has_task(posts, task_id));
                    assert(self.wf());
                }
                Ok(())
            },
        }
    }

    /// Replace a task's stored profile and re-evaluate its placement.
    ///
    /// A known id keeps its residence unless the migration rule fires and a
    /// different core scores best, in which case the task moves there.  An
    /// unknown id is inserted like a fresh `schedule_task` (an upsert); the
    /// stored profile always carries the id given here.
    pub fn update_task(&mut self, task_id: u32, profile: TaskProfile, mode: PolicyMode) -> (r:
        Result<(), HalError>)
        requires
            old(self).wf(),
            spec_profile_valid(profile),
            old(self).total_tasks < u32::MAX,
        ensures
            final(self).wf(),
            final(self).initialized == old(self).initialized,
            final(self).config == old(self).config,
            !old(self).initialized ==> r == Err::<(), HalError>(HalError::NotInitialized) && *final(self) == *old(self),
            old(self).initialized && !spec_has_task(old(self).core_loads@, task_id) && old(self).core_loads@.len() == 0 ==> r == Err::<(), HalError>(HalError::CoreNotFound) && *final(self) == *old(self),
            old(self).initialized && !spec_has_task(old(self).core_loads@, task_id) && old(self).core_loads@.len() > 0 ==> {
                let keyed = (TaskProfile { task_id, ..profile });
                let bi = spec_best_index(old(self).core_loads@, keyed, mode, old(self).config);
                let placed = (TaskProfile {
                    last_core: old(self).core_loads@[bi].core_id,
                    ..keyed
                });
                &&& r == Ok::<(), HalError>(())
                &&& spec_loads_eq_except(final(self).core_loads@, old(self).core_loads@, bi)
                &&& spec_load_after_push(
                    final(self).core_loads@[bi],
                    old(self).core_loads@[bi],
                    placed,
                )
                &&& final(self).total_tasks == old(self).total_tasks + 1
                &&& final(self).scheduled@ == old(self).scheduled@ + 1
                &&& final(self).completed@ == old(self).completed@
            },
            old(self).initialized && spec_has_task(old(self).core_loads@, task_id) ==> {
                let loc = spec_task_location(old(self).core_loads@, task_id);
                let upd = (TaskProfile {
                    task_id,
                    last_core: old(self).core_loads@[loc.0].core_id,
                    ..profile
                });
                let bi = spec_best_index(old(self).core_loads@, upd, mode, old(self).config);
                let migrating = spec_should_migrate(old(self).core_loads@[loc.0].core_type, profile)
                    && old(self).core_loads@[bi].core_id != old(self).core_loads@[loc.0].core_id;
                let moved = (TaskProfile { last_core: old(self).core_loads@[bi].core_id, ..upd });
                &&& r == Ok::<(), HalError>(())
                &&& final(self).total_tasks == old(self).total_tasks
                &&& final(self).scheduled@ == old(self).scheduled@
                &&& final(self).completed@ == old(self).completed@
                &&& !migrating ==> spec_loads_eq_except(
                    final(self).core_loads@,
                    old(self).core_loads@,
                    loc.0,
                ) && spec_load_after_set(
                    final(self).core_loads@[loc.0],
                    old(self).core_loads@[loc.0],
                    loc.1,
                    upd,
                )
                &&& migrating ==> spec_loads_eq_except2(
                    final(self).core_loads@,
                    old(self).core_loads@,
                    loc.0,
                    bi,
                ) && spec_load_after_remove(
                    final(self).core_loads@[loc.0],
                    old(self).core_loads@[loc.0],
                    loc.1,
                ) && spec_load_after_push(
                    final(self).core_loads@[bi],
                    old(self).core_loads@[bi],
                    moved,
                )
            },
    {
        if !self.initialized {
            return Err(HalError::NotInitialized);
        }
        match self.find_task(task_id) {
            None => {
                match self.schedule_task(TaskProfile { task_id, ..profile }, mode) {
                    Ok(_) => Ok(()),
                    Err(e) => Err(e),
                }
            },
            Some((i, a)) => {
                let cur_core_id = self.core_loads[i].core_id;
                let cur_core_type = self.core_loads[i].core_type;
                let upd = TaskProfile { task_id, last_core: cur_core_id, ..profile };
                let migrate_wanted = match cur_core_type {
                    CoreType::Performance => profile.cpu_intensity < 300 && profile.io_intensity
                        > 500,
                    CoreType::Efficiency => profile.cpu_intensity > 700 && profile.io_intensity
                        < 300,
                };
                let target = match self.select_target_core(&upd, mode) {
                    Some(bi) => bi,
                    None => {
                        proof {
                            assert(false);
                        }
                        return Err(HalError::CoreNotFound);
                    },
                };
                let target_core_id = self.core_loads[target].core_id;
                if migrate_wanted && target_core_id != cur_core_id {
                    let ghost pre = *self;
                    proof {
                        assert(target as int != i as int);
                        lemma_sum_le(pre.core_loads@, i as int);
                        lemma_best_prefix_in_range(
                            pre.core_loads@,
                            upd,
                            mode,
                            pre.config,
                            pre.core_loads@.len() as int,
                        );
                    }
                    let load = &mut self.core_loads[i];
                    load.active_tasks.remove(a);
                    load.task_count = load.task_count - 1;
                    let ghost mid = *self;
                    proof {
                        lemma_sum_update(pre.core_loads@, i as int, mid.core_loads@[i as int]);
                        lemma_sum_le(mid.core_loads@, target as int);
                        assert(mid.core_loads@[target as int] == pre.core_loads@[target as int]);
                    }
                    let moved = TaskProfile { last_core: target_core_id, ..upd };
                    let load2 = &mut self.core_loads[target];
                    load2.active_tasks.push(moved);
                    load2.task_count = load2.task_count + 1;
                    proof {
                        let posts = self.core_loads@;
                        let pres = pre.core_loads@;
                        let mids = mid.core_loads@;
                        let pre_tasks = pres[i as int].active_tasks@;
                        pre_tasks.remove_ensures(a as int);
                        assert(posts == mids.update(target as int, posts[target as int]));
                        lemma_sum_update(mids, target as int, posts[target as int]);
                        let n = pres[target as int].active_tasks@.len() as int;
                        assert(posts[target as int].active_tasks@[n] == moved);
                        assert(spec_load_wf(posts[i as int]));
                        assert(spec_load_wf(posts[target as int]));
                        assert forall|x: int, c: int, y: int, d: int|
                            0 <= x < posts.len() && 0 <= c < posts[x].active_tasks@.len() && 0 <= y
                                < posts.len() && 0 <= d < posts[y].active_tasks@.len() && (x != y
                                || c != d) implies (#[trigger] posts[x].active_tasks@[c]).task_id
                            != (#[trigger] posts[y].active_tasks@[d]).task_id by {
                            lemma_moved_pair_distinct(
                                pres,
                                i as int,
                                a as int,
                                target as int,
                                moved,
                                posts,
                                x,
                                c,
                                y,
                                d,
                            );
                        }
                        assert(self.wf());
                        lemma_task_location_is(pres, task_id, i as int, a as int);
                    }
                    Ok(())
                } else {
                    let ghost pre = *self;
                    let load = &mut self.core_loads[i];
                    load.active_tasks.set(a, upd);
                    proof {
                        let posts = self.core_loads@;
                        let pres = pre.core_loads@;
                        assert(posts == pres.update(i as int, posts[i as int]));
                        lemma_sum_update(pres, i as int, posts[i as int]);
                        assert(spec_load_wf(posts[i as int]));
                        assert forall|x: int, c: int, y: int, d: int|
                            0 <= x < posts.len() && 0 <= c < posts[x].active_tasks@.len() && 0 <= y
                                < posts.len() && 0 <= d < posts[y].active_tasks@.len() && (x != y
                                || c != d) implies (#[trigger] posts[x].active_tasks@[c]).task_id
                            != (#[trigger] posts[y].active_tasks@[d]).task_id by {
                            assert(posts[x].active_tasks@[c].task_id
                                == pres[x].active_tasks@[c].task_id);
                            assert(posts[y].active_tasks@[d].task_id
                                == pres[y].active_tasks@[d].task_id);
                        }
                        assert(self.wf());
                        lemma_task_location_is(pres, task_id, i as int, a as int);
                    }
                    Ok(())
                }
            },
        }
    }

    /// Snapshot of `(core_id, utilization)` for every registered core, in
    /// registration order.
    pub fn get_core_loads(&self) -> (r: Result<Vec<(u32, u32)>, HalError>)
        ensures
            !self.initialized ==> r == Err::<Vec<(u32, u32)>, HalError>(HalError::NotInitialized),
            self.initialized ==> match r {
                Ok(v) => v@.len() == self.core_loads@.len() && forall|k: int|
                    0 <= k < v@.len() ==> #[trigger] v@[k] == (
                    self.core_loads@[k].core_id,
                    self.core_loads@[k].utilization,
                ),
                Err(_) => false,
            },
    {
        if !self.initialized {
            return Err(HalError::NotInitialized);
        }
        let mut v: Vec<(u32, u32)> = Vec::new();
        let mut i: usize = 0;
        while i < self.core_loads.len()
            invariant
                i <= self.core_loads@.len(),
                v@.len() == i as int,
                forall|k: int|
                    0 <= k < i as int ==> #[trigger] v@[k] == (
                    self.core_loads@[k].core_id,
                    self.core_loads@[k].utilization,
                ),
            decreases self.core_loads@.len() - i as int,
        {
            let load = &self.core_loads[i];
            v.push((load.core_id, load.utilization));
            i = i + 1;
        }
        Ok(v)
    }
}

/// After a migration (remove at `(i, a)`, push `moved` onto `target`), any
/// two distinct occurrences still carry distinct task ids.
proof fn lemma_moved_pair_distinct(
    pres: Seq<CoreLoad>,
    i: int,
    a: int,
    target: int,
    moved: TaskProfile,
    posts: Seq<CoreLoad>,
    x: int,
    c: int,
    y: int,
    d: int,
)
    requires
        spec_tasks_unique(pres),
        0 <= i < pres.len(),
        0 <= a < pres[i].active_tasks@.len(),
        0 <= target < pres.len(),
        target != i,
        moved.task_id == pres[i].active_tasks@[a].task_id,
        posts.len() == pres.len(),
        forall|k: int| 0 <= k < posts.len() && k != i && k != target ==> #[trigger] posts[k] == pres[k],
        posts[i].active_tasks@ == pres[i].active_tasks@.remove(a),
        posts[target].active_tasks@ == pres[target].active_tasks@.push(moved),
        0 <= x < posts.len(),
        0 <= c < posts[x].active_tasks@.len(),
        0 <= y < posts.len(),
        0 <= d < posts[y].active_tasks@.len(),
        x != y || c != d,
    ensures
        posts[x].active_tasks@[c].task_id != posts[y].active_tasks@[d].task_id,
{
    pres[i].active_tasks@.remove_ensures(a);
    let pn = pres[target].active_tasks@.len() as int;
    // map each post occurrence to the pre occurrence it came from
    let x0: int = x;
    let c0: int = if x == i && c >= a {
        c + 1
    } else {
        c
    };
    let y0: int = y;
    let d0: int = if y == i && d >= a {
        d + 1
    } else {
        d
    };
    if x == target && c == pn {
        // the moved task: its pre occurrence was (i, a)
        assert(posts[x].active_tasks@[c] == moved);
        if y == target && d == pn {
            assert(false);
        } else {
            assert(posts[y].active_tasks@[d] == pres[y0].active_tasks@[d0]);
            assert((y0 != i || d0 != a) ==> pres[y0].active_tasks@[d0].task_id
                != pres[i].active_tasks@[a].task_id);
            assert(y0 == i && d0 == a ==> false);
        }
    } else if y == target && d == pn {
        assert(posts[y].active_tasks@[d] == moved);
        assert(posts[x].active_tasks@[c] == pres[x0].active_tasks@[c0]);
        assert((x0 != i || c0 != a) ==> pres[x0].active_tasks@[c0].task_id
            != pres[i].active_tasks@[a].task_id);
        assert(x0 == i && c0 == a ==> false);
    } else {
        assert(posts[x].active_tasks@[c] == pres[x0].active_tasks@[c0]);
        assert(posts[y].active_tasks@[d] == pres[y0].active_tasks@[d0]);
        assert(x0 != y0 || c0 != d0);
    }
}

/// Task accounting: in every well-formed scheduler state, the per-core
/// task counts sum to the number of tasks scheduled and not yet
/// completed.
pub proof fn lemma_task_accounting(s: HybridScheduler)
    requires
        s.wf(),
    ensures
        spec_sum_counts(s.core_loads@) == s.scheduled@ - s.completed@,
        s.total_tasks as int == s.scheduled@ - s.completed@,
        forall|i: int|
            0 <= i < s.core_loads@.len() ==> (#[trigger] s.core_loads@[i]).task_count as int
                == s.core_loads@[i].active_tasks@.len(),
{
}

/// Whether some registered load carries this core id.
fn contains_core(core_loads: &Vec<CoreLoad>, core_id: u32) -> (r: bool)
    ensures
        r == exists|x: int|
            0 <= x < core_loads@.len() && (#[trigger] core_loads@[x]).core_id == core_id,
{
    let mut k: usize = 0;
    while k < core_loads.len()
        invariant
            k <= core_loads@.len(),
            forall|x: int| 0 <= x < k as int ==> (#[trigger] core_loads@[x]).core_id != core_id,
        decreases core_loads@.len() - k as int,
    {
        if core_loads[k].core_id == core_id {
            return true;
        }
        k = k + 1;
    }
    false
}

/// Whether some topology entry carries this core id.
pub open spec fn spec_seq_has_core_id(s: Seq<CoreTopology>, core_id: u8) -> bool {
    exists|i: int| 0 <= i < s.len() && (#[trigger] s[i]).core_id == core_id
}

/// The distinct cores of a topology, by core id, in first-appearance order.
pub open spec fn spec_distinct_cores(t: Seq<CoreTopology>) -> Seq<CoreTopology>
    decreases t.len(),
{
    if t.len() == 0 {
        Seq::empty()
    } else {
        let prefix = spec_distinct_cores(t.drop_last());
        if spec_seq_has_core_id(prefix, t.last().core_id) {
            prefix
        } else {
            prefix.push(t.last())
        }
    }
}

/// A sequence of empty loads sums to zero.
pub proof fn lemma_sum_empty_loads(loads: Seq<CoreLoad>)
    requires
        forall|k: int| 0 <= k < loads.len() ==> (#[trigger] loads[k]).active_tasks@.len() == 0,
    ensures
        spec_sum_counts(loads) == 0,
    decreases loads.len(),
{
    if loads.len() > 0 {
        lemma_sum_empty_loads(loads.drop_last());
    }
}

} // verus!
