use vaelix::cpu_hybrid::{driver, CoreType};
use vaelix::hal::HalError;
use vaelix::policy::PolicyMode;
use vaelix::sched::{HybridScheduler, TaskProfile};

fn profile(task_id: u32, cpu: u32, io: u32) -> TaskProfile {
    TaskProfile {
        task_id,
        priority: 1,
        cpu_intensity: cpu,
        memory_intensity: 0,
        io_intensity: io,
        last_core: 0,
        run_time: 0,
        deadline: None,
    }
}

fn fresh_scheduler() -> HybridScheduler {
    let hw = driver();
    let topology = hw.get_topology();
    HybridScheduler::init(&topology)
}

#[test]
fn init_registers_each_core_once() {
    let s = fresh_scheduler();
    assert_eq!(s.core_loads.len(), 6);
    let ids: Vec<u32> = s.core_loads.iter().map(|l| l.core_id).collect();
    assert_eq!(ids, vec![0, 1, 2, 3, 4, 5]);
    assert!(matches!(s.core_loads[0].core_type, CoreType::Performance));
    assert!(matches!(s.core_loads[1].core_type, CoreType::Performance));
    for load in &s.core_loads[2..] {
        assert!(matches!(load.core_type, CoreType::Efficiency));
        assert_eq!(load.task_count, 0);
    }
}

// A CPU-bound task under Performance mode lands on a Performance core.
#[test]
fn cpu_bound_task_prefers_performance_core() {
    let mut s = fresh_scheduler();
    let core = s.schedule_task(profile(1, 900, 100), PolicyMode::Performance).unwrap();
    assert_eq!(core, 0);
    assert_eq!(s.core_loads[0].task_count, 1);
    assert_eq!(s.core_loads[0].active_tasks[0].last_core, 0);
}

// The same task under PowerSaver mode lands on an Efficiency core.
#[test]
fn power_saver_mode_prefers_efficiency_core() {
    let mut s = fresh_scheduler();
    let core = s.schedule_task(profile(1, 900, 100), PolicyMode::PowerSaver).unwrap();
    assert_eq!(core, 2);
    assert!(matches!(s.core_loads[2].core_type, CoreType::Efficiency));
    assert_eq!(s.core_loads[2].task_count, 1);
}

// A task that turns I/O-bound migrates off its Performance core when a
// better core exists; the source load shrinks and the target grows.
#[test]
fn update_task_migrates_io_bound_task() {
    let mut s = fresh_scheduler();
    let core = s.schedule_task(profile(7, 900, 100), PolicyMode::Performance).unwrap();
    assert_eq!(core, 0);
    s.update_task(7, profile(7, 100, 600), PolicyMode::PowerSaver).unwrap();
    assert_eq!(s.core_loads[0].task_count, 0);
    assert_eq!(s.core_loads[0].active_tasks.len(), 0);
    assert_eq!(s.core_loads[2].task_count, 1);
    assert_eq!(s.core_loads[2].active_tasks[0].task_id, 7);
    assert_eq!(s.core_loads[2].active_tasks[0].last_core, 2);
}

// A task whose profile stays CPU-bound does not move.
#[test]
fn update_task_without_migration_updates_in_place() {
    let mut s = fresh_scheduler();
    s.schedule_task(profile(7, 900, 100), PolicyMode::Performance).unwrap();
    s.update_task(7, profile(7, 800, 100), PolicyMode::Performance).unwrap();
    assert_eq!(s.core_loads[0].task_count, 1);
    assert_eq!(s.core_loads[0].active_tasks[0].cpu_intensity, 800);
    assert_eq!(s.core_loads[0].active_tasks[0].last_core, 0);
}

// update_task on an unknown id inserts the task like schedule_task.
#[test]
fn update_task_upserts_unknown_id() {
    let mut s = fresh_scheduler();
    s.update_task(42, profile(9, 900, 100), PolicyMode::Performance).unwrap();
    assert_eq!(s.total_tasks, 1);
    assert_eq!(s.core_loads[0].active_tasks[0].task_id, 42);
}

// Completing an unknown id is a no-op, not an error.
#[test]
fn complete_task_unknown_id_is_noop() {
    let mut s = fresh_scheduler();
    s.schedule_task(profile(1, 500, 500), PolicyMode::Balanced).unwrap();
    assert_eq!(s.complete_task(999), Ok(()));
    assert_eq!(s.total_tasks, 1);
}

// Scheduling the same task id twice is rejected deterministically.
#[test]
fn duplicate_task_id_is_rejected() {
    let mut s = fresh_scheduler();
    s.schedule_task(profile(5, 500, 500), PolicyMode::Balanced).unwrap();
    assert_eq!(
        s.schedule_task(profile(5, 100, 100), PolicyMode::Balanced),
        Err(HalError::DuplicateTask)
    );
    assert_eq!(
        s.schedule_task(profile(5, 100, 100), PolicyMode::Balanced),
        Err(HalError::DuplicateTask)
    );
    assert_eq!(s.total_tasks, 1);
}

// The per-core task counts always sum to scheduled minus completed.
#[test]
fn task_counts_balance_with_ledger() {
    let mut s = fresh_scheduler();
    for id in 0..10u32 {
        s.schedule_task(profile(id, (id * 100) % 1000, 100), PolicyMode::Balanced).unwrap();
    }
    for id in 0..4u32 {
        s.complete_task(id).unwrap();
    }
    let total: u32 = s.core_loads.iter().map(|l| l.task_count).sum();
    assert_eq!(total, 10 - 4);
    assert_eq!(s.total_tasks, 6);
}

#[test]
fn load_balancing_penalty_spreads_tasks() {
    let mut s = fresh_scheduler();
    // Four equal CPU-bound tasks: after the two P-cores each take one,
    // the penalty moves later tasks onward rather than stacking them all
    // on core 0.
    for id in 0..4u32 {
        s.schedule_task(profile(id, 900, 0), PolicyMode::Performance).unwrap();
    }
    assert!(s.core_loads[0].task_count < 4);
}

#[test]
fn get_core_loads_reports_each_core() {
    let mut s = fresh_scheduler();
    let loads = s.get_core_loads().unwrap();
    assert_eq!(loads.len(), 6);
    for (k, (core_id, utilization)) in loads.iter().enumerate() {
        assert_eq!(*core_id, k as u32);
        assert_eq!(*utilization, 0);
    }
    s.schedule_task(profile(1, 500, 500), PolicyMode::Balanced).unwrap();
    let loads = s.get_core_loads().unwrap();
    assert_eq!(loads.len(), 6);
}
