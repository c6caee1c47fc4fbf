use rustop::cpu::CpuTicks;
use rustop::disks::{DiskData, IoPackage};
use rustop::mem::MemData;
use rustop::network::NetworkData;
use rustop::processes::ProcessRaw;
use rustop::store::{Sample, TimeWindowedSeries};
use rustop::widgets::{push_if_valid, set_if_valid, DataState, Harvest, HarvestError};

fn all_failed() -> Harvest {
    Harvest {
        network: Err(HarvestError::OsCall),
        cpu: Err(HarvestError::OsCall),
        memory: Err(HarvestError::OsCall),
        swap: Err(HarvestError::OsCall),
        processes: Err(HarvestError::OsCall),
        disks: Err(HarvestError::OsCall),
        io: Err(HarvestError::OsCall),
        physical_io: Err(HarvestError::OsCall),
        temperature: Err(HarvestError::OsCall),
    }
}

fn mem(total: u64, used: u64) -> MemData {
    MemData {
        total_bytes: total,
        used_bytes: used,
    }
}

#[test]
fn prune_removes_only_stale_samples() {
    let mut series: TimeWindowedSeries<u64> = TimeWindowedSeries::new();
    series.append(Sample {
        payload: 1,
        instant: 0,
    });
    series.append(Sample {
        payload: 2,
        instant: 30,
    });
    series.append(Sample {
        payload: 3,
        instant: 59,
    });
    series.prune(60, 60);
    assert_eq!(series.samples.len(), 3);
    series.prune(91, 60);
    assert_eq!(series.samples.len(), 1);
    assert_eq!(series.samples[0].payload, 3);
}

#[test]
fn prune_retention_scenario() {
    // Retention 60 s, sample appended at t = 0: pruning at t = 59
    // keeps it, pruning at t = 61 removes it.
    let mut series: TimeWindowedSeries<u64> = TimeWindowedSeries::new();
    series.append(Sample {
        payload: 7,
        instant: 0,
    });
    series.prune(59, 60);
    assert_eq!(series.samples.len(), 1);
    series.prune(61, 60);
    assert_eq!(series.samples.len(), 0);
}

#[test]
fn prune_is_idempotent() {
    let mut series: TimeWindowedSeries<u64> = TimeWindowedSeries::new();
    for (value, instant) in [(1u64, 0u64), (2, 10), (3, 95), (4, 100)] {
        series.append(Sample {
            payload: value,
            instant,
        });
    }
    let mut once = series.clone();
    once.prune(100, 60);
    let mut twice = once.clone();
    twice.prune(100, 60);
    assert_eq!(once, twice);
}

#[test]
fn prune_preserves_relative_order() {
    let mut series: TimeWindowedSeries<u64> = TimeWindowedSeries::new();
    for (value, instant) in [(10u64, 1u64), (20, 2), (30, 70), (40, 71), (50, 72)] {
        series.append(Sample {
            payload: value,
            instant,
        });
    }
    series.prune(72, 60);
    let kept: Vec<u64> = series.samples.iter().map(|s| s.payload).collect();
    assert_eq!(kept, vec![30, 40, 50]);
}

#[test]
fn prune_age_invariant() {
    let mut series: TimeWindowedSeries<u64> = TimeWindowedSeries::new();
    for instant in [0u64, 5, 40, 80, 120, 121] {
        series.append(Sample {
            payload: instant,
            instant,
        });
    }
    let now = 121;
    let retention = 60;
    series.prune(now, retention);
    for sample in &series.samples {
        assert!(now - sample.instant <= retention);
    }
    assert_eq!(series.samples.len(), 3);
}

#[test]
fn set_if_valid_overwrites_on_ok_and_keeps_on_err() {
    let mut slot: u64 = 5;
    set_if_valid(Ok(9), &mut slot);
    assert_eq!(slot, 9);
    set_if_valid(Err(HarvestError::PermissionDenied), &mut slot);
    assert_eq!(slot, 9);
    set_if_valid(Err(HarvestError::SensorAbsent), &mut slot);
    assert_eq!(slot, 9);
    set_if_valid(Err(HarvestError::OsCall), &mut slot);
    assert_eq!(slot, 9);
}

#[test]
fn push_if_valid_appends_on_ok_and_keeps_on_err() {
    let mut history: Vec<u64> = vec![1, 2];
    push_if_valid(Ok(3), &mut history);
    assert_eq!(history, vec![1, 2, 3]);
    push_if_valid(Err(HarvestError::SensorAbsent), &mut history);
    assert_eq!(history, vec![1, 2, 3]);
}

#[test]
fn partial_failure_is_domain_local() {
    // The memory harvester fails; every other domain still updates,
    // and memory keeps its previous history.
    let mut state = DataState::default();
    let mut first = all_failed();
    first.memory = Ok(mem(100, 40));
    state.update_data(0, first);
    assert_eq!(state.data.memory.samples.len(), 1);

    let mut second = all_failed();
    second.memory = Err(HarvestError::PermissionDenied);
    second.swap = Ok(mem(50, 10));
    second.network = Ok(NetworkData {
        rx: 1,
        tx: 2,
        total_rx: 3,
        total_tx: 4,
    });
    second.disks = Ok(vec![DiskData {
        name: String::from("sda"),
        mount_point: String::from("/"),
        total_bytes: 1000,
        free_bytes: 400,
    }]);
    second.io = Ok(IoPackage {
        read_bytes: 11,
        write_bytes: 22,
    });
    state.update_data(1, second);

    assert_eq!(state.data.memory.samples.len(), 1);
    assert_eq!(state.data.memory.samples[0].instant, 0);
    assert_eq!(state.data.swap.samples.len(), 1);
    assert_eq!(state.data.network.samples.len(), 1);
    assert_eq!(state.data.list_of_io.samples.len(), 1);
    assert_eq!(state.data.list_of_disks.len(), 1);
    assert_eq!(state.data.list_of_disks[0].name, "sda");
}

#[test]
fn update_prunes_every_series_against_cycle_start() {
    let mut state = DataState::default();
    state.set_stale_max_seconds(10);
    let mut first = all_failed();
    first.memory = Ok(mem(100, 1));
    first.io = Ok(IoPackage {
        read_bytes: 1,
        write_bytes: 1,
    });
    state.update_data(0, first);
    let mut second = all_failed();
    second.memory = Ok(mem(100, 2));
    state.update_data(20, second);
    // The sample from t = 0 aged out in both series; only memory got
    // a new sample.
    assert_eq!(state.data.memory.samples.len(), 1);
    assert_eq!(state.data.memory.samples[0].instant, 20);
    assert_eq!(state.data.list_of_io.samples.len(), 0);
}

#[test]
fn system_utilization_exact_value_and_baseline_advance() {
    let mut state = DataState::default();
    let mut h = all_failed();
    h.cpu = Ok(CpuTicks {
        idle_ticks: 100,
        non_idle_ticks: 100,
    });
    state.update_data(0, h);
    assert_eq!(state.delta.prev_idle, 100);
    assert_eq!(state.delta.prev_non_idle, 100);

    let mut h2 = all_failed();
    h2.cpu = Ok(CpuTicks {
        idle_ticks: 150,
        non_idle_ticks: 250,
    });
    state.update_data(1, h2);
    // Deltas: idle 50, non-idle 150 -> 150 / 200 of the interval.
    let latest = state.data.list_of_cpu_packages.samples.last().unwrap();
    assert_eq!(latest.payload.utilization_bp, 7500);
    assert_eq!(state.delta.prev_idle, 150);
    assert_eq!(state.delta.prev_non_idle, 250);
}

#[test]
fn system_utilization_zero_delta_keeps_last_value() {
    let mut state = DataState::default();
    let mut h = all_failed();
    h.cpu = Ok(CpuTicks {
        idle_ticks: 100,
        non_idle_ticks: 300,
    });
    state.update_data(0, h);
    let first = state
        .data
        .list_of_cpu_packages
        .samples
        .last()
        .unwrap()
        .payload
        .utilization_bp;
    assert_eq!(first, 7500);

    // Same cumulative counters again: no elapsed ticks, so the
    // previous percentage stands instead of a division by zero.
    let mut h2 = all_failed();
    h2.cpu = Ok(CpuTicks {
        idle_ticks: 100,
        non_idle_ticks: 300,
    });
    state.update_data(1, h2);
    let second = state
        .data
        .list_of_cpu_packages
        .samples
        .last()
        .unwrap()
        .payload
        .utilization_bp;
    assert_eq!(second, 7500);
}

#[test]
fn system_utilization_stays_in_bounds() {
    let mut state = DataState::default();
    let mut h = all_failed();
    h.cpu = Ok(CpuTicks {
        idle_ticks: 0,
        non_idle_ticks: u64::MAX,
    });
    state.update_data(0, h);
    let bp = state
        .data
        .list_of_cpu_packages
        .samples
        .last()
        .unwrap()
        .payload
        .utilization_bp;
    assert!(bp <= 10000);
    assert_eq!(bp, 10000);
}

fn proc(pid: u64, name: &str, ticks: u64) -> ProcessRaw {
    ProcessRaw {
        pid,
        name: String::from(name),
        cpu_ticks: ticks,
        mem_bytes: 1024,
    }
}

#[test]
fn process_delta_scenario_two_cycles() {
    // Cycle 1 at t = 0: pid 10 with 100 cumulative ticks, no
    // baseline yet, so zero derived usage. Cycle 2 at t = 1: pid 10
    // at 150 ticks: 50 ticks over 1 s at 100 ticks/s on one core is
    // half of capacity.
    let mut state = DataState::default();
    let mut h = all_failed();
    h.processes = Ok(vec![proc(10, "a", 100)]);
    state.update_data(0, h);
    assert_eq!(state.data.list_of_processes.len(), 1);
    assert_eq!(state.data.list_of_processes[0].cpu_usage_bp, 0);

    let mut h2 = all_failed();
    h2.processes = Ok(vec![proc(10, "a", 150)]);
    state.update_data(1, h2);
    assert_eq!(state.data.list_of_processes.len(), 1);
    assert_eq!(state.data.list_of_processes[0].pid, 10);
    assert_eq!(state.data.list_of_processes[0].cpu_usage_bp, 5000);
}

#[test]
fn previous_ticks_map_is_rebuilt_each_cycle() {
    let mut state = DataState::default();
    let mut h = all_failed();
    h.processes = Ok(vec![proc(1, "a", 10), proc(2, "b", 20)]);
    state.update_data(0, h);
    assert_eq!(state.delta.prev_pid_stats.len(), 2);
    assert!(state.delta.prev_pid_stats.contains_key(&1));
    assert!(state.delta.prev_pid_stats.contains_key(&2));

    // Pid 1 exits, pid 3 appears: the map holds exactly the live
    // pids, the newcomer reports zero usage this cycle.
    let mut h2 = all_failed();
    h2.processes = Ok(vec![proc(2, "b", 120), proc(3, "c", 500)]);
    state.update_data(1, h2);
    assert_eq!(state.delta.prev_pid_stats.len(), 2);
    assert!(!state.delta.prev_pid_stats.contains_key(&1));
    assert!(state.delta.prev_pid_stats.contains_key(&2));
    assert!(state.delta.prev_pid_stats.contains_key(&3));
    assert_eq!(state.data.list_of_processes[0].cpu_usage_bp, 10000);
    assert_eq!(state.data.list_of_processes[1].cpu_usage_bp, 0);
}

#[test]
fn failed_process_harvest_does_not_advance_the_baseline() {
    let mut state = DataState::default();
    let mut h = all_failed();
    h.processes = Ok(vec![proc(7, "d", 100)]);
    state.update_data(0, h);

    // The harvest at t = 1 fails: slot and baselines stay put.
    state.update_data(1, all_failed());
    assert_eq!(state.data.list_of_processes.len(), 1);
    assert_eq!(state.delta.prev_instant, 0);

    // The next success at t = 2 measures across the full 2 s gap:
    // 100 ticks over 2 s at 100 ticks/s is half of capacity.
    let mut h3 = all_failed();
    h3.processes = Ok(vec![proc(7, "d", 200)]);
    state.update_data(2, h3);
    assert_eq!(state.data.list_of_processes[0].cpu_usage_bp, 5000);
}

#[test]
fn per_process_usage_is_clamped() {
    let mut state = DataState::default();
    let mut h = all_failed();
    h.processes = Ok(vec![proc(4, "e", 0)]);
    state.update_data(0, h);
    // 1000 ticks in 1 s at 100 ticks/s would be ten times capacity:
    // reported usage is clamped to 10000.
    let mut h2 = all_failed();
    h2.processes = Ok(vec![proc(4, "e", 1000)]);
    state.update_data(1, h2);
    assert_eq!(state.data.list_of_processes[0].cpu_usage_bp, 10000);
}

#[test]
fn tick_normalization_scales_capacity() {
    let mut state = DataState::default();
    state.set_tick_normalization(100, 2);
    let mut h = all_failed();
    h.processes = Ok(vec![proc(9, "f", 0)]);
    state.update_data(0, h);
    let mut h2 = all_failed();
    h2.processes = Ok(vec![proc(9, "f", 100)]);
    state.update_data(1, h2);
    // 100 ticks over 1 s saturates one of two cores: half of total
    // capacity.
    assert_eq!(state.data.list_of_processes[0].cpu_usage_bp, 5000);
}

#[test]
fn default_state_is_empty_with_sixty_second_retention() {
    let state = DataState::default();
    assert_eq!(state.stale_max_seconds, 60);
    assert_eq!(state.ticks_per_second, 100);
    assert_eq!(state.core_count, 1);
    assert_eq!(state.data.memory.samples.len(), 0);
    assert_eq!(state.data.list_of_processes.len(), 0);
    assert_eq!(state.delta.prev_pid_stats.len(), 0);
    let mut state = state;
    state.set_stale_max_seconds(5);
    assert_eq!(state.stale_max_seconds, 5);
}
