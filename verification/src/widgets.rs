//! Orchestration core: the per-cycle data state, the fallible merge
//! helpers, and the input-driven application state.
//!
//! One cycle folds each domain's harvest result into its store —
//! appending to time-windowed history, overwriting singleton slots,
//! feeding the delta engine — and then prunes every time series
//! against the instant captured at cycle start. A failed domain
//! leaves its own store untouched and never disturbs another domain.
//! Reading the OS counters themselves is the caller's business: the
//! snapshot adapter hands the cycle plain values.

use vstd::prelude::*;

use crate::cpu::{CpuPackage, CpuTicks};
use crate::disks::{DiskData, IoPackage};
use crate::mem::MemData;
use crate::network::NetworkData;
use crate::processes::{
    elapsed_since, next_sort, pids_of, process_entry, sort_key, system_utilization_bp, DeltaState,
    ProcessData, ProcessRaw, ProcessSorting,
};
use crate::store::{pruned, Sample, TimeWindowedSeries};
use crate::temperature::TempData;

verus! {

/// Why one domain's harvest failed. Always non-fatal and
/// domain-local: no harvest error ever crosses a domain boundary or
/// fails a cycle.
#[derive(Clone, Copy, PartialEq, Eq, Debug)]
pub enum HarvestError {
    /// The underlying OS call reported an error.
    OsCall,
    /// The OS refused access to the counters.
    PermissionDenied,
    /// The domain's sensor or counter source is absent on this host.
    SensorAbsent,
}

/// On a successful harvest the slot is overwritten wholesale; on a
/// failure it keeps its previous value — stale but valid is
/// preferred over absent.
pub fn set_if_valid<T>(result: Result<T, HarvestError>, value_to_set: &mut T)
    ensures
        match result {
            Ok(v) => *final(value_to_set) == v,
            Err(_) => *final(value_to_set) == *old(value_to_set),
        },
{
    if let Ok(v) = result {
        *value_to_set = v;
    }
}

/// On a successful harvest the value is appended at the end; on a
/// failure the history is left exactly as it was.
pub fn push_if_valid<T>(result: Result<T, HarvestError>, vector_to_push: &mut Vec<T>)
    ensures
        match result {
            Ok(v) => final(vector_to_push)@ == old(vector_to_push)@.push(v),
            Err(_) => final(vector_to_push)@ == old(vector_to_push)@,
        },
{
    if let Ok(v) = result {
        vector_to_push.push(v);
    }
}

/// The result of one harvest, stamped with the capture instant, so
/// that it can be appended to a time-windowed series.
pub fn stamp_if_valid<T>(result: Result<T, HarvestError>, now: u64) -> (r: Result<
    Sample<T>,
    HarvestError,
>)
    ensures
        match result {
            Ok(v) => r == Ok::<Sample<T>, HarvestError>(Sample { payload: v, instant: now }),
            Err(e) => r == Err::<Sample<T>, HarvestError>(e),
        },
{
    match result {
        Ok(v) => Ok(Sample { payload: v, instant: now }),
        Err(e) => Err(e),
    }
}

/// All domain stores of the engine: time-windowed history for the
/// rate-like domains, singleton slots for the domains where only the
/// latest successful reading matters.
#[derive(Clone)]
pub struct Data {
    pub list_of_cpu_packages: TimeWindowedSeries<CpuPackage>,
    pub list_of_io: TimeWindowedSeries<IoPackage>,
    pub list_of_physical_io: TimeWindowedSeries<IoPackage>,
    pub memory: TimeWindowedSeries<MemData>,
    pub swap: TimeWindowedSeries<MemData>,
    pub list_of_temperature: Vec<TempData>,
    pub network: TimeWindowedSeries<NetworkData>,
    pub list_of_processes: Vec<ProcessData>,
    pub list_of_disks: Vec<DiskData>,
}

impl Default for Data {
    /// Every history and every slot starts empty: a domain that has
    /// never harvested successfully shows no data.
    fn default() -> (r: Self)
        ensures
            r.list_of_cpu_packages@.len() == 0,
            r.list_of_io@.len() == 0,
            r.list_of_physical_io@.len() == 0,
            r.memory@.len() == 0,
            r.swap@.len() == 0,
            r.list_of_temperature@.len() == 0,
            r.network@.len() == 0,
            r.list_of_processes@.len() == 0,
            r.list_of_disks@.len() == 0,
    {
        Data {
            list_of_cpu_packages: TimeWindowedSeries::new(),
            list_of_io: TimeWindowedSeries::new(),
            list_of_physical_io: TimeWindowedSeries::new(),
            memory: TimeWindowedSeries::new(),
            swap: TimeWindowedSeries::new(),
            list_of_temperature: Vec::new(),
            network: TimeWindowedSeries::new(),
            list_of_processes: Vec::new(),
            list_of_disks: Vec::new(),
        }
    }
}

/// The outcome of one cycle's harvesters: one result per metric
/// domain, each successful value already converted to plain counters
/// by the snapshot adapter. The harvesters all read from the single
/// snapshot refreshed at cycle start, so the results are consistent
/// with one another within the cycle.
pub struct Harvest {
    pub network: Result<NetworkData, HarvestError>,
    pub cpu: Result<CpuTicks, HarvestError>,
    pub memory: Result<MemData, HarvestError>,
    pub swap: Result<MemData, HarvestError>,
    pub processes: Result<Vec<ProcessRaw>, HarvestError>,
    pub disks: Result<Vec<DiskData>, HarvestError>,
    pub io: Result<IoPackage, HarvestError>,
    pub physical_io: Result<IoPackage, HarvestError>,
    pub temperature: Result<Vec<TempData>, HarvestError>,
}

/// The CPU package one cycle appends on a successful CPU harvest:
/// the cumulative counters carried over, stamped with the
/// utilization the delta engine derives from the previous baselines.
pub open spec fn cpu_package_of(t: CpuTicks, d: DeltaState) -> CpuPackage {
    CpuPackage {
        idle_ticks: t.idle_ticks,
        non_idle_ticks: t.non_idle_ticks,
        utilization_bp: system_utilization_bp(
            d.prev_idle,
            d.prev_non_idle,
            t.idle_ticks,
            t.non_idle_ticks,
            d.last_utilization_bp,
        ) as u64,
    }
}

/// A series after one domain harvest: the sample appended on
/// success, nothing on failure.
pub open spec fn appended_if<T>(
    s: Seq<Sample<T>>,
    r: Result<T, HarvestError>,
    now: u64,
) -> Seq<Sample<T>> {
    match r {
        Ok(v) => s.push(Sample { payload: v, instant: now }),
        Err(_) => s,
    }
}

/// The CPU series after one harvest; like [`appended_if`], with the
/// payload derived by the delta engine.
pub open spec fn cpu_appended_if(
    s: Seq<Sample<CpuPackage>>,
    r: Result<CpuTicks, HarvestError>,
    now: u64,
    d: DeltaState,
) -> Seq<Sample<CpuPackage>> {
    match r {
        Ok(t) => s.push(Sample { payload: cpu_package_of(t, d), instant: now }),
        Err(_) => s,
    }
}

/// The whole engine: domain stores, retention configuration, the
/// platform tick normalization, and the delta engine's state.
pub struct DataState {
    pub data: Data,
    pub stale_max_seconds: u64,
    pub ticks_per_second: u64,
    pub core_count: u64,
    pub delta: DeltaState,
}

impl DataState {
    /// What every cycle relies on: the platform normalization leaves
    /// headroom for the capacity product, and the last reported
    /// utilization is a valid basis-point value.
    pub open spec fn wf(self) -> bool {
        &&& self.ticks_per_second <= 1_000_000
        &&& self.core_count <= 1_000_000
        &&& self.delta.last_utilization_bp <= 10000
    }

    /// Sets the retention window applied to every time series.
    pub fn set_stale_max_seconds(&mut self, stale_max_seconds: u64)
        ensures
            final(self).stale_max_seconds == stale_max_seconds,
            final(self).data == old(self).data,
            final(self).ticks_per_second == old(self).ticks_per_second,
            final(self).core_count == old(self).core_count,
            final(self).delta == old(self).delta,
    {
        self.stale_max_seconds = stale_max_seconds;
    }

    /// Fixes the platform convention for per-process utilization:
    /// the tick rate of the cumulative CPU-time counters and the
    /// number of cores that make up total capacity. The bounds leave
    /// the capacity product room in 128 bits for any elapsed time.
    pub fn set_tick_normalization(&mut self, ticks_per_second: u64, core_count: u64)
        requires
            ticks_per_second <= 1_000_000,
            core_count <= 1_000_000,
        ensures
            final(self).ticks_per_second == ticks_per_second,
            final(self).core_count == core_count,
            final(self).data == old(self).data,
            final(self).stale_max_seconds == old(self).stale_max_seconds,
            final(self).delta == old(self).delta,
    {
        self.ticks_per_second = ticks_per_second;
        self.core_count = core_count;
    }

    /// One harvesting cycle against the results read from the
    /// snapshot refreshed at cycle start. Every time-series domain
    /// appends on success; every slot is overwritten on success; a
    /// failed domain keeps its previous state. The process harvest
    /// feeds the delta engine; the CPU harvest advances its counter
    /// baselines unconditionally. Afterwards every time series is
    /// pruned against the same `now` with the configured retention.
    pub fn update_data(&mut self, now: u64, harvest: Harvest)
        requires
            old(self).wf(),
        ensures
            final(self).wf(),
            final(self).stale_max_seconds == old(self).stale_max_seconds,
            final(self).ticks_per_second == old(self).ticks_per_second,
            final(self).core_count == old(self).core_count,
            final(self).data.network@ == pruned(
                appended_if(old(self).data.network@, harvest.network, now),
                now,
                old(self).stale_max_seconds,
            ),
            final(self).data.memory@ == pruned(
                appended_if(old(self).data.memory@, harvest.memory, now),
                now,
                old(self).stale_max_seconds,
            ),
            final(self).data.swap@ == pruned(
                appended_if(old(self).data.swap@, harvest.swap, now),
                now,
                old(self).stale_max_seconds,
            ),
            final(self).data.list_of_io@ == pruned(
                appended_if(old(self).data.list_of_io@, harvest.io, now),
                now,
                old(self).stale_max_seconds,
            ),
            final(self).data.list_of_physical_io@ == pruned(
                appended_if(old(self).data.list_of_physical_io@, harvest.physical_io, now),
                now,
                old(self).stale_max_seconds,
            ),
            final(self).data.list_of_cpu_packages@ == pruned(
                cpu_appended_if(
                    old(self).data.list_of_cpu_packages@,
                    harvest.cpu,
                    now,
                    old(self).delta,
                ),
                now,
                old(self).stale_max_seconds,
            ),
            harvest.cpu matches Ok(t) ==> final(self).delta.prev_idle == t.idle_ticks && final(self).delta.prev_non_idle == t.non_idle_ticks && final(self).delta.last_utilization_bp
                as int == system_utilization_bp(
                old(self).delta.prev_idle,
                old(self).delta.prev_non_idle,
                t.idle_ticks,
                t.non_idle_ticks,
                old(self).delta.last_utilization_bp,
            ),
            harvest.cpu is Err ==> final(self).delta.prev_idle == old(self).delta.prev_idle
                && final(self).delta.prev_non_idle == old(self).delta.prev_non_idle && final(self).delta.last_utilization_bp == old(self).delta.last_utilization_bp,
            harvest.disks matches Ok(d) ==> final(self).data.list_of_disks == d,
            harvest.disks is Err ==> final(self).data.list_of_disks == old(self).data.list_of_disks,
            harvest.temperature matches Ok(t) ==> final(self).data.list_of_temperature == t,
            harvest.temperature is Err ==> final(self).data.list_of_temperature == old(self).data.list_of_temperature,
            harvest.processes is Err ==> final(self).data.list_of_processes == old(self).data.list_of_processes && final(self).delta.prev_pid_stats == old(self).delta.prev_pid_stats && final(self).delta.prev_instant == old(self).delta.prev_instant,
            harvest.processes matches Ok(raw) ==> ({
                let elapsed = elapsed_since(old(self).delta.prev_instant, now);
                &&& final(self).data.list_of_processes@.len() == raw@.len()
                &&& forall|i: int|
                    0 <= i < raw@.len() ==> final(self).data.list_of_processes@[i]
                        == process_entry(
                        #[trigger] raw@[i],
                        old(self).delta.prev_pid_stats@,
                        elapsed,
                        old(self).ticks_per_second,
                        old(self).core_count,
                    )
                &&& final(self).delta.prev_pid_stats@.dom() == pids_of(raw@)
                &&& forall|p: u64|
                    #[trigger] final(self).delta.prev_pid_stats@.contains_key(p) ==> exists|
                        i: int,
                    |
                        0 <= i < raw@.len() && raw@[i].pid == p && final(self).delta.prev_pid_stats@[p] == raw@[i].cpu_ticks
                &&& final(self).delta.prev_instant == now
            }),
    {
        push_if_valid(stamp_if_valid(harvest.network, now), &mut self.data.network.samples);
        match harvest.cpu {
            Ok(t) => {
                let bp = self.delta.system_utilization(t.idle_ticks, t.non_idle_ticks);
                self.data.list_of_cpu_packages.append(
                    Sample {
                        payload: CpuPackage {
                            idle_ticks: t.idle_ticks,
                            non_idle_ticks: t.non_idle_ticks,
                            utilization_bp: bp,
                        },
                        instant: now,
                    },
                );
            },
            Err(_) => {},
        }
        push_if_valid(stamp_if_valid(harvest.memory, now), &mut self.data.memory.samples);
        push_if_valid(stamp_if_valid(harvest.swap, now), &mut self.data.swap.samples);
        match harvest.processes {
            Ok(raw) => {
                let list = self.delta.harvest_processes(
                    raw,
                    now,
                    self.ticks_per_second,
                    self.core_count,
                );
                self.data.list_of_processes = list;
            },
            Err(_) => {},
        }
        set_if_valid(harvest.disks, &mut self.data.list_of_disks);
        push_if_valid(stamp_if_valid(harvest.io, now), &mut self.data.list_of_io.samples);
        push_if_valid(
            stamp_if_valid(harvest.physical_io, now),
            &mut self.data.list_of_physical_io.samples,
        );
        set_if_valid(harvest.temperature, &mut self.data.list_of_temperature);
        let retention = self.stale_max_seconds;
        self.data.list_of_cpu_packages.prune(now, retention);
        self.data.memory.prune(now, retention);
        self.data.swap.prune(now, retention);
        self.data.network.prune(now, retention);
        self.data.list_of_io.prune(now, retention);
        self.data.list_of_physical_io.prune(now, retention);
    }
}

impl Default for DataState {
    /// Sixty seconds of retention, and one hundred counter ticks per
    /// second on a single core until the platform convention is
    /// configured.
    fn default() -> (r: Self)
        ensures
            r.wf(),
            r.stale_max_seconds == 60,
            r.ticks_per_second == 100,
            r.core_count == 1,
            r.data.list_of_cpu_packages@.len() == 0,
            r.data.list_of_io@.len() == 0,
            r.data.list_of_physical_io@.len() == 0,
            r.data.memory@.len() == 0,
            r.data.swap@.len() == 0,
            r.data.list_of_temperature@.len() == 0,
            r.data.network@.len() == 0,
            r.data.list_of_processes@.len() == 0,
            r.data.list_of_disks@.len() == 0,
            r.delta.prev_idle == 0,
            r.delta.prev_non_idle == 0,
            r.delta.last_utilization_bp == 0,
            r.delta.prev_instant == 0,
            r.delta.prev_pid_stats@ == Map::<u64, u64>::empty(),
    {
        DataState {
            data: Data::default(),
            stale_max_seconds: 60,
            ticks_per_second: 100,
            core_count: 1,
            delta: DeltaState::new(),
        }
    }
}

/// Input-facing application state: the quit flag and the sort state
/// of the process table. The dirty flag `to_be_resorted` is set here
/// on every sort change and cleared only by the consumer that
/// performs the actual sort.
pub struct App<'a> {
    pub title: &'a str,
    pub should_quit: bool,
    pub process_sorting_type: ProcessSorting,
    pub process_sorting_reverse: bool,
    pub to_be_resorted: bool,
}

impl<'a> App<'a> {
    /// A fresh application: sorting by CPU descending, nothing to
    /// resort, not quitting.
    pub fn new(title: &'a str) -> (r: App<'a>)
        ensures
            r.title == title,
            r.should_quit == false,
            r.process_sorting_type == ProcessSorting::CPU,
            r.process_sorting_reverse == true,
            r.to_be_resorted == false,
    {
        App {
            title,
            process_sorting_type: ProcessSorting::CPU,
            should_quit: false,
            process_sorting_reverse: true,
            to_be_resorted: false,
        }
    }

    /// One input command: `q` quits; `c`, `m`, `p` and `n` drive the
    /// sort-state machine and mark the process view dirty; the
    /// navigation keys are owned by the focus layer and change
    /// nothing here; any other key is ignored.
    pub fn on_key(&mut self, c: char)
        ensures
            final(self).title == old(self).title,
            c == 'q' ==> final(self).should_quit == true && final(self).process_sorting_type
                == old(self).process_sorting_type && final(self).process_sorting_reverse == old(self).process_sorting_reverse && final(self).to_be_resorted == old(self).to_be_resorted,
            sort_key(c) matches Some(k) ==> ({
                let (f, r) = next_sort(
                    old(self).process_sorting_type,
                    old(self).process_sorting_reverse,
                    k,
                );
                &&& final(self).process_sorting_type == f
                &&& final(self).process_sorting_reverse == r
                &&& final(self).to_be_resorted == true
                &&& final(self).should_quit == old(self).should_quit
            }),
            c != 'q' && sort_key(c) is None ==> *final(self) == *old(self),
    {
        match c {
            'q' => self.should_quit = true,
            'h' => self.on_right(),
            'j' => self.on_down(),
            'k' => self.on_up(),
            'l' => self.on_left(),
            'c' => {
                match self.process_sorting_type {
                    ProcessSorting::CPU => self.process_sorting_reverse =
                    !self.process_sorting_reverse,
                    _ => {
                        self.process_sorting_type = ProcessSorting::CPU;
                        self.process_sorting_reverse = true;
                    },
                }
                self.to_be_resorted = true;
            },
            'm' => {
                match self.process_sorting_type {
                    ProcessSorting::MEM => self.process_sorting_reverse =
                    !self.process_sorting_reverse,
                    _ => {
                        self.process_sorting_type = ProcessSorting::MEM;
                        self.process_sorting_reverse = true;
                    },
                }
                self.to_be_resorted = true;
            },
            'p' => {
                match self.process_sorting_type {
                    ProcessSorting::PID => self.process_sorting_reverse =
                    !self.process_sorting_reverse,
                    _ => {
                        self.process_sorting_type = ProcessSorting::PID;
                        self.process_sorting_reverse = false;
                    },
                }
                self.to_be_resorted = true;
            },
            'n' => {
                match self.process_sorting_type {
                    ProcessSorting::NAME => self.process_sorting_reverse =
                    !self.process_sorting_reverse,
                    _ => {
                        self.process_sorting_type = ProcessSorting::NAME;
                        self.process_sorting_reverse = false;
                    },
                }
                self.to_be_resorted = true;
            },
            _ => {},
        }
    }

    /// Focus navigation is owned by the rendering layer; the data
    /// model is untouched.
    pub fn on_left(&mut self)
        ensures
            *final(self) == *old(self),
    {
    }

    /// Focus navigation is owned by the rendering layer; the data
    /// model is untouched.
    pub fn on_right(&mut self)
        ensures
            *final(self) == *old(self),
    {
    }

    /// Focus navigation is owned by the rendering layer; the data
    /// model is untouched.
    pub fn on_up(&mut self)
        ensures
            *final(self) == *old(self),
    {
    }

    /// Focus navigation is owned by the rendering layer; the data
    /// model is untouched.
    pub fn on_down(&mut self)
        ensures
            *final(self) == *old(self),
    {
    }
}

} // verus!
