//! Process domain: raw process readings, derived table entries, the
//! delta engine that turns cumulative counters into utilization, and
//! the sort keys of the process table.
//!
//! Utilization is reported in basis points: ten-thousandths of total
//! CPU capacity, so the value always lies in `0 ..= 10000`.

use std::collections::HashMap;
use vstd::prelude::*;

verus! {

broadcast use vstd::std_specs::hash::group_hash_axioms;

/// Sort keys of the process table.
#[derive(Clone, Copy, PartialEq, Eq, Structural, Debug)]
pub enum ProcessSorting {
    CPU,
    MEM,
    PID,
    NAME,
}

/// The sort key a single-character command selects, if any.
pub open spec fn sort_key(c: char) -> Option<ProcessSorting> {
    if c == 'c' {
        Some(ProcessSorting::CPU)
    } else if c == 'm' {
        Some(ProcessSorting::MEM)
    } else if c == 'p' {
        Some(ProcessSorting::PID)
    } else if c == 'n' {
        Some(ProcessSorting::NAME)
    } else {
        None
    }
}

/// The direction a sort key starts with when it is newly selected:
/// CPU and MEM sort descending (reversed), PID and NAME ascending.
pub open spec fn default_reverse(k: ProcessSorting) -> bool {
    k == ProcessSorting::CPU || k == ProcessSorting::MEM
}

/// One step of the sort-state machine on sort key `k`: selecting the
/// current field again toggles the direction; selecting another
/// field moves to it with its default direction.
pub open spec fn next_sort(field: ProcessSorting, reverse: bool, k: ProcessSorting) -> (
    ProcessSorting,
    bool,
) {
    if field == k {
        (field, !reverse)
    } else {
        (k, default_reverse(k))
    }
}

/// Law: pressing the currently selected sort key twice returns the
/// direction to its original value and keeps the field.
pub proof fn lemma_sort_toggle_twice(field: ProcessSorting, reverse: bool, k: ProcessSorting)
    requires
        field == k,
    ensures
        ({
            let (f1, r1) = next_sort(field, reverse, k);
            let (f2, r2) = next_sort(f1, r1, k);
            f2 == field && r2 == reverse
        }),
{
}

/// Law: pressing a sort key other than the current field selects it
/// with its documented default direction.
pub proof fn lemma_sort_new_key_default(field: ProcessSorting, reverse: bool, k: ProcessSorting)
    requires
        field != k,
    ensures
        next_sort(field, reverse, k) == (k, default_reverse(k)),
{
}

/// What the snapshot adapter reports for one live process: pid,
/// name, cumulative CPU-time ticks, and memory usage.
#[derive(Clone, PartialEq, Eq, Debug)]
pub struct ProcessRaw {
    pub pid: u64,
    pub name: String,
    pub cpu_ticks: u64,
    pub mem_bytes: u64,
}

/// One process-table entry: the raw reading carried over, plus the
/// utilization over the interval since the previous successful
/// harvest, in basis points of total CPU capacity.
#[derive(Clone, PartialEq, Eq, Debug)]
pub struct ProcessData {
    pub pid: u64,
    pub name: String,
    pub cpu_ticks: u64,
    pub mem_bytes: u64,
    pub cpu_usage_bp: u64,
}

/// State the delta engine carries across cycles: the previous
/// cumulative system tick counters, the utilization last reported,
/// the instant of the last successful process harvest, and the
/// CPU-time ticks each then-live pid had.
pub struct DeltaState {
    pub prev_idle: u64,
    pub prev_non_idle: u64,
    pub last_utilization_bp: u64,
    pub prev_instant: u64,
    pub prev_pid_stats: HashMap<u64, u64>,
}

/// System-wide CPU utilization in basis points over the interval
/// between two cumulative counter readings: worked ticks over total
/// ticks elapsed. When the counters did not move — or moved
/// backwards, which a monotonic source never does — there is no
/// interval to measure and the last reported value stands.
pub open spec fn system_utilization_bp(
    prev_idle: u64,
    prev_non_idle: u64,
    idle: u64,
    non_idle: u64,
    last_bp: u64,
) -> int {
    if prev_idle <= idle && prev_non_idle <= non_idle && (idle - prev_idle) + (non_idle
        - prev_non_idle) > 0 {
        (non_idle - prev_non_idle) * 10000 / ((idle - prev_idle) + (non_idle - prev_non_idle))
    } else {
        last_bp as int
    }
}

/// Law: for any pair of counter readings the system-wide utilization
/// is a valid basis-point value — at least zero and at most ten
/// thousand — provided the value carried over from the previous
/// cycle is one.
pub proof fn lemma_system_utilization_in_bounds(
    prev_idle: u64,
    prev_non_idle: u64,
    idle: u64,
    non_idle: u64,
    last_bp: u64,
)
    requires
        last_bp <= 10000,
    ensures
        0 <= system_utilization_bp(prev_idle, prev_non_idle, idle, non_idle, last_bp) <= 10000,
{
    if prev_idle <= idle && prev_non_idle <= non_idle && (idle - prev_idle) + (non_idle
        - prev_non_idle) > 0 {
        let di = idle - prev_idle;
        let dn = non_idle - prev_non_idle;
        vstd::arithmetic::div_mod::lemma_div_basics(di + dn);
        vstd::arithmetic::div_mod::lemma_div_is_ordered(0, dn * 10000, di + dn);
        vstd::arithmetic::div_mod::lemma_div_is_ordered(dn * 10000, (di + dn) * 10000, di + dn);
        vstd::arithmetic::div_mod::lemma_div_multiples_vanish(10000, di + dn);
    }
}

/// The seconds elapsed from `prev` to `now` on the monotonic clock;
/// zero if `now` does not lie after `prev`.
pub open spec fn elapsed_since(prev: u64, now: u64) -> u64 {
    if prev <= now {
        (now - prev) as u64
    } else {
        0
    }
}

/// Per-process utilization in basis points for one cycle: the
/// CPU-time ticks the process gained over the interval, against the
/// ticks the whole machine could have spent in it (elapsed seconds
/// times ticks per second times cores), clamped to 10000. A reading
/// with no measurable interval, or whose counter moved backwards,
/// reports zero.
pub open spec fn per_process_bp(
    prev_ticks: u64,
    ticks: u64,
    elapsed_s: u64,
    ticks_per_second: u64,
    cores: u64,
) -> int {
    let capacity = elapsed_s * ticks_per_second * cores;
    if ticks <= prev_ticks || capacity == 0 {
        0
    } else if (ticks - prev_ticks) * 10000 / capacity > 10000 {
        10000
    } else {
        (ticks - prev_ticks) * 10000 / capacity
    }
}

/// What one raw reading becomes: pid, name and counters carried
/// over; utilization derived from the previous cycle's ticks for the
/// pid, or zero for a pid seen for the first time.
pub open spec fn process_entry(
    p: ProcessRaw,
    prev: Map<u64, u64>,
    elapsed_s: u64,
    ticks_per_second: u64,
    cores: u64,
) -> ProcessData {
    ProcessData {
        pid: p.pid,
        name: p.name,
        cpu_ticks: p.cpu_ticks,
        mem_bytes: p.mem_bytes,
        cpu_usage_bp: if prev.contains_key(p.pid) {
            per_process_bp(prev[p.pid], p.cpu_ticks, elapsed_s, ticks_per_second, cores) as u64
        } else {
            0
        },
    }
}

/// The set of pids present in a raw process table.
pub open spec fn pids_of(s: Seq<ProcessRaw>) -> Set<u64> {
    Set::new(|p: u64| exists|i: int| 0 <= i < s.len() && s[i].pid == p)
}

/// Per-process utilization for one entry; see [`per_process_bp`].
pub fn per_process_usage(
    prev_ticks: u64,
    ticks: u64,
    elapsed_s: u64,
    ticks_per_second: u64,
    cores: u64,
) -> (r: u64)
    requires
        ticks_per_second <= 1_000_000,
        cores <= 1_000_000,
    ensures
        r as int == per_process_bp(prev_ticks, ticks, elapsed_s, ticks_per_second, cores),
        r <= 10000,
{
    if ticks <= prev_ticks {
        return 0;
    }
    proof {
        assert((elapsed_s as int) * (ticks_per_second as int) <= (u64::MAX as int) * 1_000_000)
            by (nonlinear_arith)
            requires
                elapsed_s <= u64::MAX,
                ticks_per_second <= 1_000_000,
        ;
    }
    let partial: u128 = elapsed_s as u128 * ticks_per_second as u128;
    proof {
        assert((partial as int) * (cores as int) <= (u64::MAX as int) * 1_000_000 * 1_000_000)
            by (nonlinear_arith)
            requires
                partial as int <= (u64::MAX as int) * 1_000_000,
                cores <= 1_000_000,
        ;
    }
    let capacity: u128 = partial * cores as u128;
    if capacity == 0 {
        return 0;
    }
    let q: u128 = (ticks - prev_ticks) as u128 * 10000 / capacity;
    if q > 10000 {
        10000
    } else {
        q as u64
    }
}

impl DeltaState {
    /// A fresh delta engine with no history: zero baselines and an
    /// empty previous-ticks map.
    pub fn new() -> (r: Self)
        ensures
            r.prev_idle == 0,
            r.prev_non_idle == 0,
            r.last_utilization_bp == 0,
            r.prev_instant == 0,
            r.prev_pid_stats@ == Map::<u64, u64>::empty(),
    {
        DeltaState {
            prev_idle: 0,
            prev_non_idle: 0,
            last_utilization_bp: 0,
            prev_instant: 0,
            prev_pid_stats: HashMap::new(),
        }
    }

    /// Folds a new pair of cumulative system CPU counters into the
    /// engine: returns the utilization over the interval since the
    /// previous reading, and advances the counter baselines
    /// unconditionally — whether or not a ratio could be computed.
    pub fn system_utilization(&mut self, idle: u64, non_idle: u64) -> (r: u64)
        requires
            old(self).last_utilization_bp <= 10000,
        ensures
            r as int == system_utilization_bp(
                old(self).prev_idle,
                old(self).prev_non_idle,
                idle,
                non_idle,
                old(self).last_utilization_bp,
            ),
            r <= 10000,
            final(self).prev_idle == idle,
            final(self).prev_non_idle == non_idle,
            final(self).last_utilization_bp == r,
            final(self).prev_instant == old(self).prev_instant,
            final(self).prev_pid_stats == old(self).prev_pid_stats,
    {
        let r: u64;
        if self.prev_idle <= idle && self.prev_non_idle <= non_idle && (idle - self.prev_idle > 0
            || non_idle - self.prev_non_idle > 0) {
            let di: u128 = (idle - self.prev_idle) as u128;
            let dn: u128 = (non_idle - self.prev_non_idle) as u128;
            let total: u128 = di + dn;
            let q: u128 = dn * 10000 / total;
            proof {
                vstd::arithmetic::div_mod::lemma_div_is_ordered(
                    dn as int * 10000,
                    total as int * 10000,
                    total as int,
                );
                vstd::arithmetic::div_mod::lemma_div_multiples_vanish(10000, total as int);
            }
            r = q as u64;
        } else {
            r = self.last_utilization_bp;
        }
        self.prev_idle = idle;
        self.prev_non_idle = non_idle;
        self.last_utilization_bp = r;
        r
    }

    /// One successful process harvest: derives a table entry from
    /// each raw reading against the previous cycle's baselines, then
    /// rebuilds the previous-ticks map from exactly the pids seen now
    /// and advances the harvest instant. A pid that vanished leaves
    /// no entry behind; a pid seen for the first time reports zero
    /// utilization this cycle.
    pub fn harvest_processes(
        &mut self,
        raw: Vec<ProcessRaw>,
        now: u64,
        ticks_per_second: u64,
        cores: u64,
    ) -> (r: Vec<ProcessData>)
        requires
            ticks_per_second <= 1_000_000,
            cores <= 1_000_000,
        ensures
            ({
                let elapsed = elapsed_since(old(self).prev_instant, now);
                &&& r@.len() == raw@.len()
                &&& forall|i: int|
                    0 <= i < raw@.len() ==> r@[i] == process_entry(
                        #[trigger] raw@[i],
                        old(self).prev_pid_stats@,
                        elapsed,
                        ticks_per_second,
                        cores,
                    )
                &&& final(self).prev_pid_stats@.dom() == pids_of(raw@)
                &&& forall|p: u64|
                    #[trigger] final(self).prev_pid_stats@.contains_key(p) ==> exists|i: int|
                        0 <= i < raw@.len() && raw@[i].pid == p && final(self).prev_pid_stats@[p]
                            == raw@[i].cpu_ticks
                &&& final(self).prev_instant == now
                &&& final(self).prev_idle == old(self).prev_idle
                &&& final(self).prev_non_idle == old(self).prev_non_idle
                &&& final(self).last_utilization_bp == old(self).last_utilization_bp
            }),
    {
        let ghost prev_map: Map<u64, u64> = self.prev_pid_stats@;
        let elapsed: u64 = if self.prev_instant <= now {
            now - self.prev_instant
        } else {
            0
        };
        let mut rem = raw;
        let ghost orig: Seq<ProcessRaw> = rem@;
        let mut out: Vec<ProcessData> = Vec::new();
        let mut new_map: HashMap<u64, u64> = HashMap::new();
        while rem.len() > 0
            invariant
                out@.len() + rem@.len() == orig.len(),
                rem@ == orig.skip(out@.len() as int),
                self.prev_pid_stats@ == prev_map,
                elapsed == elapsed_since(old(self).prev_instant, now),
                ticks_per_second <= 1_000_000,
                cores <= 1_000_000,
                forall|i: int|
                    0 <= i < out@.len() ==> out@[i] == process_entry(
                        #[trigger] orig[i],
                        prev_map,
                        elapsed,
                        ticks_per_second,
                        cores,
                    ),
                new_map@.dom() == pids_of(orig.take(out@.len() as int)),
                forall|p: u64|
                    #[trigger] new_map@.contains_key(p) ==> exists|i: int|
                        0 <= i < out@.len() && orig[i].pid == p && new_map@[p]
                            == orig[i].cpu_ticks,
            decreases rem@.len(),
        {
            let ghost k = out@.len() as int;
            let p = rem.remove(0);
            proof {
                assert(p == orig[k]);
                assert(rem@ =~= orig.skip(k + 1));
            }
            let usage: u64 = match self.prev_pid_stats.get(&p.pid) {
                Some(pv) => per_process_usage(*pv, p.cpu_ticks, elapsed, ticks_per_second, cores),
                None => 0,
            };
            new_map.insert(p.pid, p.cpu_ticks);
            proof {
                assert forall|q: u64| #[trigger]
                    pids_of(orig.take(k + 1)).contains(q) implies pids_of(
                    orig.take(k),
                ).contains(q) || q == orig[k].pid by {
                    let i = choose|i: int|
                        0 <= i < orig.take(k + 1).len() && (#[trigger] orig.take(k + 1)[i]).pid
                            == q;
                    if i < k {
                        assert(orig.take(k)[i].pid == q);
                    }
                }
                assert forall|q: u64|
                    pids_of(orig.take(k)).contains(q) || q == orig[k].pid implies #[trigger]
                    pids_of(orig.take(k + 1)).contains(q) by {
                    if pids_of(orig.take(k)).contains(q) {
                        let i = choose|i: int|
                            0 <= i < orig.take(k).len() && (#[trigger] orig.take(k)[i]).pid == q;
                        assert(orig.take(k + 1)[i].pid == q);
                    } else {
                        assert(orig.take(k + 1)[k].pid == q);
                    }
                }
                assert(new_map@.insert(p.pid, p.cpu_ticks).dom() =~= pids_of(orig.take(k + 1)));
            }
            out.push(
                ProcessData {
                    pid: p.pid,
                    name: p.name,
                    cpu_ticks: p.cpu_ticks,
                    mem_bytes: p.mem_bytes,
                    cpu_usage_bp: usage,
                },
            );
        }
        proof {
            assert(orig.take(orig.len() as int) =~= orig);
        }
        self.prev_pid_stats = new_map;
        self.prev_instant = now;
        out
    }
}

} // verus!
