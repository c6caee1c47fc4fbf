//! CPU domain types: the raw cumulative tick counters read from the
//! snapshot adapter and the per-cycle package derived from them.

use vstd::prelude::*;

verus! {

/// Cumulative CPU tick counters as read from the snapshot adapter:
/// ticks spent idle and ticks spent doing work, both monotonically
/// increasing over the life of the host.
#[derive(Clone, Copy, PartialEq, Eq, Debug)]
pub struct CpuTicks {
    pub idle_ticks: u64,
    pub non_idle_ticks: u64,
}

/// One harvested CPU sample: the cumulative counters it was derived
/// from and the system-wide utilization over the interval since the
/// previous sample, in basis points (ten-thousandths, 0 ..= 10000).
#[derive(Clone, Copy, PartialEq, Eq, Debug)]
pub struct CpuPackage {
    pub idle_ticks: u64,
    pub non_idle_ticks: u64,
    pub utilization_bp: u64,
}

} // verus!
