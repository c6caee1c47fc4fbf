//! Disk domain types: usage snapshots and I/O counters.

use vstd::prelude::*;

verus! {

/// Usage snapshot of one mounted disk.
#[derive(Clone, PartialEq, Eq, Debug)]
pub struct DiskData {
    pub name: String,
    pub mount_point: String,
    pub total_bytes: u64,
    pub free_bytes: u64,
}

/// Aggregate I/O counters for one harvest: bytes read and written,
/// over either the logical or the physical disks.
#[derive(Clone, Copy, PartialEq, Eq, Debug)]
pub struct IoPackage {
    pub read_bytes: u64,
    pub write_bytes: u64,
}

} // verus!
