//! Memory and swap domain type.

use vstd::prelude::*;

verus! {

/// One memory (or swap) reading: total and used bytes at the capture
/// instant.
#[derive(Clone, Copy, PartialEq, Eq, Debug)]
pub struct MemData {
    pub total_bytes: u64,
    pub used_bytes: u64,
}

} // verus!
