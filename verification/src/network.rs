//! Network domain type.

use vstd::prelude::*;

verus! {

/// One network reading: bytes received and sent in the current
/// window, and the cumulative totals since boot.
#[derive(Clone, Copy, PartialEq, Eq, Debug)]
pub struct NetworkData {
    pub rx: u64,
    pub tx: u64,
    pub total_rx: u64,
    pub total_tx: u64,
}

} // verus!
