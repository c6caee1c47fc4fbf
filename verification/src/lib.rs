//! Data-state engine for a terminal telemetry dashboard.
//!
//! The library owns the per-cycle harvesting orchestration, the
//! time-windowed retention policy for metric history, the delta-based
//! utilization arithmetic for CPU and per-process load, and the
//! interactive sort-state machine for the process table. Reading the
//! OS counters and drawing the screen are left to the surrounding
//! program; the engine works on the plain values it is handed.

pub mod cpu;
pub mod disks;
pub mod mem;
pub mod network;
pub mod processes;
pub mod store;
pub mod temperature;
pub mod widgets;
