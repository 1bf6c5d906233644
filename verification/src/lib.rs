//! Verified core of an ARMv8 (EL2) hypervisor that is loaded by the
//! Jailhouse driver: per-CPU bookkeeping, the layout of the per-CPU area and
//! of the system configuration that follows it, and the saved register
//! contexts of the host Linux and of each virtual CPU.
//!
//! Everything that touches the hardware (system registers, exception
//! return, raw memory) is done by the caller; this crate computes what is
//! written there and keeps the bookkeeping consistent.
use vstd::prelude::*;

pub mod arch;
pub mod boot;
pub mod config;
pub mod consts;
pub mod error;
pub mod percpu;
