//! ARMv8-A (AArch64) support.
pub mod context;
pub mod vcpu;
