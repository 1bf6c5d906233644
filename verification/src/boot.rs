//! Decisions of the boot path that each CPU runs when it enters the
//! hypervisor, and of the VM exit handler.
use crate::error::HvResult;
use vstd::prelude::*;

verus! {

/// Whether `cpuid` is the primary CPU, the one that sets up what all CPUs
/// share (the hypervisor heap) before the others use it.
pub fn is_primary_cpu(cpuid: u32) -> (primary: bool)
    ensures
        primary == (cpuid == 0),
{
    cpuid == 0
}

/// Outcome of the primary CPU's early set-up. That set-up is the
/// initialisation of the hypervisor heap (`HV_HEAP_SIZE` bytes), which the
/// caller performs on the allocator; it cannot fail, so the set-up always
/// succeeds.
pub fn primary_init_early() -> (ret: HvResult<()>)
    ensures
        ret is Ok,
{
    Ok(())
}

/// Handles a VM exit taken to EL2. No exit needs work from the hypervisor
/// yet, so every exit is handled successfully.
pub fn arch_handle_exit() -> (ret: Result<(), ()>)
    ensures
        ret is Ok,
{
    Ok(())
}

} // verus!
