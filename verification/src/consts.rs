//! Sizes and addresses of the hypervisor's memory.
use vstd::prelude::*;

verus! {

/// Size of the hypervisor heap.
pub const HV_HEAP_SIZE: usize = 32 * 1024 * 1024;

/// Size of the per-CPU data (stack and other CPU-local data).
pub const PER_CPU_SIZE: usize = 512 * 1024;

/// Start virtual address of the hypervisor memory (a 64-bit address, so it
/// is held in a `u64` whatever the width of `usize`).
pub const HV_BASE: u64 = 0xffff_ff00_0000_0000;

/// Address of the per-CPU area of CPU `cpu_id` in the per-CPU array that
/// starts at `per_cpu_array`.
pub open spec fn spec_per_cpu_vaddr(per_cpu_array: int, cpu_id: int) -> int {
    per_cpu_array + cpu_id * PER_CPU_SIZE
}

/// Address of the system configuration: it follows the per-CPU areas of
/// all `max_cpus` CPUs.
pub open spec fn spec_hv_config_ptr(per_cpu_array: int, max_cpus: int) -> int {
    spec_per_cpu_vaddr(per_cpu_array, max_cpus)
}

/// Address of the `HvSystemConfig` structure, given the start of the
/// per-CPU array and the number of CPUs that the header announces.
pub fn hv_config_ptr(per_cpu_array: usize, max_cpus: u32) -> (addr: usize)
    requires
        spec_hv_config_ptr(per_cpu_array as int, max_cpus as int) <= usize::MAX,
    ensures
        addr == spec_hv_config_ptr(per_cpu_array as int, max_cpus as int),
        addr == per_cpu_array + max_cpus * PER_CPU_SIZE,
{
    per_cpu_array + max_cpus as usize * PER_CPU_SIZE
}

/// The area of CPU `cpu_id` starts `cpu_id` whole areas after the start of
/// the per-CPU array, and the configuration `max_cpus` whole areas after
/// it; so CPU 0's area starts at the array start itself.
pub proof fn lemma_per_cpu_layout(per_cpu_array: int, cpu_id: int, max_cpus: int)
    ensures
        spec_per_cpu_vaddr(per_cpu_array, cpu_id) == per_cpu_array + cpu_id * PER_CPU_SIZE,
        spec_hv_config_ptr(per_cpu_array, max_cpus) == per_cpu_array + max_cpus * PER_CPU_SIZE,
        spec_per_cpu_vaddr(per_cpu_array, 0) == per_cpu_array,
        spec_hv_config_ptr(per_cpu_array, 0) == per_cpu_array,
{
}

/// Moving the per-CPU array moves every CPU's area and the configuration
/// by the same distance; consecutive CPUs' areas are one area apart.
pub proof fn lemma_per_cpu_layout_shifts(per_cpu_array: int, shift: int, cpu_id: int)
    ensures
        spec_per_cpu_vaddr(per_cpu_array + shift, cpu_id) == spec_per_cpu_vaddr(
            per_cpu_array,
            cpu_id,
        ) + shift,
        spec_hv_config_ptr(per_cpu_array + shift, cpu_id) == spec_hv_config_ptr(
            per_cpu_array,
            cpu_id,
        ) + shift,
        spec_per_cpu_vaddr(per_cpu_array, cpu_id + 1) == spec_per_cpu_vaddr(per_cpu_array, cpu_id)
            + PER_CPU_SIZE,
{
    assert((cpu_id + 1) * 0x80000 == cpu_id * 0x80000 + 0x80000) by (nonlinear_arith);
}

} // verus!
