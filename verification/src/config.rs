//! The system configuration that the driver places after the per-CPU area:
//! the hypervisor's own memory and the description of the root cell.
use vstd::prelude::*;

verus! {

/// Revision of the configuration format.
#[allow(dead_code)]
const CONFIG_REVISION: u16 = 10;

/// Longest cell name, without its terminating zero.
#[allow(dead_code)]
const HV_CELL_NAME_MAXLEN: usize = 31;

/// Most IOMMU units a configuration describes.
#[allow(dead_code)]
const HV_MAX_IOMMU_UNITS: usize = 8;

/// A debug console.
#[derive(Debug)]
struct HvConsole {
    address: u64,
    size: u32,
    console_type: u16,
    flags: u16,
    divider: u32,
    gate_nr: u32,
    clock_reg: u64,
}

/// Description of a cell (a partition of the machine).
pub struct HvCellDesc {
    signature: [u8; 6],
    revision: u16,
    /// Name, zero-terminated (`HV_CELL_NAME_MAXLEN` bytes and the zero).
    name: [u8; 32],
    /// Set by the driver.
    id: u32,
    flags: u32,
    pub cpu_set_size: u32,
    pub num_memory_regions: u32,
    pub num_cache_regions: u32,
    pub num_irqchips: u32,
    pub pio_bitmap_size: u32,
    pub num_pci_devices: u32,
    pub num_pci_caps: u32,
    vpci_irq_base: u32,
    cpu_reset_address: u64,
    msg_reply_timeout: u64,
    console: HvConsole,
}

/// A region of memory: where it lies physically and virtually, its size,
/// and its access flags (bits of the memory flags word).
pub struct HvMemoryRegion {
    pub phys_start: u64,
    pub virt_start: u64,
    pub size: u64,
    pub flags: u64,
}

/// General descriptor of the system.
pub struct HvSystemConfig {
    pub signature: [u8; 6],
    pub revision: u16,
    flags: u32,
    /// The hypervisor's location in memory.
    pub hypervisor_memory: HvMemoryRegion,
    debug_console: HvConsole,
    pub root_cell: HvCellDesc,
}

} // verus!
