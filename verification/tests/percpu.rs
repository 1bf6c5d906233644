use rvmarm::arch::aarch64::context::LinuxContext;
use rvmarm::error::HvErrorNum;
use rvmarm::percpu::{CpuCounters, CpuState, PerCpu};

/// Enters CPU `cpu_id` into a zero-filled block and returns the block.
fn enter(
    cpu_id: u64,
    counters: &mut CpuCounters,
    max_cpus: u32,
    per_cpu_array: usize,
) -> Result<PerCpu, HvErrorNum> {
    let mut cpu = PerCpu::zeroed();
    PerCpu::new(cpu_id, counters, max_cpus, per_cpu_array, &mut cpu).map(|_| cpu)
}


#[test]
fn new_cpu_is_entered_and_disabled() {
    let mut counters = CpuCounters::new();
    let cpu = enter(5, &mut counters, 8, 0x4000_0000).unwrap();
    assert_eq!(cpu.id, 5);
    assert_eq!(cpu.self_vaddr, 0x4000_0000 + 5 * 0x8_0000);
    assert_eq!(cpu.state, CpuState::HvDisabled);
    assert_eq!(cpu.vcpu.cpu_id(), 0);
    assert_eq!(cpu.vcpu.regs().usr, [0u64; 31]);
    assert_eq!(PerCpu::entered_cpus(&counters), 1);
    assert_eq!(PerCpu::activated_cpus(&counters), 0);
}

#[test]
fn new_fails_once_max_cpus_entered() {
    let mut counters = CpuCounters::new();
    assert!(enter(0, &mut counters, 2, 0x1000_0000).is_ok());
    assert!(enter(1, &mut counters, 2, 0x1000_0000).is_ok());
    assert_eq!(PerCpu::entered_cpus(&counters), 2);
    let third = enter(2, &mut counters, 2, 0x1000_0000);
    assert!(matches!(third, Err(HvErrorNum::EINVAL)));
    assert_eq!(PerCpu::entered_cpus(&counters), 2);
}

#[test]
fn new_with_no_cpus_allowed_fails() {
    let mut counters = CpuCounters::new();
    assert!(matches!(
        enter(0, &mut counters, 0, 0x1000_0000),
        Err(HvErrorNum::EINVAL)
    ));
    assert_eq!(counters, CpuCounters { entered: 0, activated: 0 });
}

#[test]
fn new_rejected_past_max_even_if_address_would_overflow() {
    let mut counters = CpuCounters { entered: 4, activated: 1 };
    let r = enter(u64::MAX, &mut counters, 4, usize::MAX);
    assert!(matches!(r, Err(HvErrorNum::EINVAL)));
    assert_eq!(counters, CpuCounters { entered: 4, activated: 1 });
}

#[test]
fn entered_count_never_exceeds_max() {
    let mut counters = CpuCounters::new();
    for id in 0..10u64 {
        let _ = enter(id, &mut counters, 3, 0x1000_0000);
        assert!(counters.entered <= 3);
    }
    assert_eq!(counters.entered, 3);
}

#[test]
fn init_enables_the_hypervisor() {
    let mut counters = CpuCounters::new();
    let mut cpu = enter(3, &mut counters, 4, 0x1000_0000).unwrap();
    let mut regs = [0u64; 31];
    for (i, r) in regs.iter_mut().enumerate() {
        *r = 100 + i as u64;
    }
    let linux = LinuxContext::load_from(&regs, 0x3c5, 0xffff_0000_1234_0000, 0x30d0_1805, 0x8000);
    assert!(cpu.init(linux).is_ok());
    assert_eq!(cpu.state, CpuState::HvEnabled);
    assert_eq!(*cpu.state(), CpuState::HvEnabled);
    assert_eq!(cpu.id(), 3);
    assert_eq!(cpu.vcpu().cpu_id(), 3);
    assert_eq!(cpu.vcpu().elr(), 0);
    assert_eq!(cpu.id, 3);
    assert_eq!(cpu.self_vaddr, 0x1000_0000 + 3 * 0x8_0000);
    assert_eq!(cpu.vcpu.cpu_id(), 3);
    assert_eq!(cpu.vcpu.cpu_id, 3);
    assert_eq!(cpu.vcpu.elr, 0);
    assert_eq!(cpu.vcpu.regs().usr, regs);
    assert_eq!(cpu.vcpu.regs().exit_reason, 0);
}

#[test]
fn activate_then_deactivate_restores_count() {
    let mut counters = CpuCounters::new();
    let mut cpu = enter(0, &mut counters, 1, 0x1000_0000).unwrap();
    let frame = cpu.activate_vmm(&mut counters, 0x1000_0000);
    assert_eq!(frame, 0x1000_0000 + 0x8_0000 - 8 - 256);
    assert_eq!(frame, cpu.guest_reg(0x1000_0000));
    assert_eq!(PerCpu::activated_cpus(&counters), 1);
    assert!(cpu.deactivate_vmm(&mut counters, 0).is_ok());
    assert_eq!(PerCpu::activated_cpus(&counters), 0);
    assert_eq!(PerCpu::entered_cpus(&counters), 1);
    assert_eq!(cpu.state, CpuState::HvDisabled);
}

#[test]
fn activated_count_wraps_around() {
    let mut counters = CpuCounters { entered: 1, activated: 0 };
    let mut cpu = enter(0, &mut CpuCounters::new(), 1, 0x1000_0000).unwrap();
    assert!(cpu.deactivate_vmm(&mut counters, 0).is_ok());
    assert_eq!(counters.activated, u32::MAX);
    cpu.activate_vmm(&mut counters, 0x1000_0000);
    assert_eq!(counters.activated, 0);
    assert_eq!(counters.entered, 1);
}

#[test]
fn new_keeps_the_rest_of_the_block() {
    let mut counters = CpuCounters::new();
    let mut cpu = enter(1, &mut counters, 4, 0x1000_0000).unwrap();
    let regs = [9u64; 31];
    let linux = LinuxContext::load_from(&regs, 0x3c5, 0x4000, 0, 0x8000);
    assert!(cpu.init(linux).is_ok());
    assert_eq!(cpu.state, CpuState::HvEnabled);
    // Entering again into the same block changes only its number and address.
    assert!(PerCpu::new(2, &mut counters, 4, 0x1000_0000, &mut cpu).is_ok());
    assert_eq!(cpu.id, 2);
    assert_eq!(cpu.self_vaddr, 0x1000_0000 + 2 * 0x8_0000);
    assert_eq!(cpu.state, CpuState::HvEnabled);
    assert_eq!(cpu.vcpu.cpu_id(), 1);
    assert_eq!(cpu.vcpu.regs().usr, regs);
    assert_eq!(PerCpu::entered_cpus(&counters), 2);
}

#[test]
fn refused_new_leaves_block_unchanged() {
    let mut counters = CpuCounters { entered: 2, activated: 0 };
    let mut cpu = PerCpu::zeroed();
    assert!(matches!(
        PerCpu::new(7, &mut counters, 2, 0x1000_0000, &mut cpu),
        Err(HvErrorNum::EINVAL)
    ));
    assert_eq!(cpu.id, 0);
    assert_eq!(cpu.self_vaddr, 0);
    assert_eq!(cpu.state, CpuState::HvDisabled);
}

#[test]
fn zeroed_block_is_disabled() {
    let cpu = PerCpu::zeroed();
    assert_eq!(cpu.id, 0);
    assert_eq!(cpu.self_vaddr, 0);
    assert_eq!(cpu.state, CpuState::HvDisabled);
    assert_eq!(cpu.vcpu.cpu_id(), 0);
    assert_eq!(cpu.vcpu.regs().usr, [0u64; 31]);
}

#[test]
fn activated_count_after_many_steps() {
    let mut counters = CpuCounters { entered: 3, activated: 2 };
    let mut cpu = PerCpu::zeroed();
    assert!(PerCpu::new(0, &mut counters, 8, 0x1000_0000, &mut cpu).is_ok());
    for _ in 0..5 {
        cpu.activate_vmm(&mut counters, 0x1000_0000);
    }
    for _ in 0..3 {
        assert!(cpu.deactivate_vmm(&mut counters, 0).is_ok());
    }
    // 2 + 5 - 3; entering left it alone, and the entered count only grew.
    assert_eq!(PerCpu::activated_cpus(&counters), 4);
    assert_eq!(PerCpu::entered_cpus(&counters), 4);
    for _ in 0..7 {
        assert!(cpu.deactivate_vmm(&mut counters, 0).is_ok());
    }
    // (4 - 7) mod 2^32
    assert_eq!(PerCpu::activated_cpus(&counters), u32::MAX - 2);
}
