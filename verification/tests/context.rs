use rvmarm::arch::aarch64::context::{GeneralRegisters, LinuxContext, SAVED_LINUX_REGS};
use rvmarm::arch::aarch64::vcpu::Vcpu;
use rvmarm::boot::{arch_handle_exit, is_primary_cpu, primary_init_early};

#[test]
fn new_linux_context_resumes_at_el1h_masked() {
    let ctx = LinuxContext::new();
    // M = EL1h (0b0101), F, I, A, D masked (bits 6..9).
    assert_eq!(ctx.spsr, 0x3c5);
    assert_eq!(ctx.usr, [0u64; 31]);
    assert_eq!((ctx.elr, ctx.sctlr, ctx.sp), (0, 0, 0));
}

#[test]
fn load_from_copies_saved_registers() {
    assert_eq!(SAVED_LINUX_REGS, 31);
    let mut regs = [0u64; 31];
    for (i, r) in regs.iter_mut().enumerate() {
        *r = (i as u64) << 8;
    }
    let ctx = LinuxContext::load_from(&regs, 0x3c5, 0x8008_0000, 0x30c5_0838, 0xffff_8000_1000_0000);
    assert_eq!(ctx.usr, regs);
    assert_eq!(ctx.usr[30], 30 << 8);
    assert_eq!(ctx.spsr, 0x3c5);
    assert_eq!(ctx.elr, 0x8008_0000);
    assert_eq!(ctx.sctlr, 0x30c5_0838);
    assert_eq!(ctx.sp, 0xffff_8000_1000_0000);
}

#[test]
fn default_general_registers_are_zero() {
    let regs = GeneralRegisters::default();
    assert_eq!(regs.exit_reason, 0);
    assert_eq!(regs.usr, [0u64; 31]);
}

#[test]
fn vcpu_starts_from_linux_registers() {
    let mut regs = [0u64; 31];
    regs[0] = 7;
    regs[30] = 0xdead_beef;
    let linux = LinuxContext::load_from(&regs, 0x5, 0x1234, 0, 0x9000);
    let mut vcpu = Vcpu::new(&linux, 2).unwrap();
    assert_eq!(vcpu.cpu_id(), 2);
    assert_eq!(vcpu.regs().usr, regs);
    assert_eq!(vcpu.regs().exit_reason, 0);
    assert_eq!(vcpu.elr, 0);
    vcpu.regs_mut().usr[1] = 42;
    vcpu.regs_mut().exit_reason = 0x16;
    assert_eq!(vcpu.regs().usr[1], 42);
    assert_eq!(vcpu.regs().usr[0], 7);
    assert_eq!(vcpu.regs().exit_reason, 0x16);
    assert_eq!(vcpu.cpu_id(), 2);
}

#[test]
fn boot_decisions() {
    assert!(is_primary_cpu(0));
    assert!(!is_primary_cpu(1));
    assert!(!is_primary_cpu(15));
    assert_eq!(primary_init_early(), Ok(()));
    assert_eq!(arch_handle_exit(), Ok(()));
}
