//! Saved register contexts: the general registers of a guest and the state
//! of the host Linux at the moment the hypervisor took over.
use aarch64_cpu::registers::SPSR_EL2;
use vstd::prelude::*;

verus! {

/// Number of general-purpose registers (x0..x30) that the entry code saves
/// on the Linux stack.
pub const SAVED_LINUX_REGS: usize = 31;

/// `SPSR_EL2` value for returning to EL1 using `SP_EL1` (`M = EL1h`) with
/// debug, SError, IRQ and FIQ exceptions masked (`D`, `A`, `I`, `F` set).
pub open spec fn spec_spsr_el1h_masked() -> u64 {
    0x3c5
}

/// Combines the `SPSR_EL2` field values `M::EL1h`, `D::Masked`, `A::Masked`,
/// `I::Masked` and `F::Masked` of `aarch64_cpu` with the `+` of
/// `tock_registers::fields::FieldValue` and takes the resulting `value`.
/// Claimed: the value is `0x3c5`, which is what the field definitions give
/// (`M` at bits 3:0 with `EL1h = 0b0101`, `F`, `I`, `A`, `D` at bits 6, 7, 8,
/// 9) and `+` ORs the values of its operands.
#[verifier::external_body]
pub(crate) fn spsr_el1h_masked() -> (value: u64)
    ensures
        value == spec_spsr_el1h_masked(),
{
    (SPSR_EL2::M::EL1h + SPSR_EL2::I::Masked + SPSR_EL2::F::Masked + SPSR_EL2::A::Masked
        + SPSR_EL2::D::Masked).value
}

/// General-purpose registers of a guest, with the reason of the last exit.
#[derive(Debug, Clone)]
pub struct GeneralRegisters {
    pub exit_reason: u64,
    pub usr: [u64; 31],
}

impl Default for GeneralRegisters {
    fn default() -> (regs: Self)
        ensures
            regs.exit_reason == 0,
            forall|i: int| 0 <= i < 31 ==> regs.usr[i] == 0,
    {
        GeneralRegisters { exit_reason: 0, usr: [0u64; 31] }
    }
}

/// State of the host Linux saved when the hypervisor is entered: its
/// general registers and the EL2 system registers that describe where it
/// resumes.
#[derive(Debug)]
pub struct LinuxContext {
    pub usr: [u64; 31],
    pub spsr: u64,
    pub elr: u64,
    pub sctlr: u64,
    pub sp: u64,
}

impl LinuxContext {
    /// Whether every register of this context is zero, as in memory that
    /// nothing has written yet.
    pub open spec fn is_zeroed(&self) -> bool {
        &&& forall|i: int| 0 <= i < 31 ==> self.usr[i] == 0
        &&& self.spsr == 0
        &&& self.elr == 0
        &&& self.sctlr == 0
        &&& self.sp == 0
    }

    /// A context whose registers are all zero.
    pub(crate) fn zeroed() -> (ctx: Self)
        ensures
            ctx.is_zeroed(),
    {
        LinuxContext { usr: [0u64; 31], spsr: 0, elr: 0, sctlr: 0, sp: 0 }
    }

    /// A context that resumes at EL1h with all exceptions masked, every
    /// other register zero.
    pub fn new() -> (ctx: Self)
        ensures
            forall|i: int| 0 <= i < 31 ==> ctx.usr[i] == 0,
            ctx.spsr == spec_spsr_el1h_masked(),
            ctx.elr == 0,
            ctx.sctlr == 0,
            ctx.sp == 0,
    {
        LinuxContext { usr: [0u64; 31], spsr: spsr_el1h_masked(), elr: 0, sctlr: 0, sp: 0 }
    }

    /// The context made of the general registers `regs` that the entry
    /// code saved on the Linux stack (x0 first) and of the values read from
    /// `SPSR_EL2`, `ELR_EL2`, `SCTLR_EL2` and `SP`.
    pub fn load_from(regs: &[u64; 31], spsr: u64, elr: u64, sctlr: u64, sp: u64) -> (ctx: Self)
        ensures
            ctx.usr@ == regs@,
            ctx.spsr == spsr,
            ctx.elr == elr,
            ctx.sctlr == sctlr,
            ctx.sp == sp,
    {
        let mut ret = LinuxContext { usr: [0u64; 31], spsr, elr, sctlr, sp };
        for i in 0..SAVED_LINUX_REGS
            invariant
                ret.spsr == spsr,
                ret.elr == elr,
                ret.sctlr == sctlr,
                ret.sp == sp,
                forall|j: int| 0 <= j < i ==> ret.usr[j] == regs[j],
        {
            ret.usr[i] = regs[i];
        }
        assert(ret.usr@ =~= regs@);
        ret
    }
}

} // verus!
