//! Virtual CPU: the state that the hypervisor keeps for the guest running on
//! one physical CPU.
use super::context::{spec_spsr_el1h_masked, GeneralRegisters, LinuxContext};
use crate::error::HvResult;
use vstd::prelude::*;

verus! {

pub struct Vcpu {
    /// The guest's general registers, saved on each VM exit and restored on
    /// return to the guest.
    guest_regs: GeneralRegisters,
    guest_sp: u64,
    pub elr: u64,
    spsr: u64,
    host_stack_top: u64,
    id_aa64mmfr0: u64,
    pub cpu_id: u64,
}

impl Vcpu {
    /// The guest's general registers.
    pub closed spec fn spec_guest_regs(&self) -> GeneralRegisters {
        self.guest_regs
    }

    /// The guest's stack pointer.
    pub closed spec fn spec_guest_sp(&self) -> u64 {
        self.guest_sp
    }

    /// The guest's saved program status.
    pub closed spec fn spec_spsr(&self) -> u64 {
        self.spsr
    }

    /// Top of the hypervisor stack used while this vCPU runs.
    pub closed spec fn spec_host_stack_top(&self) -> u64 {
        self.host_stack_top
    }

    /// The guest's exception return address.
    pub closed spec fn spec_elr(&self) -> u64 {
        self.elr
    }

    /// The physical CPU this vCPU runs on.
    pub closed spec fn spec_cpu_id(&self) -> u64 {
        self.cpu_id
    }

    /// Saved `ID_AA64MMFR0_EL1`.
    pub closed spec fn spec_id_aa64mmfr0(&self) -> u64 {
        self.id_aa64mmfr0
    }

    /// Whether this vCPU is the one that `Vcpu::new` makes from `linux` for
    /// CPU `cpu_id`: the guest starts with the general registers of Linux,
    /// a zero exit reason, at EL1h with exceptions masked, and every other
    /// register zero.
    pub open spec fn is_new_from(&self, linux: LinuxContext, cpu_id: u64) -> bool {
        &&& self.spec_guest_regs().exit_reason == 0
        &&& self.spec_guest_regs().usr@ == linux.usr@
        &&& self.spec_guest_sp() == 0
        &&& self.spec_elr() == 0
        &&& self.spec_spsr() == spec_spsr_el1h_masked()
        &&& self.spec_host_stack_top() == 0
        &&& self.spec_id_aa64mmfr0() == 0
        &&& self.spec_cpu_id() == cpu_id
    }

    /// Whether every field of this vCPU is zero, as in memory that nothing
    /// has written yet.
    pub open spec fn is_zeroed(&self) -> bool {
        &&& self.spec_guest_regs().exit_reason == 0
        &&& forall|i: int| 0 <= i < 31 ==> self.spec_guest_regs().usr[i] == 0
        &&& self.spec_guest_sp() == 0
        &&& self.spec_elr() == 0
        &&& self.spec_spsr() == 0
        &&& self.spec_host_stack_top() == 0
        &&& self.spec_id_aa64mmfr0() == 0
        &&& self.spec_cpu_id() == 0
    }

    /// A vCPU whose fields are all zero.
    pub(crate) fn zeroed() -> (vcpu: Self)
        ensures
            vcpu.is_zeroed(),
    {
        Vcpu {
            guest_regs: GeneralRegisters::default(),
            guest_sp: 0,
            elr: 0,
            spsr: 0,
            host_stack_top: 0,
            id_aa64mmfr0: 0,
            cpu_id: 0,
        }
    }

    /// Creates the vCPU of CPU `cpu_id`, which starts the guest where the
    /// host Linux `linux` was, with its general registers.
    pub fn new(linux: &LinuxContext, cpu_id: u64) -> (ret: HvResult<Self>)
        ensures
            ret is Ok,
            ret->Ok_0.is_new_from(*linux, cpu_id),
    {
        let mut ret = Self {
            guest_regs: GeneralRegisters::default(),
            guest_sp: 0,
            elr: 0,
            spsr: super::context::spsr_el1h_masked(),
            host_stack_top: 0,
            id_aa64mmfr0: 0,
            cpu_id,
        };
        for i in 0..31
            invariant
                ret.guest_regs.exit_reason == 0,
                ret.guest_sp == 0,
                ret.elr == 0,
                ret.spsr == spec_spsr_el1h_masked(),
                ret.host_stack_top == 0,
                ret.id_aa64mmfr0 == 0,
                ret.cpu_id == cpu_id,
                forall|j: int| 0 <= j < i ==> ret.guest_regs.usr[j] == linux.usr[j],
        {
            ret.guest_regs.usr[i] = linux.usr[i];
        }
        assert(ret.guest_regs.usr@ =~= linux.usr@);
        Ok(ret)
    }

    /// The physical CPU this vCPU runs on.
    pub fn cpu_id(&self) -> (id: u64)
        ensures
            id == self.spec_cpu_id(),
    {
        self.cpu_id
    }

    /// The guest's exception return address.
    pub fn elr(&self) -> (elr: u64)
        ensures
            elr == self.spec_elr(),
    {
        self.elr
    }

    /// The guest's general registers.
    pub fn regs(&self) -> (regs: &GeneralRegisters)
        ensures
            *regs == self.spec_guest_regs(),
    {
        &self.guest_regs
    }

    /// The guest's general registers, for the caller to change; no other
    /// field of the vCPU changes.
    pub fn regs_mut(&mut self) -> (regs: &mut GeneralRegisters)
        ensures
            *regs == old(self).spec_guest_regs(),
            final(self).spec_guest_regs() == *final(regs),
            final(self).spec_guest_sp() == old(self).spec_guest_sp(),
            final(self).spec_elr() == old(self).spec_elr(),
            final(self).spec_spsr() == old(self).spec_spsr(),
            final(self).spec_host_stack_top() == old(self).spec_host_stack_top(),
            final(self).spec_id_aa64mmfr0() == old(self).spec_id_aa64mmfr0(),
            final(self).spec_cpu_id() == old(self).spec_cpu_id(),
    {
        &mut self.guest_regs
    }
}

} // verus!
