//! Per-CPU data: one area of `PER_CPU_SIZE` bytes for each CPU, holding the
//! CPU's bookkeeping, the saved host context, its vCPU, and its stack.
use crate::arch::aarch64::context::LinuxContext;
use crate::arch::aarch64::vcpu::Vcpu;
use crate::consts::{spec_hv_config_ptr, spec_per_cpu_vaddr, PER_CPU_SIZE};
use crate::error::{HvErrorNum, HvResult};
use vstd::prelude::*;

verus! {

/// Whether the hypervisor runs on a CPU.
#[derive(Debug, PartialEq, Eq, Structural)]
pub enum CpuState {
    HvDisabled,
    HvEnabled,
}

/// The counters that all CPUs share: how many CPUs have entered the
/// hypervisor, and how many have it activated.
#[derive(Debug, Clone, Copy, PartialEq, Eq, Structural)]
pub struct CpuCounters {
    pub entered: u32,
    pub activated: u32,
}

impl CpuCounters {
    /// Counters before any CPU entered.
    pub fn new() -> (counters: Self)
        ensures
            counters.entered == 0,
            counters.activated == 0,
    {
        CpuCounters { entered: 0, activated: 0 }
    }
}

/// The activated-CPU count after one more CPU activates the hypervisor
/// (the counter wraps around, as an atomic `fetch_add` does).
pub open spec fn spec_count_up(count: u32) -> u32 {
    if count == u32::MAX {
        0
    } else {
        (count + 1) as u32
    }
}

/// The activated-CPU count after one CPU deactivates the hypervisor (the
/// counter wraps around, as an atomic `fetch_sub` does).
pub open spec fn spec_count_down(count: u32) -> u32 {
    if count == 0 {
        u32::MAX
    } else {
        (count - 1) as u32
    }
}

/// The counters after `PerCpu::new` with at most `max_cpus` CPUs: one more
/// entered CPU, unless `max_cpus` have entered already.
pub open spec fn spec_enter(counters: CpuCounters, max_cpus: u32) -> CpuCounters {
    if counters.entered >= max_cpus {
        counters
    } else {
        CpuCounters { entered: (counters.entered + 1) as u32, activated: counters.activated }
    }
}

/// The counters after one CPU activates the hypervisor.
pub open spec fn spec_activate(counters: CpuCounters) -> CpuCounters {
    CpuCounters { entered: counters.entered, activated: spec_count_up(counters.activated) }
}

/// The counters after one CPU deactivates the hypervisor.
pub open spec fn spec_deactivate(counters: CpuCounters) -> CpuCounters {
    CpuCounters { entered: counters.entered, activated: spec_count_down(counters.activated) }
}

/// An operation that changes the shared counters.
pub enum CounterStep {
    /// `PerCpu::new` with this many CPUs at most.
    Enter(u32),
    /// `PerCpu::activate_vmm`.
    Activate,
    /// `PerCpu::deactivate_vmm`.
    Deactivate,
}

/// The counters after one step.
pub open spec fn spec_step(counters: CpuCounters, step: CounterStep) -> CpuCounters {
    match step {
        CounterStep::Enter(max_cpus) => spec_enter(counters, max_cpus),
        CounterStep::Activate => spec_activate(counters),
        CounterStep::Deactivate => spec_deactivate(counters),
    }
}

/// The counters after the steps `steps`, first one first.
pub open spec fn spec_run(counters: CpuCounters, steps: Seq<CounterStep>) -> CpuCounters
    decreases steps.len(),
{
    if steps.len() == 0 {
        counters
    } else {
        spec_step(spec_run(counters, steps.drop_last()), steps.last())
    }
}

/// How many `Enter` steps of `steps`, run from `counters`, found fewer than
/// their `max_cpus` CPUs entered and so let one more in.
pub open spec fn spec_admitted(counters: CpuCounters, steps: Seq<CounterStep>) -> nat
    decreases steps.len(),
{
    if steps.len() == 0 {
        0
    } else {
        let before = spec_run(counters, steps.drop_last());
        spec_admitted(counters, steps.drop_last()) + match steps.last() {
            CounterStep::Enter(max_cpus) => if before.entered < max_cpus {
                1nat
            } else {
                0nat
            },
            _ => 0nat,
        }
    }
}

/// How many `Activate` steps `steps` holds.
pub open spec fn spec_activations(steps: Seq<CounterStep>) -> nat
    decreases steps.len(),
{
    if steps.len() == 0 {
        0
    } else {
        spec_activations(steps.drop_last()) + if steps.last() is Activate {
            1nat
        } else {
            0nat
        }
    }
}

/// How many `Deactivate` steps `steps` holds.
pub open spec fn spec_deactivations(steps: Seq<CounterStep>) -> nat
    decreases steps.len(),
{
    if steps.len() == 0 {
        0
    } else {
        spec_deactivations(steps.drop_last()) + if steps.last() is Deactivate {
            1nat
        } else {
            0nat
        }
    }
}

/// Top of the stack in the per-CPU area at `vaddr`: its last 8-byte word.
pub open spec fn spec_stack_top(vaddr: int) -> int {
    vaddr + PER_CPU_SIZE - 8
}

/// Start of the guest register frame in the per-CPU area at `vaddr`: the
/// 32 registers saved right below the stack top.
pub open spec fn spec_guest_reg(vaddr: int) -> int {
    spec_stack_top(vaddr) - 32 * 8
}

/// Data of one CPU, at the start of its per-CPU area.
pub struct PerCpu {
    pub id: u64,
    /// Address of this per-CPU area.
    pub self_vaddr: usize,
    pub state: CpuState,
    pub vcpu: Vcpu,
    linux: LinuxContext,
}

impl PerCpu {
    /// The CPU's number.
    pub closed spec fn spec_id(&self) -> u64 {
        self.id
    }

    /// Address of this per-CPU area.
    pub closed spec fn spec_self_vaddr(&self) -> usize {
        self.self_vaddr
    }

    /// Whether the hypervisor runs on this CPU.
    pub closed spec fn spec_state(&self) -> CpuState {
        self.state
    }

    /// The CPU's virtual CPU.
    pub closed spec fn spec_vcpu(&self) -> Vcpu {
        self.vcpu
    }

    /// The state of the host Linux saved when this CPU entered.
    pub closed spec fn spec_linux(&self) -> LinuxContext {
        self.linux
    }

    /// Whether every field of this block is zero, as the loader leaves the
    /// per-CPU area before any CPU entered.
    pub open spec fn is_zeroed(&self) -> bool {
        &&& self.spec_id() == 0
        &&& self.spec_self_vaddr() == 0
        &&& self.spec_state() == CpuState::HvDisabled
        &&& self.spec_vcpu().is_zeroed()
        &&& self.spec_linux().is_zeroed()
    }

    /// A per-CPU block as the loader leaves it: all of it zero (so the
    /// hypervisor is disabled on it).
    pub fn zeroed() -> (cpu: Self)
        ensures
            cpu.is_zeroed(),
    {
        PerCpu {
            id: 0,
            self_vaddr: 0,
            state: CpuState::HvDisabled,
            vcpu: Vcpu::zeroed(),
            linux: LinuxContext::zeroed(),
        }
    }

    /// Registers CPU `cpu_id` as entered and records its number and address
    /// in its per-CPU block `cpu`, the block of `cpu_id` in the per-CPU array
    /// that starts at `per_cpu_array`; nothing else in the block changes.
    /// Fails with `EINVAL`, and changes nothing, when `max_cpus` CPUs have
    /// entered already.
    pub fn new(
        cpu_id: u64,
        counters: &mut CpuCounters,
        max_cpus: u32,
        per_cpu_array: usize,
        cpu: &mut PerCpu,
    ) -> (ret: HvResult<()>)
        requires
            old(counters).entered < max_cpus ==> spec_per_cpu_vaddr(
                per_cpu_array as int,
                cpu_id as int,
            ) <= usize::MAX,
        ensures
            ret is Err <==> old(counters).entered >= max_cpus,
            *final(counters) == spec_enter(*old(counters), max_cpus),
            ret is Err ==> ret->Err_0 == HvErrorNum::EINVAL && *final(cpu) == *old(cpu),
            ret is Ok ==> {
                &&& final(cpu).spec_id() == cpu_id
                &&& final(cpu).spec_self_vaddr() == spec_per_cpu_vaddr(
                    per_cpu_array as int,
                    cpu_id as int,
                )
                &&& final(cpu).spec_self_vaddr() == per_cpu_array + cpu_id * PER_CPU_SIZE
                &&& final(cpu).spec_state() == old(cpu).spec_state()
                &&& final(cpu).spec_vcpu() == old(cpu).spec_vcpu()
                &&& final(cpu).spec_linux() == old(cpu).spec_linux()
            },
            old(counters).entered <= max_cpus ==> final(counters).entered <= max_cpus,
    {
        if Self::entered_cpus(counters) >= max_cpus {
            return Err(HvErrorNum::EINVAL);
        }
        counters.entered = counters.entered + 1;
        assert(0 <= cpu_id * 0x80000 <= usize::MAX - per_cpu_array);
        assert(cpu_id <= usize::MAX) by (nonlinear_arith)
            requires
                cpu_id * 0x80000 <= usize::MAX,
        ;
        let vaddr = per_cpu_array + cpu_id as usize * PER_CPU_SIZE;
        cpu.id = cpu_id;
        cpu.self_vaddr = vaddr;
        Ok(())
    }

    /// Top of this CPU's stack, in this block, which lies at `self_addr`.
    pub fn stack_top(&self, self_addr: usize) -> (top: usize)
        requires
            self_addr + PER_CPU_SIZE <= usize::MAX,
        ensures
            top == spec_stack_top(self_addr as int),
    {
        self_addr + PER_CPU_SIZE - 8
    }

    /// Where the guest registers of this CPU are saved, in this block, which
    /// lies at `self_addr`.
    pub fn guest_reg(&self, self_addr: usize) -> (frame: usize)
        requires
            self_addr + PER_CPU_SIZE <= usize::MAX,
        ensures
            frame == spec_guest_reg(self_addr as int),
    {
        self_addr + PER_CPU_SIZE - 8 - 32 * 8
    }

    /// The CPU's number.
    pub fn id(&self) -> (id: u64)
        ensures
            id == self.spec_id(),
    {
        self.id
    }

    /// Address of this per-CPU area, as recorded when the CPU entered.
    pub fn self_vaddr(&self) -> (vaddr: usize)
        ensures
            vaddr == self.spec_self_vaddr(),
    {
        self.self_vaddr
    }

    /// Whether the hypervisor runs on this CPU.
    pub fn state(&self) -> (state: &CpuState)
        ensures
            *state == self.spec_state(),
    {
        &self.state
    }

    /// The CPU's virtual CPU.
    pub fn vcpu(&self) -> (vcpu: &Vcpu)
        ensures
            *vcpu == self.spec_vcpu(),
    {
        &self.vcpu
    }

    /// How many CPUs have entered the hypervisor.
    pub fn entered_cpus(counters: &CpuCounters) -> (n: u32)
        ensures
            n == counters.entered,
    {
        counters.entered
    }

    /// How many CPUs have the hypervisor activated.
    pub fn activated_cpus(counters: &CpuCounters) -> (n: u32)
        ensures
            n == counters.activated,
    {
        counters.activated
    }

    /// Enables the hypervisor on this CPU, given the state `linux` of the
    /// host Linux read when the CPU entered: saves it and makes the vCPU that
    /// continues it.
    pub fn init(&mut self, linux: LinuxContext) -> (ret: HvResult<()>)
        ensures
            ret is Ok,
            final(self).spec_id() == old(self).spec_id(),
            final(self).spec_self_vaddr() == old(self).spec_self_vaddr(),
            final(self).spec_state() == CpuState::HvEnabled,
            final(self).spec_linux() == linux,
            final(self).spec_vcpu().is_new_from(linux, old(self).spec_id()),
    {
        self.state = CpuState::HvDisabled;
        self.linux = linux;
        self.vcpu = Vcpu::new(&self.linux, self.id)?;
        self.state = CpuState::HvEnabled;
        Ok(())
    }

    /// Counts this CPU as activated and returns the guest register frame of
    /// this block, which lies at `self_addr`, from which the caller resumes
    /// the host Linux.
    pub fn activate_vmm(&mut self, counters: &mut CpuCounters, self_addr: usize) -> (frame: usize)
        requires
            self_addr + PER_CPU_SIZE <= usize::MAX,
        ensures
            *final(self) == *old(self),
            *final(counters) == spec_activate(*old(counters)),
            frame == spec_guest_reg(self_addr as int),
    {
        counters.activated = counters.activated.wrapping_add(1);
        self.guest_reg(self_addr)
    }

    /// Counts this CPU as no longer activated; the caller then hands EL2
    /// back to Linux. `ret_code` is what the driver asked to return.
    pub fn deactivate_vmm(&mut self, counters: &mut CpuCounters, ret_code: usize) -> (ret: HvResult<
        (),
    >)
        ensures
            ret is Ok,
            *final(self) == *old(self),
            *final(counters) == spec_deactivate(*old(counters)),
    {
        counters.activated = counters.activated.wrapping_sub(1);
        Ok(())
    }
}

/// Address of the data of the CPU that runs this code; until the final EL2
/// page tables map each CPU's own area, that is CPU 0's area.
pub fn this_cpu_data(per_cpu_array: usize) -> (vaddr: usize)
    ensures
        vaddr == spec_per_cpu_vaddr(per_cpu_array as int, 0),
        vaddr == per_cpu_array,
{
    let cpu_id: u64 = 0;
    per_cpu_array + cpu_id as usize * PER_CPU_SIZE
}

/// The per-CPU areas of two different CPUs do not overlap.
pub proof fn lemma_per_cpu_areas_disjoint(per_cpu_array: int, a: int, b: int)
    requires
        0 <= a,
        0 <= b,
        a != b,
    ensures
        spec_per_cpu_vaddr(per_cpu_array, a) + PER_CPU_SIZE <= spec_per_cpu_vaddr(per_cpu_array, b)
            || spec_per_cpu_vaddr(per_cpu_array, b) + PER_CPU_SIZE <= spec_per_cpu_vaddr(
            per_cpu_array,
            a,
        ),
{
    if a < b {
        assert((a + 1) * 0x80000 <= b * 0x80000) by (nonlinear_arith)
            requires
                a + 1 <= b,
        ;
    } else {
        assert((b + 1) * 0x80000 <= a * 0x80000) by (nonlinear_arith)
            requires
                b + 1 <= a,
        ;
    }
}

/// The system configuration starts after the per-CPU area of every CPU
/// that the header counts, right at the end of the last one's.
pub proof fn lemma_config_follows_per_cpu_areas(per_cpu_array: int, max_cpus: int, cpu: int)
    requires
        0 <= cpu < max_cpus,
    ensures
        spec_per_cpu_vaddr(per_cpu_array, cpu) + PER_CPU_SIZE <= spec_hv_config_ptr(
            per_cpu_array,
            max_cpus,
        ),
        spec_per_cpu_vaddr(per_cpu_array, cpu) + PER_CPU_SIZE == spec_hv_config_ptr(
            per_cpu_array,
            max_cpus,
        ) <==> cpu == max_cpus - 1,
{
    assert((cpu + 1) * 0x80000 <= max_cpus * 0x80000) by (nonlinear_arith)
        requires
            cpu + 1 <= max_cpus,
    ;
    assert((cpu + 1) * 0x80000 == max_cpus * 0x80000 <==> cpu + 1 == max_cpus) by (nonlinear_arith)
    ;
}

/// With more CPUs the system configuration lies further on, by one per-CPU
/// area for each CPU more; with as many CPUs it lies at the same address.
pub proof fn lemma_config_moves_with_max_cpus(per_cpu_array: int, a: int, b: int)
    requires
        0 <= a <= b,
    ensures
        spec_hv_config_ptr(per_cpu_array, b) - spec_hv_config_ptr(per_cpu_array, a) == (b - a)
            * PER_CPU_SIZE,
        spec_hv_config_ptr(per_cpu_array, a) <= spec_hv_config_ptr(per_cpu_array, b),
{
    assert(b * 0x80000 - a * 0x80000 == (b - a) * 0x80000 && (b - a) * 0x80000 >= 0)
        by (nonlinear_arith)
        requires
            a <= b,
    ;
}

/// The guest register frame (32 registers of 8 bytes) ends where the stack
/// top begins, and both lie inside the CPU's own area.
pub proof fn lemma_guest_frame_below_stack_top(vaddr: int)
    ensures
        spec_guest_reg(vaddr) + 32 * 8 == spec_stack_top(vaddr),
        vaddr <= spec_guest_reg(vaddr),
        spec_stack_top(vaddr) + 8 == vaddr + PER_CPU_SIZE,
{
}

/// Deactivating after activating leaves the activated-CPU count as it was,
/// and so does activating after deactivating.
pub proof fn lemma_activate_deactivate_restores(count: u32)
    ensures
        spec_count_down(spec_count_up(count)) == count,
        spec_count_up(spec_count_down(count)) == count,
{
}

/// Entering never raises the entered-CPU count beyond `max_cpus`.
pub proof fn lemma_enter_keeps_bound(counters: CpuCounters, max_cpus: u32)
    requires
        counters.entered <= max_cpus,
    ensures
        spec_enter(counters, max_cpus).entered <= max_cpus,
{
}

/// Over any run of the counter operations the entered-CPU count only grows,
/// by one for each entry that found room.
pub proof fn lemma_entered_grows_by_admissions(counters: CpuCounters, steps: Seq<CounterStep>)
    ensures
        spec_run(counters, steps).entered == counters.entered + spec_admitted(counters, steps),
        spec_run(counters, steps).entered >= counters.entered,
    decreases steps.len(),
{
    if steps.len() > 0 {
        lemma_entered_grows_by_admissions(counters, steps.drop_last());
    }
}

/// Over any run of the counter operations with `k` activations and `m`
/// deactivations the activated-CPU count moves from `a0` to
/// `(a0 + k - m) mod 2^32`; entries leave it alone.
pub proof fn lemma_activated_counts_steps(counters: CpuCounters, steps: Seq<CounterStep>)
    ensures
        spec_run(counters, steps).activated as int == (counters.activated as int + spec_activations(
            steps,
        ) - spec_deactivations(steps)) % 0x1_0000_0000,
    decreases steps.len(),
{
    if steps.len() > 0 {
        lemma_activated_counts_steps(counters, steps.drop_last());
        let x = counters.activated as int + spec_activations(steps.drop_last())
            - spec_deactivations(steps.drop_last());
        let prev = spec_run(counters, steps.drop_last()).activated as int;
        assert(prev == x % 0x1_0000_0000);
        match steps.last() {
            CounterStep::Activate => {
                assert(spec_count_up(prev as u32) as int == (x + 1) % 0x1_0000_0000);
            },
            CounterStep::Deactivate => {
                assert(spec_count_down(prev as u32) as int == (x - 1) % 0x1_0000_0000);
            },
            CounterStep::Enter(_) => {},
        }
    }
}

/// With no more deactivations than the starting count and activations make
/// up, the activated-CPU count is exactly `a0 + k - m`.
pub proof fn lemma_activated_counts_steps_exact(counters: CpuCounters, steps: Seq<CounterStep>)
    requires
        spec_deactivations(steps) <= counters.activated + spec_activations(steps),
        counters.activated + spec_activations(steps) - spec_deactivations(steps) <= u32::MAX,
    ensures
        spec_run(counters, steps).activated == counters.activated + spec_activations(steps)
            - spec_deactivations(steps),
{
    lemma_activated_counts_steps(counters, steps);
}

} // verus!
