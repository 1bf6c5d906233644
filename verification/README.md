# rvmarm

Verified core of an ARMv8 hypervisor that runs at EL2 under the Jailhouse
driver.

- `src/` (Verus): the layout of the per-CPU areas and of the system
  configuration after them (`consts`, `percpu`), the per-CPU bookkeeping
  (entered/activated CPU counts, CPU state), the host Linux context and the
  vCPU created from it (`arch::aarch64`), the configuration structures
  (`config`) and the boot decisions (`boot`).
- `app/`: the image around it: EL2 assembly entry, heap allocator, system
  register access, raw memory and the switches back to Linux.
- `tests/`: concrete checks of the library.
