# rf_a

The verified core of an EL3 runtime firmware (BL31) for Arm A-profile systems, written in Verus.

## Layout

- `src/` — the library, verified by Verus:
  - `smccc`, `services` — SMC Calling Convention values and the dispatch of calls to services,
    the interrupt and trap decisions, and the run loop's world order;
  - `services/arch`, `services/errata_management`, `services/trng` — the Arm architecture calls,
    the errata management interface and the TRNG interface with its entropy ring buffer;
  - `services/psci` — PSCI: call decoding, the power domain tree and its state coordination,
    CPU_ON/OFF/SUSPEND, SYSTEM_SUSPEND and the other calls;
  - `services/ffa`, `services/ffa/spmd` — FF-A call decoding and the SPM dispatcher's state
    machine, with the FF-A register layouts taken from the `arm-ffa` crate;
  - `services/rmmd`, `services/rmmd/smc`, `services/rmmd/manifest` — the RMM-EL3 interface and
    the RMM boot manifest with its checksummed lists;
  - `context`, `exceptions`, `gicv3`, `cpu_extensions` — the lower EL contexts of the worlds,
    exception injection, interrupt routing and the EL3 configuration of CPU extensions;
  - `pagetable`, `pagetable/early_pagetable` — the regions of the boot page table, and the
    compact description of the early page table with its range count;
  - `aarch64`, `cpu`, `errata_framework`, `delay_timer`, `logger`, `layout`, `dram` — cache
    geometry, CPU identification, errata lists, delays, the in-memory log and lazily
    initialised values;
  - `platform` — the FVP, QEMU and unit-test platforms, with the FVP's and QEMU's PSCI
    implementations driving their hardware through traits.
- `tests/` — the tests of the library.
- `app/` — the firmware around the library: the hardware of the current core, the locks the
  cores share the services through, and the loop that enters the lower exception levels.
