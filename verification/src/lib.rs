//! Verified core of an EL3 firmware for Arm A-profile systems: SMC dispatch, the Arm architecture,
//! errata management, TRNG, PSCI and RMM services, early page table generation and the other
//! computations that the firmware performs between hardware accesses.

pub mod aarch64;
pub mod context;
pub mod cpu;
pub mod cpu_extensions;
pub mod delay_timer;
pub mod dram;
pub mod errata_framework;
pub mod exceptions;
pub mod gicv3;
pub mod layout;
pub mod logger;
pub mod platform;
pub mod services;
pub mod smccc;
pub mod pagetable;
