//! The addresses of the sections of the firmware image, as laid out for host builds.

use vstd::prelude::*;

verus! {

/// Returns the start address of the firmware image.
pub fn bl31_start() -> (r: usize)
    ensures
        r == 0x6_0000,
{
    0x6_0000
}

/// Returns the end address of the firmware image.
pub fn bl31_end() -> (r: usize)
    ensures
        r == 0x10_0000,
{
    0x10_0000
}

/// Returns the start address of the code section.
pub fn bl_code_base() -> (r: usize)
    ensures
        r == 0x1_0000,
{
    0x1_0000
}

/// Returns the end address of the code section.
pub fn bl_code_end() -> (r: usize)
    ensures
        r == 0x3_0000,
{
    0x3_0000
}

/// Returns the start address of the read-only data section.
pub fn bl_ro_data_base() -> (r: usize)
    ensures
        r == 0x3_0000,
{
    0x3_0000
}

/// Returns the end address of the read-only data section.
pub fn bl_ro_data_end() -> (r: usize)
    ensures
        r == 0x4_0000,
{
    0x4_0000
}

/// Returns the start address of the second BSS section.
pub fn bss2_start() -> (r: usize)
    ensures
        r == 0,
{
    0
}

/// Returns the end address of the second BSS section.
pub fn bss2_end() -> (r: usize)
    ensures
        r == 0,
{
    0
}

} // verus!
