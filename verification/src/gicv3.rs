//! GICv3 interrupt routing between the worlds: which interrupts are signalled to EL3 in each world,
//! and where a pending group 0 interrupt is handled.

use crate::context::World;
use vstd::prelude::*;

verus! {

/// SCR_EL3.IRQ: IRQs are routed to EL3.
pub const SCR_IRQ: u64 = 1 << 1;
/// SCR_EL3.FIQ: FIQs are routed to EL3.
pub const SCR_FIQ: u64 = 1 << 2;

/// The interrupt ID that the GIC reports when no interrupt is pending.
pub const INTID_SPECIAL_NONE: u32 = 1023;
/// The interrupt ID that reports a pending interrupt for the secure world.
pub const INTID_SPECIAL_SECURE: u32 = 1020;
/// The interrupt ID that reports a pending interrupt for the normal world.
pub const INTID_SPECIAL_NONSECURE: u32 = 1021;

/// Specifies where an interrupt should be handled.
#[derive(Debug, Copy, Clone, PartialEq, Eq, Structural)]
pub enum InterruptType {
    /// A group 0 interrupt for EL3.
    El3,
    /// An interrupt for the secure world.
    Secure,
    /// An interrupt for the normal world.
    NonSecure,
    /// No interrupt is pending.
    Invalid,
}

/// SCR_EL3 with the routing model of the world: in the normal world FIQs (group 0 and secure
/// group 1 interrupts) go to EL3 and IRQs (non-secure group 1) stay in the world; in the secure
/// world both stay there (group 0 and non-secure group 1 interrupts are not routed until the
/// normal world runs again).
pub open spec fn spec_routing_model(scr_el3: u64, world: World) -> u64 {
    match world {
        World::NonSecure => (scr_el3 | SCR_FIQ) & !SCR_IRQ,
        _ => scr_el3 & !SCR_IRQ & !SCR_FIQ,
    }
}

/// Configures the interrupt routing model of the world in its SCR_EL3. The realm world has no
/// routing model.
pub fn set_routing_model(scr_el3: &mut u64, world: World)
    requires
        world != World::Realm,
    ensures
        *final(scr_el3) == spec_routing_model(*old(scr_el3), world),
{
    match world {
        World::NonSecure => {
            *scr_el3 = *scr_el3 | SCR_FIQ;
            *scr_el3 = *scr_el3 & !SCR_IRQ;
        },
        _ => {
            *scr_el3 = *scr_el3 & !SCR_IRQ;
            *scr_el3 = *scr_el3 & !SCR_FIQ;
        },
    }
}

/// The type of the highest priority pending group 0 interrupt, from the interrupt ID that the
/// GIC reports for it.
pub open spec fn spec_interrupt_type(int_id: u32) -> InterruptType {
    if int_id == INTID_SPECIAL_NONE {
        InterruptType::Invalid
    } else if int_id == INTID_SPECIAL_SECURE {
        InterruptType::Secure
    } else if int_id == INTID_SPECIAL_NONSECURE {
        InterruptType::NonSecure
    } else {
        InterruptType::El3
    }
}

/// Returns the type of a pending group 0 interrupt with the given interrupt ID.
pub fn interrupt_type(int_id: u32) -> (r: InterruptType)
    ensures
        r == spec_interrupt_type(int_id),
{
    if int_id == INTID_SPECIAL_NONE {
        InterruptType::Invalid
    } else if int_id == INTID_SPECIAL_SECURE {
        InterruptType::Secure
    } else if int_id == INTID_SPECIAL_NONSECURE {
        InterruptType::NonSecure
    } else {
        InterruptType::El3
    }
}

} // verus!
