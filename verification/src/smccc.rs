//! Types of the Arm SMC Calling Convention (SMCCC, Arm DEN 0028): function identifiers and the
//! registers returned to the caller of an SMC.

use vstd::prelude::*;

verus! {

broadcast use vstd::array::group_array_axioms;

/// SMCCC return code: success.
pub const SUCCESS: i32 = 0;

/// SMCCC return code: the function is not supported.
pub const NOT_SUPPORTED: i32 = -1;

/// SMCCC return code: the call is not required.
pub const NOT_REQUIRED: i32 = -2;

/// SMCCC return code: a parameter is invalid.
pub const INVALID_PARAMETER: i32 = -3;

/// The largest number of registers that an SMC can return (x0-x17).
pub const MAX_RETURN_REGS: usize = 18;

/// Bit 31 of a function identifier: set for fast calls.
pub const FAST_CALL_BIT: u32 = 0x8000_0000;

/// Bit 30 of a function identifier: set for the SMC64 calling convention.
pub const SMC64_BIT: u32 = 0x4000_0000;

/// Bit 16 of a function identifier: the SVE live state hint (SMCCC v1.3).
pub const SVE_HINT_BIT: u32 = 0x0001_0000;

/// Bits [23:17] of a fast call function identifier, which must be zero.
pub const FAST_CALL_MBZ_MASK: u32 = 0x00fe_0000;

/// The Owning Entity Number of a function identifier (bits [29:24]).
#[derive(Clone, Copy, Debug, PartialEq, Eq, Structural)]
pub struct OwningEntityNumber(pub u8);

/// Owning entity number of Arm Architecture calls.
pub const OEN_ARM_ARCHITECTURE: u8 = 0;
/// Owning entity number of CPU service calls.
pub const OEN_CPU: u8 = 1;
/// Owning entity number of SiP service calls.
pub const OEN_SIP: u8 = 2;
/// Owning entity number of OEM service calls.
pub const OEN_OEM: u8 = 3;
/// Owning entity number of standard secure service calls.
pub const OEN_STANDARD_SECURE: u8 = 4;
/// Owning entity number of standard hypervisor service calls.
pub const OEN_STANDARD_HYPERVISOR: u8 = 5;
/// Owning entity number of vendor specific hypervisor service calls.
pub const OEN_VENDOR_HYPERVISOR: u8 = 6;

/// The kind of an SMC call.
#[derive(Clone, Copy, Debug, PartialEq, Eq, Structural)]
pub enum SmcccCallType {
    /// A fast call using the SMC32 convention.
    Fast32,
    /// A fast call using the SMC64 convention.
    Fast64,
    /// A yielding call.
    Yielding,
}

/// The owning entity number encoded in a function identifier.
pub open spec fn spec_oen(id: u32) -> u8 {
    ((id >> 24u32) & 0x3fu32) as u8
}

/// The call type encoded in a function identifier.
pub open spec fn spec_call_type(id: u32) -> SmcccCallType {
    if id & FAST_CALL_BIT == 0 {
        SmcccCallType::Yielding
    } else if id & SMC64_BIT == 0 {
        SmcccCallType::Fast32
    } else {
        SmcccCallType::Fast64
    }
}

/// Whether a function identifier is well formed: fast calls must have bits [23:17] clear.
pub open spec fn spec_valid(id: u32) -> bool {
    id & FAST_CALL_BIT == 0 || id & FAST_CALL_MBZ_MASK == 0
}

/// An SMC function identifier, as passed in `w0`.
#[derive(Clone, Copy, Debug, PartialEq, Eq, Structural)]
pub struct FunctionId(pub u32);

impl FunctionId {
    /// Returns the Owning Entity Number of the function.
    pub fn oen(self) -> (r: OwningEntityNumber)
        ensures
            r.0 == spec_oen(self.0),
            r.0 < 64,
    {
        let v = self.0;
        assert((v >> 24u32) & 0x3fu32 <= 0x3fu32) by (bit_vector);
        OwningEntityNumber(((v >> 24u32) & 0x3fu32) as u8)
    }

    /// Returns the function number, the lower 16 bits of the identifier.
    pub fn number(self) -> (r: u16)
        ensures
            r == self.0 % 0x1_0000,
    {
        let v = self.0;
        assert(v as u16 == v % 0x1_0000) by (bit_vector);
        v as u16
    }

    /// Returns the call type of the function.
    pub fn call_type(self) -> (r: SmcccCallType)
        ensures
            r == spec_call_type(self.0),
    {
        if self.0 & FAST_CALL_BIT == 0 {
            SmcccCallType::Yielding
        } else if self.0 & SMC64_BIT == 0 {
            SmcccCallType::Fast32
        } else {
            SmcccCallType::Fast64
        }
    }

    /// Returns whether the identifier is well formed.
    pub fn valid(self) -> (r: bool)
        ensures
            r == spec_valid(self.0),
    {
        self.0 & FAST_CALL_BIT == 0 || self.0 & FAST_CALL_MBZ_MASK == 0
    }

    /// Returns whether the SVE hint bit is set.
    pub fn sve_hint(self) -> (r: bool)
        ensures
            r == (self.0 & SVE_HINT_BIT != 0),
    {
        self.0 & SVE_HINT_BIT != 0
    }

    /// Sets the SVE hint bit.
    pub fn set_sve_hint(&mut self)
        ensures
            final(self).0 == old(self).0 | SVE_HINT_BIT,
    {
        self.0 = self.0 | SVE_HINT_BIT;
    }

    /// Clears the SVE hint bit, as the function must be identified as if it were 0.
    pub fn clear_sve_hint(&mut self)
        ensures
            final(self).0 == old(self).0 & !SVE_HINT_BIT,
    {
        self.0 = self.0 & !SVE_HINT_BIT;
    }
}

/// The values returned in x0-x17 by an SMC handler. Only the first `used` registers are written
/// back; the others keep the values that the caller had in them.
#[derive(Clone, Copy, Debug, PartialEq, Eq)]
pub struct SmcReturn {
    values: [u64; 18],
    used: usize,
}

/// The 64-bit value of `x0` that returns a 32-bit signed status code (sign-extended).
pub open spec fn i32_reg(v: i32) -> u64 {
    v as u64
}

impl SmcReturn {
    /// The registers that are written back, in order.
    pub closed spec fn view(&self) -> Seq<u64> {
        self.values@.subrange(0, self.used as int)
    }

    /// Registers past the used ones hold zero, and at most 18 are used.
    pub closed spec fn wf(&self) -> bool {
        &&& self.used <= 18
        &&& forall|i: int| self.used <= i < 18 ==> self.values@[i] == 0
    }

    /// A return value which writes no register.
    pub fn empty() -> (r: Self)
        ensures
            r.wf(),
            r@ == Seq::<u64>::empty(),
    {
        let r = SmcReturn { values: [0u64; 18], used: 0 };
        assert(r@ =~= Seq::<u64>::empty());
        r
    }

    /// Builds a return value from a sequence of registers.
    pub fn from_slice(regs: &[u64]) -> (r: Self)
        requires
            regs@.len() <= 18,
        ensures
            r.wf(),
            r@ == regs@,
    {
        let mut values: [u64; 18] = vstd::array::array_fill_for_copy_types(0u64);
        let mut i: usize = 0;
        while i < regs.len()
            invariant
                i <= regs@.len() <= 18,
                forall|j: int| 0 <= j < i ==> values@[j] == regs@[j],
                forall|j: int| i <= j < 18 ==> values@[j] == 0,
            decreases regs@.len() - i,
        {
            values[i] = regs[i];
            i = i + 1;
        }
        let r = SmcReturn { values, used: regs.len() };
        assert(r@ =~= regs@);
        r
    }

    /// Returns a single register holding the given 64-bit value.
    pub fn from_u64(v: u64) -> (r: Self)
        ensures
            r.wf(),
            r@ == seq![v],
    {
        let one: [u64; 1] = [v];
        let r = Self::from_slice(&one);
        assert(one@ =~= seq![v]);
        r
    }

    /// Returns a single register holding the given 32-bit unsigned value, zero-extended.
    pub fn from_u32(v: u32) -> (r: Self)
        ensures
            r.wf(),
            r@ == seq![v as u64],
    {
        Self::from_u64(v as u64)
    }

    /// Returns a single register holding the given status code, sign-extended to 64 bits.
    pub fn from_i32(v: i32) -> (r: Self)
        ensures
            r.wf(),
            r@ == seq![i32_reg(v)],
    {
        Self::from_u64(v as u64)
    }

    /// The number of registers written back.
    pub fn len(&self) -> (r: usize)
        requires
            self.wf(),
        ensures
            r == self@.len(),
            r <= 18,
    {
        self.used
    }

    /// Returns whether no register is written back.
    pub fn is_empty(&self) -> (r: bool)
        requires
            self.wf(),
        ensures
            r == (self@.len() == 0),
    {
        self.used == 0
    }

    /// Returns a copy of the registers that are written back.
    pub fn values(&self) -> (r: Vec<u64>)
        requires
            self.wf(),
        ensures
            r@ == self@,
    {
        let mut out: Vec<u64> = Vec::new();
        let mut i: usize = 0;
        while i < self.used
            invariant
                self.wf(),
                i <= self.used,
                out@ =~= self.values@.subrange(0, i as int),
            decreases self.used - i,
        {
            out.push(self.values[i]);
            i = i + 1;
        }
        out
    }

    /// Returns the register at the given index, or 0 if it is not written back.
    pub fn value(&self, index: usize) -> (r: u64)
        requires
            self.wf(),
        ensures
            index < self@.len() ==> r == self@[index as int],
            index >= self@.len() ==> r == 0,
    {
        if index < 18 {
            self.values[index]
        } else {
            0
        }
    }
}

} // verus!
