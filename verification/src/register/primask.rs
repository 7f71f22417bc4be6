use vstd::prelude::*;

use crate::register::Cpu;

verus! {

/// Whether exceptions with configurable priority are currently permitted.
///
/// The naming is inverted with respect to the hardware bit: PRIMASK bit 0
/// set masks those exceptions, so bit 0 == 1 reads as `Inactive`.
#[derive(Clone, Copy, Debug, PartialEq, Eq, Structural)]
pub enum Primask {
    /// All exceptions with configurable priority are active.
    Active,
    /// All exceptions with configurable priority are inactive.
    Inactive,
}

impl Primask {
    /// All exceptions with configurable priority are active.
    pub fn is_active(self) -> (r: bool)
        ensures
            r == (self == Primask::Active),
    {
        self == Primask::Active
    }

    /// All exceptions with configurable priority are inactive.
    pub fn is_inactive(self) -> (r: bool)
        ensures
            r == (self == Primask::Inactive),
    {
        self == Primask::Inactive
    }
}

/// The PRIMASK view of a raw register word: bit 0 set means masked.
pub open spec fn primask_of_bits(bits: u32) -> Primask {
    if bits & 1 == 1 {
        Primask::Inactive
    } else {
        Primask::Active
    }
}

/// Reads the PRIMASK register of the modelled core.
pub fn read(cpu: &Cpu) -> (p: Primask)
    ensures
        p == primask_of_bits(cpu.primask),
{
    if cpu.primask & 1 == 1 {
        Primask::Inactive
    } else {
        Primask::Active
    }
}

/// The value read is `Active` exactly when PRIMASK bit 0 is clear.
pub proof fn lemma_active_iff_bit_clear(bits: u32)
    ensures
        primask_of_bits(bits) == Primask::Active <==> bits & 1 == 0,
{
    assert(bits & 1 == 1 || bits & 1 == 0) by (bit_vector);
}

} // verus!
