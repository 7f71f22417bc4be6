use vstd::prelude::*;

pub mod primask;

verus! {

/// Model of the core's interrupt-masking state: the 32-bit PRIMASK register.
/// Only bit 0 is architecturally meaningful; the model keeps the whole word.
pub struct Cpu {
    pub primask: u32,
}

} // verus!
