use vstd::prelude::*;

use crate::exception::Handler;
use crate::exception::Vector;
use crate::register::Cpu;
use crate::register::primask::Primask;
use crate::register::primask::primask_of_bits;
use crate::register::primask::read;

verus! {

/// Builds the 240-slot external interrupt table: every slot dispatches
/// through the shared interrupt trampoline, so no slot is ever null.
pub fn interrupts_table() -> (t: Vec<Vector>)
    ensures
        t@.len() == 240,
        forall|i: int| 0 <= i < 240 ==> t@[i] == Vector::Handler(Handler::IrqTrampoline),
{
    let mut t: Vec<Vector> = Vec::new();
    let mut k: usize = 0;
    while k < 240
        invariant
            k <= 240,
            t@.len() == k,
            forall|i: int| 0 <= i < k ==> t@[i] == Vector::Handler(Handler::IrqTrampoline),
        decreases 240 - k,
    {
        t.push(Vector::Handler(Handler::IrqTrampoline));
        k = k + 1;
    }
    t
}

/// Zero-sized witness that interrupts are disabled on this core.
///
/// A value is constructed only inside `free`, which lends it to the closure
/// it runs; the token cannot outlive that call stack.
pub struct CriticalSection {
    _witness: (),
}

/// The PRIMASK word after `disable` runs: bit 0 set, the rest untouched.
pub open spec fn after_disable(p: u32) -> u32 {
    p | 1
}

/// The PRIMASK word after `enable` runs: bit 0 clear, the rest untouched.
pub open spec fn after_enable(p: u32) -> u32 {
    p & 0xFFFF_FFFE
}

/// The PRIMASK word after the restore step of `free`: re-enabled only when
/// the snapshot taken before the critical section was `Active`.
pub open spec fn after_restore(p: u32, snapshot: Primask) -> u32 {
    if snapshot == Primask::Active {
        after_enable(p)
    } else {
        p
    }
}

/// Masks all exceptions with configurable priority (`CPSID I`).
/// Idempotent; never fails.
pub fn disable(cpu: &mut Cpu)
    ensures
        final(cpu).primask == after_disable(old(cpu).primask),
        primask_of_bits(final(cpu).primask) == Primask::Inactive,
{
    cpu.primask = cpu.primask | 1;
    proof {
        let p = old(cpu).primask;
        assert((p | 1) & 1 == 1) by (bit_vector);
    }
}

/// Unmasks all exceptions with configurable priority (`CPSIE I`).
///
/// Calling this inside a nested critical section breaks the nesting
/// invariant of the enclosing callers; `free` restores its snapshot instead
/// of calling this unconditionally.
pub fn enable(cpu: &mut Cpu)
    ensures
        final(cpu).primask == after_enable(old(cpu).primask),
        primask_of_bits(final(cpu).primask) == Primask::Active,
{
    cpu.primask = cpu.primask & 0xFFFF_FFFE;
    proof {
        let p = old(cpu).primask;
        assert((p & 0xFFFF_FFFE) & 1 == 0) by (bit_vector);
    }
}

/// Runs `f` with interrupts globally disabled and restores the prior state.
///
/// The body receives a borrowed `CriticalSection` token as witness; on exit
/// the PRIMASK word is exactly the one observed immediately before the
/// call, so nesting is safe: an inner `free` snapshots `Inactive` and
/// leaves interrupts masked for the remainder of the outer section.
pub fn free<F, R>(cpu: &mut Cpu, f: F) -> (r: R) where F: FnOnce(&CriticalSection) -> R
    requires
        forall|cs: &CriticalSection| call_requires(f, (cs,)),
    ensures
        final(cpu).primask == old(cpu).primask,
        exists|cs: &CriticalSection| call_ensures(f, (cs,), r),
{
    let snapshot = read(cpu);
    disable(cpu);
    let token = CriticalSection { _witness: () };
    let r = f(&token);
    if snapshot.is_active() {
        enable(cpu);
    }
    proof {
        lemma_restore_after_disable(old(cpu).primask);
    }
    r
}

/// Default handler for external interrupts: does nothing.
pub fn irq_handler(_irq: u8) {
}

/// Restoring right after a disable is the identity on the PRIMASK word:
/// this is why `free` leaves the final PRIMASK value equal to the value
/// observed immediately before the call.
pub proof fn lemma_restore_after_disable(p: u32)
    ensures
        after_restore(after_disable(p), primask_of_bits(p)) == p,
{
    assert(p & 1 == 1 || p & 1 == 0) by (bit_vector);
    assert(p & 1 == 0 ==> (p | 1) & 0xFFFF_FFFE == p) by (bit_vector);
    assert(p & 1 == 1 ==> p | 1 == p) by (bit_vector);
}

/// Disabling interrupts twice leaves the same PRIMASK word as disabling
/// them once.
pub proof fn lemma_disable_idempotent(p: u32)
    ensures
        after_disable(after_disable(p)) == after_disable(p),
{
    assert((p | 1) | 1 == p | 1) by (bit_vector);
}

/// Nested critical sections never re-enable interrupts prematurely: with
/// `free` nested inside `free`, the inner body runs with interrupts
/// masked, the inner restore leaves them masked, and the outer restore
/// brings back exactly the PRIMASK word observed before the outer call.
pub proof fn lemma_nested_free(p0: u32)
    ensures
        ({
            let p1 = after_disable(p0);
            let p2 = after_disable(p1);
            let p3 = after_restore(p2, primask_of_bits(p1));
            &&& primask_of_bits(p2) == Primask::Inactive
            &&& p3 == p2
            &&& primask_of_bits(p3) == Primask::Inactive
            &&& after_restore(p3, primask_of_bits(p0)) == p0
        }),
{
    assert(p0 & 1 == 1 || p0 & 1 == 0) by (bit_vector);
    assert((p0 | 1) & 1 == 1) by (bit_vector);
    assert(((p0 | 1) | 1) & 1 == 1) by (bit_vector);
    assert(p0 & 1 == 0 ==> ((p0 | 1) | 1) & 0xFFFF_FFFE == p0) by (bit_vector);
    assert(p0 & 1 == 1 ==> (p0 | 1) | 1 == p0) by (bit_vector);
}

} // verus!
