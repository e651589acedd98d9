//! The interrupt-masking critical section: the one mutual-exclusion
//! primitive between the timer interrupt and the main loop.
//!
//! The hardware holds a single maskable-interrupt delivery flag; masking it
//! is what makes main-context access to shared state atomic with respect to
//! the interrupt handler.  `InterruptState` is the model of that flag, and
//! every verified function that masks or unmasks threads it through, so the
//! masking discipline is checked rather than assumed.  The single register
//! write each transition stands for is performed outside this crate.

use vstd::prelude::*;

verus! {

/// The processor's maskable-interrupt delivery flag: `enabled` means the
/// timer interrupt may preempt main-context code at any instruction.
pub struct InterruptState {
    pub enabled: bool,
}

/// A scoped token meaning "interrupts are currently masked by me".
/// Single-level only: `start` demands that interrupts are enabled, so two
/// guards can never be open at once in verified code.
pub struct CriticalSection {
    token: (),
}

impl CriticalSection {
    /// Masks all maskable interrupts and returns the guard.  Starting a
    /// second section while one is open is a usage error, excluded by the
    /// precondition.
    pub fn start(ints: &mut InterruptState) -> (guard: CriticalSection)
        requires
            old(ints).enabled,
        ensures
            !final(ints).enabled,
    {
        ints.enabled = false;
        CriticalSection { token: () }
    }

    /// Unmasks interrupts, consuming the guard: interrupt delivery is
    /// restored to enabled immediately, whatever path reached the end of
    /// the section.
    pub fn end(self, ints: &mut InterruptState)
        ensures
            final(ints).enabled,
    {
        ints.enabled = true;
    }
}

/// One operation of a critical-section trace.
pub enum CsOp {
    Start,
    End,
}

/// The interrupt flag after running a trace of critical-section operations
/// from `init`: `Start` masks, `End` unmasks, exactly as the exec
/// transitions `CriticalSection::start` and `CriticalSection::end` do.
pub open spec fn cs_state_after(ops: Seq<CsOp>, init: bool) -> bool
    decreases ops.len(),
{
    if ops.len() == 0 {
        init
    } else {
        ops.last() is End
    }
}

/// A trace without nesting: sections alternate strictly, every `Start`
/// followed by its own `End`.
pub open spec fn cs_trace_well_formed(ops: Seq<CsOp>) -> bool {
    forall|i: int|
        0 <= i < ops.len() ==> ops[i] == (if i % 2 == 0 {
            CsOp::Start
        } else {
            CsOp::End
        })
}

/// For every sequence of `start`/`end` operations without nesting, run
/// from the enabled state: interrupts are disabled throughout each open
/// section (after every odd-length prefix) and restored to enabled
/// immediately after each `end` (after every even-length prefix).
pub proof fn lemma_critical_section_trace(ops: Seq<CsOp>)
    requires
        cs_trace_well_formed(ops),
    ensures
        forall|n: int| 0 <= n <= ops.len() ==> cs_state_after(#[trigger] ops.take(n), true) == (n % 2
            == 0),
{
    assert forall|n: int| 0 <= n <= ops.len() implies cs_state_after(
        #[trigger] ops.take(n),
        true,
    ) == (n % 2 == 0) by {
        if n > 0 {
            assert(ops.take(n).last() == ops[n - 1]);
        }
    }
}

} // verus!
