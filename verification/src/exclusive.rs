//! Interrupt masking around exclusive access to the device.
//!
//! On a single core the interrupt handler is the only other party that can
//! touch the device, so masking interrupts for the length of an access makes
//! it exclusive. Accesses nest: a guard taken while another one is held, or
//! inside the interrupt handler, finds interrupts masked already and must
//! leave them so. Each guard therefore carries the flag as it found it.

use vstd::prelude::*;

verus! {

/// What one guard remembers: whether interrupts were enabled when it was
/// taken.
#[derive(Debug)]
pub struct IntrGuard {
    was_enabled: bool,
}

impl IntrGuard {
    /// The interrupt-enable flag as the guard found it.
    pub closed spec fn view(&self) -> bool {
        self.was_enabled
    }

    /// Takes a guard. `enabled` is the core's interrupt-enable flag as read
    /// just before masking.
    pub fn acquire(enabled: bool) -> (guard: IntrGuard)
        ensures
            guard@ == enabled,
    {
        IntrGuard { was_enabled: enabled }
    }

    /// Gives the guard back. Returns whether interrupts have to be enabled
    /// again: only if they were when the guard was taken.
    pub fn release(self) -> (enable: bool)
        ensures
            enable == self@,
    {
        self.was_enabled
    }
}

/// The interrupt-enable flag while a guard is held: masked.
pub open spec fn flag_inside() -> bool {
    false
}

/// The interrupt-enable flag after a guard is released, given the flag as
/// the guard found it and as it stands at the release.
pub open spec fn flag_after_release(found: bool, now: bool) -> bool {
    found || now
}

/// The interrupt-enable flag after `depth` guards were taken one inside the
/// other and released again in reverse order, starting from `flag`.
pub open spec fn flag_after_nesting(flag: bool, depth: nat) -> bool
    decreases depth,
{
    if depth == 0 {
        flag
    } else {
        flag_after_release(flag, flag_after_nesting(flag_inside(), (depth - 1) as nat))
    }
}

/// Releasing restores what was found. However deep the accesses nest, the
/// flag ends as it began: an outermost guard enables interrupts again only
/// if they were enabled before, and an inner one never does.
pub proof fn lemma_nesting_restores(flag: bool, depth: nat)
    ensures
        flag_after_nesting(flag, depth) == flag,
        depth > 0 ==> !flag_after_nesting(flag_inside(), (depth - 1) as nat),
    decreases depth,
{
    if depth > 0 {
        lemma_nesting_restores(flag_inside(), (depth - 1) as nat);
    }
}

} // verus!
