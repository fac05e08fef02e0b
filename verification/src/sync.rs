//! This module handles synchronization in the kernel.

use vstd::prelude::*;

pub mod global_runtime_configuration;
pub mod mutex;

pub use global_runtime_configuration::GlobalRuntimeConfiguration;
pub use mutex::Mutex;

use crate::arch::Architecture;

verus! {

/// Saves the state when disabling preemption, so it can be restored later.
///
/// Restoration must happen on every code path that suspended preemption,
/// including early failures; consuming the snapshot in `restore` guarantees
/// it happens at most once per suspension.
#[derive(Debug, Default)]
pub struct PreemptionState {
    /// Saves whether interrupts were allowed when preemption was disabled.
    interrupts_enabled: bool,
}

impl PreemptionState {
    /// The interrupt-enable flag captured in this snapshot.
    pub closed spec fn saved_interrupts(&self) -> bool {
        self.interrupts_enabled
    }

    /// Reads the current state of preemptability.
    pub fn current<A: Architecture>(arch: &A) -> (state: PreemptionState)
        requires
            arch.ready(),
        ensures
            state.saved_interrupts() == arch.interrupts_on(),
    {
        PreemptionState { interrupts_enabled: arch.interrupts_enabled() }
    }

    /// Restores the captured state: interrupts become possible again exactly
    /// if they were possible when the snapshot was taken.
    pub fn restore<A: Architecture>(self, arch: &mut A)
        requires
            old(arch).ready(),
        ensures
            final(arch).ready(),
            final(arch).interrupts_on() == self.saved_interrupts(),
            final(arch).console_active() == old(arch).console_active(),
            final(arch).console_log() == old(arch).console_log(),
            final(arch).serial_log() == old(arch).serial_log(),
    {
        arch.set_interrupts_enabled(self.interrupts_enabled);
    }
}

/// Disables preemption, returning the previous preemption state.
///
/// "Disabling preemption" means disabling interrupts on the current core;
/// this is a local-core effect only.
pub fn disable_preemption<A: Architecture>(arch: &mut A) -> (state: PreemptionState)
    requires
        old(arch).ready(),
    ensures
        final(arch).ready(),
        state.saved_interrupts() == old(arch).interrupts_on(),
        !final(arch).interrupts_on(),
        final(arch).console_active() == old(arch).console_active(),
        final(arch).console_log() == old(arch).console_log(),
        final(arch).serial_log() == old(arch).serial_log(),
{
    let preemption_state = PreemptionState::current(arch);

    arch.disable_interrupts();

    preemption_state
}

/// Preemption transparency: a lock acquisition saves the interrupt-enable
/// flag it found, and releasing the guard restores exactly the saved flag, so
/// an acquire-release pair leaves the flag as it was found.
pub proof fn lemma_preemption_transparency(
    before: bool,
    saved: PreemptionState,
    after: bool,
)
    requires
        saved.saved_interrupts() == before,
        after == saved.saved_interrupts(),
    ensures
        after == before,
{
}

} // verus!
