//! The boot-time pipeline as a state machine.
//!
//! Partitioning is boot-time-only and irreversible, and its steps are
//! order-sensitive: memory must be partitioned before peripherals are
//! assigned, the fault policy must be committed before the boundary is
//! crossed, and the crossing is terminal. The tracker below makes the
//! order a checked contract instead of a convention: each step demands
//! the stage the pipeline must be in and moves it one stage forward.

use vstd::prelude::*;

verus! {

/// The stages of the boot prologue, in the only order they may occur.
#[derive(Clone, Copy, PartialEq, Eq, Structural, Debug)]
pub enum BootStage {
    /// Out of reset; nothing committed yet.
    Reset,
    /// Every flash and RAM region attribute is committed.
    MemoryPartitioned,
    /// Every peripheral and interrupt line is assigned to its domain.
    PeripheralsAssigned,
    /// The fault and exception policy is committed.
    PolicyConfigured,
    /// Control has left the Secure domain; terminal from the Secure
    /// core's perspective.
    NonSecureEntered,
}

/// Tracks how far the boot prologue has advanced.
pub struct BootSequence {
    /// The stage reached so far.
    pub stage: BootStage,
}

impl BootSequence {
    /// A pipeline fresh out of reset.
    pub fn new() -> (sequence: Self)
        ensures
            sequence.stage == BootStage::Reset,
    {
        BootSequence { stage: BootStage::Reset }
    }

    /// Records that every region attribute is committed; only possible
    /// straight out of reset, before any later step.
    pub fn mark_memory_partitioned(&mut self)
        requires
            old(self).stage == BootStage::Reset,
        ensures
            final(self).stage == BootStage::MemoryPartitioned,
    {
        self.stage = BootStage::MemoryPartitioned;
    }

    /// Records that every peripheral and interrupt is assigned; demands
    /// that the memory boundary was committed first.
    pub fn mark_peripherals_assigned(&mut self)
        requires
            old(self).stage == BootStage::MemoryPartitioned,
        ensures
            final(self).stage == BootStage::PeripheralsAssigned,
    {
        self.stage = BootStage::PeripheralsAssigned;
    }

    /// Records that the fault and exception policy is committed; demands
    /// that peripherals were assigned first.
    pub fn mark_policy_configured(&mut self)
        requires
            old(self).stage == BootStage::PeripheralsAssigned,
        ensures
            final(self).stage == BootStage::PolicyConfigured,
    {
        self.stage = BootStage::PolicyConfigured;
    }

    /// Records the irreversible boundary crossing; demands the full
    /// prologue before it, and no step can follow it.
    pub fn mark_non_secure_entered(&mut self)
        requires
            old(self).stage == BootStage::PolicyConfigured,
        ensures
            final(self).stage == BootStage::NonSecureEntered,
    {
        self.stage = BootStage::NonSecureEntered;
    }
}

} // verus!
