//! The capability model every provider reports through: an unsupported or
//! unknown reading is never coerced to a made-up value, it is one of these
//! explicit states.

use vstd::prelude::*;

verus! {

/// The outcome of asking a provider for one piece of hardware state.
#[derive(Debug, Clone, PartialEq)]
pub enum CapabilityState<T> {
    /// The capability works and this is the current value.
    Supported(T),
    /// This hardware/kernel combination is confirmed not to expose this capability.
    Unsupported,
    /// The interface was expected to work but reading/parsing it failed.
    Unknown,
    /// Reading or writing this capability requires privileges the caller doesn't have.
    RequiresPrivilege,
    /// The interface answers with this value, but the answer doesn't
    /// necessarily reflect real hardware behavior.
    HardwareDependent(T),
}

impl<T> CapabilityState<T> {
    /// The value carried by `Supported` or `HardwareDependent`.
    pub open spec fn carried(self) -> Option<T> {
        match self {
            CapabilityState::Supported(v) => Some(v),
            CapabilityState::HardwareDependent(v) => Some(v),
            _ => None,
        }
    }
}

} // verus!
