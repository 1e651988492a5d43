//! Lifecycle events: what the control loop reports of its own transitions.

use vstd::prelude::*;

verus! {

/// A notification of a lifecycle transition. It carries no state.
#[derive(Clone, Copy, Debug, PartialEq, Eq, Structural)]
pub enum LifecycleEvent {
    /// The control loop has begun with a running topology.
    Started,
    /// A graceful stop of the topology has begun.
    Stopped,
    /// A reload has replaced the running configuration.
    Reloaded,
    /// A reload was given up.
    ReloadFailed,
    /// A reload could not be completed, and the topology is shut down.
    RecoveryFailed,
    /// The process terminates at once.
    Quit,
}

} // verus!
