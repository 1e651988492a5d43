//! Abstract lifecycle signals.

use vstd::prelude::*;

verus! {

/// A lifecycle signal, as delivered by the signal stream.
#[derive(Clone, Copy, Debug, PartialEq, Eq, Structural)]
pub enum SignalTo {
    /// Load the configuration again and reconcile the topology with it.
    Reload,
    /// Stop gracefully, draining data that is in flight.
    Shutdown,
    /// Stop at once.
    Quit,
}

} // verus!
