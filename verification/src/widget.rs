//! What every view can be asked about an event.

use vstd::prelude::*;

verus! {

/// A view that is handed events of type `M`.
pub trait EventHandler<M> {
    /// Whether the event goes on to the views below. It does unless the
    /// view says otherwise.
    fn propagate(&self, _event: M) -> (onward: bool)
        default_ensures
            onward,
    {
        true
    }
}

} // verus!
