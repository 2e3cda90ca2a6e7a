//! Host-facing assembly of the surface driver.

use vstd::prelude::*;

use crate::system::ServoUiSystem;

verus! {

/// What the host registers to embed browser surfaces: building the bundle
/// yields the driver the host must tick, with its surface records, each
/// simulation step.
pub struct ServoUiBundle;

impl ServoUiBundle {
    /// Build the driver this bundle contributes.
    pub fn build(self) -> (s: ServoUiSystem)
        ensures
            s.next_context_id == 1,
    {
        ServoUiSystem::new()
    }
}

} // verus!
