//! The crystal lattice: the shared resource context that tasks are bound to.
//!
//! A lattice is created with a topology and never changes it. The runtime and
//! the tasks bound to it hold it through a reference-counted handle, so it
//! lives as long as its longest-lived holder.

use crate::types::{PatternType, PrismResult};
use std::sync::Arc;
use vstd::prelude::*;

verus! {

/// A lattice with a fixed topology.
#[derive(Debug)]
pub struct Crystal {
    system: PatternType,
}

impl Crystal {
    /// The topology that the lattice was created with.
    pub closed spec fn system_spec(&self) -> PatternType {
        self.system
    }

    /// Creates a lattice of the given topology. Every topology is accepted.
    pub fn new(system: PatternType) -> (r: PrismResult<Crystal>)
        ensures
            r matches Ok(crystal) && crystal.system_spec() == system,
    {
        Ok(Crystal { system })
    }

    /// The topology that the lattice was created with.
    #[verifier::when_used_as_spec(system_spec)]
    pub fn system(&self) -> (system: PatternType)
        ensures
            system == self.system_spec(),
    {
        self.system
    }
}

/// `Arc::clone` makes another handle to the same allocation: the new handle
/// points to the lattice that the given one points to.
#[verifier::external_body]
pub(crate) fn share(handle: &Arc<Crystal>) -> (shared: Arc<Crystal>)
    ensures
        shared == *handle,
{
    Arc::clone(handle)
}

/// `Arc::strong_count` gives the number of handles to the allocation at the
/// moment of the call. The handle it is asked through is one of them, so the
/// number is at least one; nothing more is claimed of it.
#[verifier::external_body]
pub(crate) fn holders(handle: &Arc<Crystal>) -> (count: usize)
    ensures
        count >= 1,
{
    Arc::strong_count(handle)
}

} // verus!
