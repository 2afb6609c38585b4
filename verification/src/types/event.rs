//! Events that notarization operations emit.

use crate::types::object::ObjectID;
use vstd::prelude::*;

verus! {

/// An event emitted by notarization operations.
///
/// Generic wrapper for different event data types.
#[derive(Debug, Clone, PartialEq, Eq)]
pub struct Event<D> {
    pub data: D,
}

/// An event that is emitted when a new dynamic notarization is created.
#[derive(Debug, Clone, Copy, PartialEq, Eq)]
pub struct DynamicNotarizationCreated {
    pub notarization_id: ObjectID,
}

/// An event that is emitted when a new locked notarization is created.
#[derive(Debug, Clone, Copy, PartialEq, Eq)]
pub struct LockedNotarizationCreated {
    pub notarization_id: ObjectID,
}

} // verus!
