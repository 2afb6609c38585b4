//! The metadata that is fixed when a notarization is created.

use crate::types::text_of;
use crate::types::timelock::LockMetadata;
use vstd::prelude::*;

verus! {

/// The immutable metadata of a notarization.
#[derive(Debug, Clone, PartialEq)]
pub struct ImmutableMetadata {
    /// Timestamp when the `Notarization` was created
    pub created_at: u64,
    /// Description of the `Notarization`
    pub description: Option<String>,
    /// Optional lock metadata for `Notarization`
    pub locking: Option<LockMetadata>,
}

/// What an `ImmutableMetadata` value holds.
pub struct ImmutableMetadataView {
    pub created_at: u64,
    pub description: Option<Seq<char>>,
    pub locking: Option<LockMetadata>,
}

impl View for ImmutableMetadata {
    type V = ImmutableMetadataView;

    open spec fn view(&self) -> ImmutableMetadataView {
        ImmutableMetadataView {
            created_at: self.created_at,
            description: text_of(self.description),
            locking: self.locking,
        }
    }
}

} // verus!
