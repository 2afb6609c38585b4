//! The notarization record as it is read back from the ledger.

use crate::types::metadata::ImmutableMetadata;
use crate::types::metadata::ImmutableMetadataView;
use crate::types::object::ObjectID;
use crate::types::state::DataView;
use crate::types::state::State;
use crate::types::state::StateView;
use crate::types::text_of;
use crate::types::NotarizationMethod;
use vstd::prelude::*;

verus! {

/// A notarization record stored on the blockchain.
#[derive(Debug, Clone, PartialEq)]
pub struct OnChainNotarization {
    /// The unique identifier of the notarization.
    pub id: ObjectID,
    /// The state of the notarization.
    pub state: State,
    /// The immutable metadata of the notarization.
    pub immutable_metadata: ImmutableMetadata,
    /// The updatable metadata of the notarization.
    pub updatable_metadata: Option<String>,
    /// The timestamp of the last state change.
    pub last_state_change_at: u64,
    /// The number of state changes.
    pub state_version_count: u64,
    /// The method of the notarization.
    pub method: NotarizationMethod,
}

/// What an `OnChainNotarization` value holds.
pub struct OnChainNotarizationView {
    pub id: Seq<u8>,
    pub state: StateView<DataView>,
    pub immutable_metadata: ImmutableMetadataView,
    pub updatable_metadata: Option<Seq<char>>,
    pub last_state_change_at: u64,
    pub state_version_count: u64,
    pub method: NotarizationMethod,
}

impl View for OnChainNotarization {
    type V = OnChainNotarizationView;

    open spec fn view(&self) -> OnChainNotarizationView {
        OnChainNotarizationView {
            id: self.id@,
            state: self.state@,
            immutable_metadata: self.immutable_metadata@,
            updatable_metadata: text_of(self.updatable_metadata),
            last_state_change_at: self.last_state_change_at,
            state_version_count: self.state_version_count,
            method: self.method,
        }
    }
}

} // verus!
