//! The transaction that updates the state of a notarization.
//!
//! It is only available for dynamic notarizations.

use crate::error::Error;
use crate::operations::compiles_to;
use crate::operations::AdditionalView;
use crate::operations::NotarizationImpl;
use crate::programmable::InstructionView;
use crate::programmable::ObjectRefView;
use crate::programmable::ProgrammableTransaction;
use crate::transactions::cache::served;
use crate::transactions::cache::empty_cell;
use crate::transactions::cache::get;
use crate::transactions::cache::get_or_keep;
use crate::transactions::cache::held;
use tokio::sync::OnceCell;
use crate::types::state::DataView;
use crate::types::state::State;
use crate::types::state::StateView;
use crate::types::object::ObjectID;
use crate::types::object::ObjectRef;
use crate::types::type_tag::TypeTag;
use vstd::prelude::*;

verus! {

/// A transaction that updates the state of an existing notarization.
#[derive(Debug)]
pub struct UpdateState {
    state: State,
    object_id: ObjectID,
    cached_ptb: OnceCell<ProgrammableTransaction>,
}

impl UpdateState {
    /// The state that the transaction sets.
    pub closed spec fn new_state(self) -> StateView<DataView> {
        self.state@
    }

    /// The identifier of the notarization that the transaction works on.
    pub closed spec fn target(self) -> Seq<u8> {
        self.object_id@
    }

    /// The compiled form that the transaction holds, if it has been compiled.
    pub closed spec fn cached(self) -> Option<Seq<InstructionView>> {
        held(self.cached_ptb)
    }

    /// Whether `outcome` is what compiling the transaction gives for a notarization of
    /// type `tag` whose current reference is `notarization`.
    pub open spec fn is_outcome(
        self,
        outcome: Result<ProgrammableTransaction, Error>,
        package: Seq<u8>,
        tag: Seq<char>,
        notarization: ObjectRefView,
    ) -> bool {
        compiles_to(
            outcome,
            package,
            tag,
            notarization,
            "update_state"@,
            AdditionalView::State(self.new_state()),
        )
    }

    /// Creates a new state update transaction.
    pub fn new(state: State, object_id: ObjectID) -> (transaction: Self)
        ensures
            transaction.new_state() == state@,
            transaction.target() == object_id@,
            transaction.cached() is None,
    {
        Self { state, object_id, cached_ptb: empty_cell() }
    }

    /// The identifier of the notarization that the transaction works on: the object whose
    /// type and reference are to be resolved before the transaction is compiled.
    pub fn object_id(&self) -> (id: ObjectID)
        ensures
            id@ == self.target(),
    {
        self.object_id
    }

    /// Makes the programmable transaction for a notarization of type `tag` whose current
    /// reference is `notarization`.
    pub fn make_ptb(&self, package_id: ObjectID, tag: TypeTag, notarization: ObjectRef) -> (transaction:
        Result<ProgrammableTransaction, Error>)
        ensures
            self.is_outcome(transaction, package_id@, tag@, notarization@),
    {
        NotarizationImpl::update_state(package_id, tag, notarization, &self.state)
    }

    /// The compiled form of the transaction, if it has been compiled: with it at hand
    /// nothing needs to be resolved on the ledger.
    pub fn cached_programmable_transaction(&self) -> (held: Option<ProgrammableTransaction>)
        ensures
            match held {
                Some(transaction) => self.cached() == Some(transaction@),
                None => self.cached() is None,
            },
    {
        get(&self.cached_ptb)
    }

    /// Compiles the transaction, or gives the compiled form that it holds.
    ///
    /// The first successful compilation is kept and given again by every later call,
    /// whatever is resolved then. A failure is not kept.
    pub fn build_programmable_transaction(
        &mut self,
        package_id: ObjectID,
        tag: TypeTag,
        notarization: ObjectRef,
    ) -> (transaction: Result<ProgrammableTransaction, Error>)
        ensures
            final(self).target() == old(self).target(),
            final(self).new_state() == old(self).new_state(),
            final(self).cached() == served(
                old(self).cached(),
                match transaction {
                    Ok(built) => Some(built@),
                    Err(_) => None,
                },
            ),
            match old(self).cached() {
                Some(held) => transaction matches Ok(built) && built@ == held,
                None => old(self).is_outcome(transaction, package_id@, tag@, notarization@),
            },
    {
        match get(&self.cached_ptb) {
            Some(held) => Ok(held),
            None => {
                let compiled = self.make_ptb(package_id, tag, notarization);
                get_or_keep(&mut self.cached_ptb, compiled)
            },
        }
    }

    /// Takes the transaction out of use once the ledger has carried it out. There is
    /// nothing to read back.
    pub fn apply(self) -> (applied: Result<(), Error>)
        ensures
            applied is Ok,
    {
        Ok(())
    }
}

} // verus!
