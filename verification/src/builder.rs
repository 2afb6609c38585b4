//! A type-safe, fluent builder for creating notarizations.
//!
//! The method is fixed when the builder is made and carried in its type: a delete lock
//! can only be set on a builder for a locked notarization, a transfer lock only on one
//! for a dynamic notarization. A builder is made by `locked` or `dynamic` only.

use crate::error::Error;
use crate::transactions::create::CreateNotarization;
use crate::types::copy_text;
use crate::types::state::bytes_state;
use crate::types::state::text_state;
use crate::types::state::DataView;
use crate::types::state::State;
use crate::types::state::StateView;
use crate::types::text_of;
use crate::types::timelock::TimeLock;
use crate::types::NotarizationMethod;
use std::marker::PhantomData;
use vstd::prelude::*;

verus! {

/// Marker type for locked notarizations.
#[derive(Debug, Clone, Copy)]
pub struct Locked;

/// Marker type for dynamic notarizations.
#[derive(Debug, Clone, Copy)]
pub struct Dynamic;

/// A builder for constructing notarization transactions.
///
/// The type parameter `M` is either [`Locked`] or [`Dynamic`] and decides which lock the
/// builder lets its user set.
#[derive(Debug)]
pub struct NotarizationBuilder<M> {
    /// The data to be notarized
    pub state: Option<State>,
    /// A permanent description set at creation
    pub immutable_description: Option<String>,
    /// Metadata that can be updated
    pub updatable_metadata: Option<String>,
    /// Time restriction for deletion (Locked only)
    pub delete_lock: Option<TimeLock>,
    /// Time restriction for transfers (Dynamic only)
    pub transfer_lock: Option<TimeLock>,
    /// The notarization method
    pub method: NotarizationMethod,
    marker: PhantomData<M>,
}

/// What the state of a configuration holds, if one was set.
pub open spec fn state_of(state: Option<State>) -> Option<StateView<DataView>> {
    match state {
        Some(held) => Some(held@),
        None => None,
    }
}

/// What a builder holds: the configuration of the notarization that is to be created.
pub struct BuilderView {
    pub state: Option<StateView<DataView>>,
    pub immutable_description: Option<Seq<char>>,
    pub updatable_metadata: Option<Seq<char>>,
    pub delete_lock: Option<TimeLock>,
    pub transfer_lock: Option<TimeLock>,
    pub method: NotarizationMethod,
}

impl<M> View for NotarizationBuilder<M> {
    type V = BuilderView;

    closed spec fn view(&self) -> BuilderView {
        BuilderView {
            state: state_of(self.state),
            immutable_description: text_of(self.immutable_description),
            updatable_metadata: text_of(self.updatable_metadata),
            delete_lock: self.delete_lock,
            transfer_lock: self.transfer_lock,
            method: self.method,
        }
    }
}

/// The configuration in which nothing but the method has been set.
pub open spec fn blank(method: NotarizationMethod) -> BuilderView {
    BuilderView {
        state: None,
        immutable_description: None,
        updatable_metadata: None,
        delete_lock: None,
        transfer_lock: None,
        method,
    }
}

/// Whether a configuration holds only the lock that its method admits: never a transfer
/// lock for the locked method, never a delete lock for the dynamic method.
pub open spec fn lock_fits_method(configuration: BuilderView) -> bool {
    match configuration.method {
        NotarizationMethod::Locked => configuration.transfer_lock is None,
        NotarizationMethod::Dynamic => configuration.delete_lock is None,
    }
}

impl<M> Clone for NotarizationBuilder<M> {
    /// A copy of the builder: it holds what the builder holds.
    fn clone(&self) -> (copy: Self)
        ensures
            copy@ == self@,
    {
        let state = match &self.state {
            Some(held) => Some(held.duplicate()),
            None => None,
        };
        Self {
            state,
            immutable_description: copy_text(&self.immutable_description),
            updatable_metadata: copy_text(&self.updatable_metadata),
            delete_lock: self.delete_lock,
            transfer_lock: self.transfer_lock,
            method: self.method,
            marker: PhantomData,
        }
    }
}

impl NotarizationBuilder<Locked> {
    /// Creates a new builder for a locked notarization.
    ///
    /// Locked notarizations are immutable after creation. They cannot be updated
    /// or transferred, and can only be destroyed once their delete lock is open.
    pub fn locked() -> (builder: Self)
        ensures
            builder@ == blank(NotarizationMethod::Locked),
    {
        Self {
            state: None,
            immutable_description: None,
            updatable_metadata: None,
            delete_lock: None,
            transfer_lock: None,
            method: NotarizationMethod::Locked,
            marker: PhantomData,
        }
    }

    /// Sets when the notarization can be destroyed.
    pub fn with_delete_lock(self, lock: TimeLock) -> (builder: Self)
        ensures
            builder@ == (BuilderView { delete_lock: Some(lock), ..self@ }),
    {
        let mut builder = self;
        builder.delete_lock = Some(lock);
        builder
    }

    /// Finalizes the builder and creates the transaction that creates the notarization.
    ///
    /// Nothing is required at this step, not even a delete lock: the configuration is
    /// checked when the transaction is compiled.
    pub fn finish(self) -> (transaction: Result<CreateNotarization<Locked>, Error>)
        ensures
            transaction matches Ok(created) && created.builder() == self && !created.is_compiled(),
    {
        Ok(CreateNotarization::new(self))
    }
}

impl NotarizationBuilder<Dynamic> {
    /// Creates a new builder for a dynamic notarization.
    ///
    /// Dynamic notarizations can be updated after creation and optionally
    /// transferred to other owners.
    pub fn dynamic() -> (builder: Self)
        ensures
            builder@ == blank(NotarizationMethod::Dynamic),
    {
        Self {
            state: None,
            immutable_description: None,
            updatable_metadata: None,
            delete_lock: None,
            transfer_lock: None,
            method: NotarizationMethod::Dynamic,
            marker: PhantomData,
        }
    }

    /// Sets restrictions on when the notarization can be transferred.
    pub fn with_transfer_lock(self, lock: TimeLock) -> (builder: Self)
        ensures
            builder@ == (BuilderView { transfer_lock: Some(lock), ..self@ }),
    {
        let mut builder = self;
        builder.transfer_lock = Some(lock);
        builder
    }

    /// Finalizes the builder and creates the transaction that creates the notarization.
    pub fn finish(self) -> (transaction: CreateNotarization<Dynamic>)
        ensures
            transaction.builder() == self,
            !transaction.is_compiled(),
    {
        CreateNotarization::new(self)
    }
}

// Shared methods for both types
impl<M> NotarizationBuilder<M> {
    /// The state that has been set, if any.
    pub fn state(&self) -> (state: &Option<State>)
        ensures
            state_of(*state) == self@.state,
    {
        &self.state
    }

    /// The permanent description that has been set, if any.
    pub fn immutable_description(&self) -> (description: &Option<String>)
        ensures
            text_of(*description) == self@.immutable_description,
    {
        &self.immutable_description
    }

    /// The updatable metadata that has been set, if any.
    pub fn updatable_metadata(&self) -> (metadata: &Option<String>)
        ensures
            text_of(*metadata) == self@.updatable_metadata,
    {
        &self.updatable_metadata
    }

    /// The delete lock that has been set, if any.
    pub fn delete_lock(&self) -> (lock: Option<TimeLock>)
        ensures
            lock == self@.delete_lock,
    {
        self.delete_lock
    }

    /// The transfer lock that has been set, if any.
    pub fn transfer_lock(&self) -> (lock: Option<TimeLock>)
        ensures
            lock == self@.transfer_lock,
    {
        self.transfer_lock
    }

    /// The method of the notarization that is to be created.
    pub fn method(&self) -> (method: NotarizationMethod)
        ensures
            method == self@.method,
    {
        self.method
    }

    /// Sets the state (data) to be notarized.
    pub fn with_state(self, state: State) -> (builder: Self)
        ensures
            builder@ == (BuilderView { state: Some(state@), ..self@ }),
    {
        let mut builder = self;
        builder.state = Some(state);
        builder
    }

    /// Sets the state using raw bytes.
    pub fn with_bytes_state(self, data: Vec<u8>, metadata: Option<String>) -> (builder: Self)
        ensures
            builder@ == (BuilderView {
                state: Some(bytes_state(data@, text_of(metadata))),
                ..self@
            }),
    {
        self.with_state(State::from_bytes(data, metadata))
    }

    /// Sets the state using a string.
    pub fn with_string_state(self, data: String, metadata: Option<String>) -> (builder: Self)
        ensures
            builder@ == (BuilderView {
                state: Some(text_state(data@, text_of(metadata))),
                ..self@
            }),
    {
        self.with_state(State::from_string(data, metadata))
    }

    /// Sets a permanent description for the notarization.
    pub fn with_immutable_description(self, description: String) -> (builder: Self)
        ensures
            builder@ == (BuilderView { immutable_description: Some(description@), ..self@ }),
    {
        let mut builder = self;
        builder.immutable_description = Some(description);
        builder
    }

    /// Sets initial updatable metadata.
    pub fn with_updatable_metadata(self, metadata: String) -> (builder: Self)
        ensures
            builder@ == (BuilderView { updatable_metadata: Some(metadata@), ..self@ }),
    {
        let mut builder = self;
        builder.updatable_metadata = Some(metadata);
        builder
    }
}

} // verus!
