//! The transaction that creates a notarization.
//!
//! Before anything is compiled the configuration is checked: a state is required, a lock
//! that belongs to the other method is refused, and the lock metadata that the ledger
//! will derive must meet the invariants of the method.

use crate::builder::lock_fits_method;
use crate::builder::BuilderView;
use crate::builder::NotarizationBuilder;
use crate::decoding::notarization_at;
use crate::decoding::read_notarization;
use crate::decoding::whole;
use crate::error::failure;
use crate::error::Error;
use crate::error::ErrorKind;
use crate::error::ErrorView;
use crate::operations::creation_failure;
use crate::operations::creation_fits;
use crate::operations::creation_plan;
use crate::operations::NotarizationImpl;
use crate::package::notarization_package_id;
use crate::package::registered_package;
use crate::programmable::well_addressed;
use crate::programmable::InstructionView;
use crate::programmable::ProgrammableTransaction;
use crate::transactions::cache::served;
use crate::transactions::cache::empty_cell;
use crate::transactions::cache::get;
use crate::transactions::cache::get_or_keep;
use crate::transactions::cache::held;
use tokio::sync::OnceCell;
use crate::types::event::DynamicNotarizationCreated;
use crate::types::event::Event;
use crate::types::event::LockedNotarizationCreated;
use crate::types::notarization::OnChainNotarization;
use crate::types::notarization::OnChainNotarizationView;
use crate::types::object::ObjectID;
use crate::types::timelock::LockMetadata;
use crate::types::timelock::TimeLock;
use crate::types::NotarizationMethod;
use vstd::prelude::*;
use vstd::string::StringExecFns;

verus! {

/// A transaction that creates a new notarization.
#[derive(Debug)]
pub struct CreateNotarization<M> {
    builder: NotarizationBuilder<M>,
    cached_ptb: OnceCell<ProgrammableTransaction>,
}

/// Whether lock metadata meets the invariants of the dynamic method: there is none, or
/// only its transfer lock is set.
pub open spec fn dynamic_invariants_ok(locking: Option<LockMetadata>) -> bool {
    match locking {
        Some(lock_metadata) => {
            &&& lock_metadata.delete_lock == TimeLock::NoLock
            &&& lock_metadata.update_lock == TimeLock::NoLock
            &&& lock_metadata.transfer_lock != TimeLock::NoLock
        },
        None => true,
    }
}

/// Whether lock metadata meets the invariants of the locked method: it exists, and update
/// and transfer are locked until the notarization is destroyed.
pub open spec fn locked_invariants_ok(locking: Option<LockMetadata>) -> bool {
    match locking {
        Some(lock_metadata) => {
            &&& lock_metadata.transfer_lock == TimeLock::UntilDestroyed
            &&& lock_metadata.update_lock == TimeLock::UntilDestroyed
        },
        None => false,
    }
}

/// The lock metadata that a notarization gets from its method and from the one lock that
/// its creator may set.
pub open spec fn derived_locking(
    method: NotarizationMethod,
    delete_lock: Option<TimeLock>,
    transfer_lock: Option<TimeLock>,
) -> Option<LockMetadata> {
    match method {
        NotarizationMethod::Dynamic => match transfer_lock {
            Some(lock) => Some(
                LockMetadata {
                    update_lock: TimeLock::NoLock,
                    delete_lock: TimeLock::NoLock,
                    transfer_lock: lock,
                },
            ),
            None => None,
        },
        NotarizationMethod::Locked => Some(
            LockMetadata {
                update_lock: TimeLock::UntilDestroyed,
                delete_lock: match delete_lock {
                    Some(lock) => lock,
                    None => TimeLock::NoLock,
                },
                transfer_lock: TimeLock::UntilDestroyed,
            },
        ),
    }
}

/// The lock that is handed to the ledger when a notarization is created: the one that the
/// method lets its creator set, and no lock where none was set.
pub open spec fn creation_lock(
    method: NotarizationMethod,
    delete_lock: Option<TimeLock>,
    transfer_lock: Option<TimeLock>,
) -> TimeLock {
    let chosen = match method {
        NotarizationMethod::Dynamic => transfer_lock,
        NotarizationMethod::Locked => delete_lock,
    };
    match chosen {
        Some(lock) => lock,
        None => TimeLock::NoLock,
    }
}

/// The module whose function `create` makes a notarization of the given method.
pub open spec fn creation_module(method: NotarizationMethod) -> Seq<char> {
    match method {
        NotarizationMethod::Dynamic => "dynamic_notarization"@,
        NotarizationMethod::Locked => "locked_notarization"@,
    }
}

/// The failure with which a configuration is refused, if it is: a missing state first,
/// then a lock of the other method, then lock metadata that breaks the invariants.
pub open spec fn refusal(builder: BuilderView) -> Option<ErrorView> {
    if builder.state is None {
        Some(failure(ErrorKind::InvalidArgument, "State is required"@))
    } else {
        match builder.method {
            NotarizationMethod::Dynamic => if builder.delete_lock is Some {
                Some(
                    failure(
                        ErrorKind::InvalidArgument,
                        "Delete lock cannot be set for dynamic notarizations"@,
                    ),
                )
            } else if !dynamic_invariants_ok(
                derived_locking(builder.method, builder.delete_lock, builder.transfer_lock),
            ) {
                Some(
                    failure(
                        ErrorKind::InvalidArgument,
                        "Dynamic notarization invariants are not satisfied"@,
                    ),
                )
            } else {
                None
            },
            NotarizationMethod::Locked => if builder.transfer_lock is Some {
                Some(
                    failure(
                        ErrorKind::InvalidArgument,
                        "Transfer lock cannot be set for locked notarizations"@,
                    ),
                )
            } else if !locked_invariants_ok(
                derived_locking(builder.method, builder.delete_lock, builder.transfer_lock),
            ) {
                Some(
                    failure(
                        ErrorKind::InvalidArgument,
                        "Locked notarization invariants are not satisfied"@,
                    ),
                )
            } else {
                None
            },
        }
    }
}

/// The transaction that a configuration compiles to when it is not refused.
pub open spec fn compiled_creation(package: Seq<u8>, builder: BuilderView) -> Seq<
    InstructionView,
>
    recommends
        builder.state is Some,
{
    creation_plan(
        package,
        creation_module(builder.method),
        builder.state->0,
        builder.immutable_description,
        builder.updatable_metadata,
        creation_lock(builder.method, builder.delete_lock, builder.transfer_lock),
    )
}

/// Whether what a configuration holds is short enough to be encoded.
pub open spec fn configuration_fits(builder: BuilderView) -> bool
    recommends
        builder.state is Some,
{
    creation_fits(
        builder.state->0,
        builder.immutable_description,
        builder.updatable_metadata,
    )
}

/// The failure that is reported for a configuration that holds a value too long to be
/// encoded, if it holds one.
pub open spec fn configuration_failure(builder: BuilderView) -> Option<ErrorView>
    recommends
        builder.state is Some,
{
    creation_failure(builder.state->0, builder.immutable_description, builder.updatable_metadata)
}

/// Whether `outcome` is what compiling a configuration gives, when the registry holds
/// `registered` for `network`: a missing package is reported first, then a refusal of the
/// configuration, then a value too long to be encoded; else the transaction is given.
pub open spec fn is_creation_outcome(
    outcome: Result<ProgrammableTransaction, Error>,
    builder: BuilderView,
    network: Seq<char>,
    registered: Option<ObjectID>,
) -> bool {
    match registered_package(network, registered) {
        Err(missing) => outcome matches Err(error) && error@ == missing,
        Ok(package) => match refusal(builder) {
            Some(refused) => outcome matches Err(error) && error@ == refused,
            None => match outcome {
                Ok(built) => {
                    &&& configuration_fits(builder)
                    &&& built@ == compiled_creation(package@, builder)
                    &&& well_addressed(built@)
                },
                Err(error) => configuration_failure(builder) == Some(error@),
            },
        },
    }
}

/// The lock metadata derived for the locked method always meets that method's
/// invariants, whatever delete lock was set or left out.
pub proof fn lemma_locked_locking_is_valid(
    delete_lock: Option<TimeLock>,
    transfer_lock: Option<TimeLock>,
)
    ensures
        locked_invariants_ok(
            derived_locking(NotarizationMethod::Locked, delete_lock, transfer_lock),
        ),
{
}

/// The lock metadata derived for the dynamic method meets that method's invariants
/// exactly when the transfer lock was not set to the absent lock.
pub proof fn lemma_dynamic_locking_is_valid(
    delete_lock: Option<TimeLock>,
    transfer_lock: Option<TimeLock>,
)
    ensures
        dynamic_invariants_ok(
            derived_locking(NotarizationMethod::Dynamic, delete_lock, transfer_lock),
        ) <==> transfer_lock != Some(TimeLock::NoLock),
{
}

/// A configuration for the locked method that holds a state and no transfer lock is never
/// refused, and a delete lock that was left out is handed on as the absent lock.
pub proof fn lemma_locked_delete_lock_defaults(builder: BuilderView)
    requires
        builder.method == NotarizationMethod::Locked,
        builder.state is Some,
        builder.transfer_lock is None,
    ensures
        refusal(builder) is None,
        builder.delete_lock is None ==> creation_lock(
            builder.method,
            builder.delete_lock,
            builder.transfer_lock,
        ) == TimeLock::NoLock,
{
}

/// The first event that a creating transaction emitted, as far as it could be read.
#[derive(Debug, Clone, PartialEq, Eq)]
pub enum FirstEvent {
    /// The transaction emitted no event.
    Absent,
    /// The event could not be read as the creation of a notarization; the reader's words
    /// are held.
    Unreadable(String),
    /// A dynamic notarization was created.
    Dynamic(Event<DynamicNotarizationCreated>),
    /// A locked notarization was created.
    Locked(Event<LockedNotarizationCreated>),
}

/// What the ledger answers when it is asked for the content of an object.
#[derive(Debug, Clone, PartialEq, Eq)]
pub enum ContentLookup {
    /// The request failed; the client's words are held.
    Failed(String),
    /// The ledger holds no data of the object.
    Missing,
    /// The data holds no content.
    NoContent,
    /// The content is not that of an object of a package.
    NotMoveObject,
    /// The content of the object in binary.
    Content(Vec<u8>),
}

/// The identifier of the notarization that the first event of a creating transaction
/// tells of, or the failure that is reported where it tells of none.
pub open spec fn created(first: FirstEvent) -> Result<ObjectID, ErrorView> {
    match first {
        FirstEvent::Absent => Err(
            failure(ErrorKind::TransactionUnexpectedResponse, "events should be provided"@),
        ),
        FirstEvent::Unreadable(words) => Err(
            failure(
                ErrorKind::TransactionUnexpectedResponse,
                "failed to parse event: "@ + words@,
            ),
        ),
        FirstEvent::Dynamic(event) => Ok(event.data.notarization_id),
        FirstEvent::Locked(event) => Ok(event.data.notarization_id),
    }
}

/// The notarization that the looked-up content of an object is the encoding of, or the
/// failure that is reported where there is none.
pub open spec fn fetched(lookup: ContentLookup) -> Result<OnChainNotarizationView, ErrorView> {
    match lookup {
        ContentLookup::Failed(words) => Err(failure(ErrorKind::ObjectLookup, words@)),
        ContentLookup::Missing => Err(
            failure(ErrorKind::ObjectLookup, "missing data in response"@),
        ),
        ContentLookup::NoContent => Err(
            failure(ErrorKind::ObjectLookup, "missing object content in data"@),
        ),
        ContentLookup::NotMoveObject => Err(
            failure(ErrorKind::ObjectLookup, "failed to convert data to move object"@),
        ),
        ContentLookup::Content(bytes) => match whole(bytes@, notarization_at(bytes@, 0)) {
            Some(notarization) => Ok(notarization),
            None => Err(failure(ErrorKind::ObjectLookup, "invalid encoding of a notarization"@)),
        },
    }
}

/// What a creating transaction gives once the ledger has carried it out: the notarization
/// read back from the ledger. A failure to tell which notarization was created is
/// reported as it is, a failure to read it back as an object lookup that failed with the
/// message of that failure.
pub open spec fn materialized(first: FirstEvent, lookup: ContentLookup) -> Result<
    OnChainNotarizationView,
    ErrorView,
> {
    match created(first) {
        Err(unknown) => Err(unknown),
        Ok(_) => match fetched(lookup) {
            Ok(notarization) => Ok(notarization),
            Err(missing) => Err(
                failure(
                    ErrorKind::ObjectLookup,
                    "Failed to get object with options: "@ + missing.detail,
                ),
            ),
        },
    }
}

/// Reads a notarization from what the ledger answered when asked for the content of the
/// object that holds it.
pub fn get_object_ref_by_id_with_bcs(lookup: ContentLookup) -> (notarization: Result<
    OnChainNotarization,
    Error,
>)
    ensures
        match notarization {
            Ok(read) => fetched(lookup) == Ok::<OnChainNotarizationView, ErrorView>(read@),
            Err(error) => fetched(lookup) == Err::<OnChainNotarizationView, ErrorView>(error@),
        },
{
    match lookup {
        ContentLookup::Failed(words) => Err(Error::ObjectLookup(words)),
        ContentLookup::Missing => Err(
            Error::ObjectLookup(String::from_str("missing data in response")),
        ),
        ContentLookup::NoContent => Err(
            Error::ObjectLookup(String::from_str("missing object content in data")),
        ),
        ContentLookup::NotMoveObject => Err(
            Error::ObjectLookup(String::from_str("failed to convert data to move object")),
        ),
        ContentLookup::Content(bytes) => {
            match read_notarization(&bytes, 0) {
                Some((notarization, next)) => {
                    if next == bytes.len() {
                        return Ok(notarization);
                    }
                },
                None => {},
            }
            Err(Error::ObjectLookup(String::from_str("invalid encoding of a notarization")))
        },
    }
}

/// A configuration that holds a state and only the lock that its method admits is refused
/// in one case alone: the dynamic method with the absent lock set as its transfer lock.
pub proof fn lemma_fitting_configuration_is_accepted(builder: BuilderView)
    requires
        builder.state is Some,
        lock_fits_method(builder),
    ensures
        refusal(builder) is Some <==> (builder.method == NotarizationMethod::Dynamic
            && builder.transfer_lock == Some(TimeLock::NoLock)),
{
}

impl<M> CreateNotarization<M> {
    /// Tells from the first event that the transaction emitted which notarization it
    /// created.
    ///
    /// Fails when there is no event and when the event could not be read.
    pub fn created_id(&self, first: &FirstEvent) -> (id: Result<ObjectID, Error>)
        ensures
            match id {
                Ok(found) => created(*first) == Ok::<ObjectID, ErrorView>(found),
                Err(error) => created(*first) == Err::<ObjectID, ErrorView>(error@),
            },
    {
        match first {
            FirstEvent::Absent => Err(
                Error::TransactionUnexpectedResponse(String::from_str("events should be provided")),
            ),
            FirstEvent::Unreadable(words) => Err(
                Error::TransactionUnexpectedResponse(
                    String::from_str("failed to parse event: ").concat(words.as_str()),
                ),
            ),
            FirstEvent::Dynamic(event) => Ok(event.data.notarization_id),
            FirstEvent::Locked(event) => Ok(event.data.notarization_id),
        }
    }

    /// Takes the transaction out of use once the ledger has carried it out, and gives the
    /// notarization that it created.
    ///
    /// `first` is the first event that the transaction emitted and `lookup` the content of
    /// the object that the event names, looked up on the ledger.
    pub fn apply_with_events(self, first: FirstEvent, lookup: ContentLookup) -> (notarization:
        Result<OnChainNotarization, Error>)
        ensures
            match notarization {
                Ok(read) => materialized(first, lookup) == Ok::<
                    OnChainNotarizationView,
                    ErrorView,
                >(read@),
                Err(error) => materialized(first, lookup) == Err::<
                    OnChainNotarizationView,
                    ErrorView,
                >(error@),
            },
    {
        match self.created_id(&first) {
            Ok(_) => {},
            Err(error) => {
                return Err(error);
            },
        }
        match get_object_ref_by_id_with_bcs(lookup) {
            Ok(notarization) => Ok(notarization),
            Err(error) => Err(Error::ObjectLookup(error.message())),
        }
    }
}

impl<M> Clone for CreateNotarization<M> {
    /// A copy of the transaction: the same configuration and, where the transaction has
    /// been compiled, the same compiled form.
    fn clone(&self) -> (copy: Self)
        ensures
            copy.builder()@ == self.builder()@,
            copy.cached() == self.cached(),
    {
        let mut cached_ptb = empty_cell();
        match get(&self.cached_ptb) {
            Some(kept) => {
                get_or_keep(&mut cached_ptb, Ok(kept));
            },
            None => {},
        }
        Self { builder: self.builder.clone(), cached_ptb }
    }
}

impl<M> CreateNotarization<M> {
    /// The configuration that the transaction was made from.
    pub closed spec fn builder(self) -> NotarizationBuilder<M> {
        self.builder
    }

    /// The compiled form that the transaction holds, if it has been compiled.
    pub closed spec fn cached(self) -> Option<Seq<InstructionView>> {
        held(self.cached_ptb)
    }

    /// Whether the transaction has been compiled.
    pub open spec fn is_compiled(self) -> bool {
        self.cached() is Some
    }

    /// Creates a new [`CreateNotarization`] instance.
    pub fn new(builder: NotarizationBuilder<M>) -> (transaction: Self)
        ensures
            transaction.builder() == builder,
            !transaction.is_compiled(),
    {
        Self { builder, cached_ptb: empty_cell() }
    }

    /// The method of the notarization that the transaction creates.
    pub fn method(&self) -> (method: NotarizationMethod)
        ensures
            method == self.builder()@.method,
    {
        self.builder.method()
    }

    /// Indicates if the invariants for `NotarizationMethod::Dynamic` are satisfied:
    ///
    /// - Dynamic notarization can only have transfer locking or no
    ///   `immutable_metadata.locking`. If `immutable_metadata.locking` exists, all locks
    ///   except `transfer_lock` must be `TimeLock::NoLock` and the `transfer_lock` must not
    ///   be `TimeLock::NoLock`.
    pub fn are_dynamic_notarization_invariants_ok(locking: &Option<LockMetadata>) -> (ok: bool)
        ensures
            ok == dynamic_invariants_ok(*locking),
    {
        match locking {
            Some(lock_metadata) => {
                lock_metadata.delete_lock == TimeLock::NoLock && lock_metadata.update_lock
                    == TimeLock::NoLock && lock_metadata.transfer_lock != TimeLock::NoLock
            },
            None => true,
        }
    }

    /// Indicates if the invariants for `NotarizationMethod::Locked` are satisfied:
    ///
    /// - `locking` must exist.
    /// - `update_lock` and `transfer_lock` must be `TimeLock::UntilDestroyed`.
    pub fn are_locked_notarization_invariants_ok(locking: &Option<LockMetadata>) -> (ok: bool)
        ensures
            ok == locked_invariants_ok(*locking),
    {
        match locking {
            Some(lock_metadata) => {
                lock_metadata.transfer_lock == TimeLock::UntilDestroyed && lock_metadata.update_lock
                    == TimeLock::UntilDestroyed
            },
            None => false,
        }
    }

    /// Makes a [`ProgrammableTransaction`] for the [`CreateNotarization`] instance.
    ///
    /// `network` is the network that the transaction is meant for and `registered` the
    /// package that the registry holds for it.
    pub fn make_ptb(&self, network: &str, registered: Option<ObjectID>) -> (transaction: Result<
        ProgrammableTransaction,
        Error,
    >)
        ensures
            is_creation_outcome(transaction, self.builder()@, network@, registered),
    {
        let package_id = match notarization_package_id(network, registered) {
            Ok(found) => found,
            Err(error) => {
                return Err(error);
            },
        };
        let state = match self.builder.state() {
            Some(state) => state,
            None => {
                return Err(Error::InvalidArgument(String::from_str("State is required")));
            },
        };
        match self.builder.method() {
            NotarizationMethod::Dynamic => {
                if self.builder.delete_lock().is_some() {
                    return Err(
                        Error::InvalidArgument(
                            String::from_str("Delete lock cannot be set for dynamic notarizations"),
                        ),
                    );
                }
                // Construct the locking metadata for dynamic notarization

                let locking = match self.builder.transfer_lock() {
                    Some(t_lock) => Some(
                        LockMetadata {
                            update_lock: TimeLock::NoLock,
                            delete_lock: TimeLock::NoLock,
                            transfer_lock: t_lock,
                        },
                    ),
                    None => None,
                };
                // Check invariants
                if !Self::are_dynamic_notarization_invariants_ok(&locking) {
                    return Err(
                        Error::InvalidArgument(
                            String::from_str("Dynamic notarization invariants are not satisfied"),
                        ),
                    );
                }
                let transfer_lock = match self.builder.transfer_lock() {
                    Some(lock) => lock,
                    None => TimeLock::NoLock,
                };
                NotarizationImpl::new_dynamic(
                    package_id,
                    state,
                    self.builder.immutable_description(),
                    self.builder.updatable_metadata(),
                    transfer_lock,
                )
            },
            NotarizationMethod::Locked => {
                if self.builder.transfer_lock().is_some() {
                    return Err(
                        Error::InvalidArgument(
                            String::from_str(
                                "Transfer lock cannot be set for locked notarizations",
                            ),
                        ),
                    );
                }
                let delete_lock = match self.builder.delete_lock() {
                    Some(lock) => lock,
                    None => TimeLock::NoLock,
                };
                // Construct the locking metadata for locked notarization
                let locking = Some(
                    LockMetadata {
                        update_lock: TimeLock::UntilDestroyed,
                        delete_lock,
                        transfer_lock: TimeLock::UntilDestroyed,
                    },
                );
                // Check invariants
                if !Self::are_locked_notarization_invariants_ok(&locking) {
                    return Err(
                        Error::InvalidArgument(
                            String::from_str("Locked notarization invariants are not satisfied"),
                        ),
                    );
                }
                NotarizationImpl::new_locked(
                    package_id,
                    state,
                    self.builder.immutable_description(),
                    self.builder.updatable_metadata(),
                    delete_lock,
                )
            },
        }
    }

    /// The compiled form of the transaction, if it has been compiled: with it at hand no
    /// package needs to be looked up.
    pub fn cached_programmable_transaction(&self) -> (held: Option<ProgrammableTransaction>)
        ensures
            match held {
                Some(transaction) => self.cached() == Some(transaction@),
                None => self.cached() is None,
            },
    {
        get(&self.cached_ptb)
    }

    /// Compiles the transaction, or gives the compiled form that it holds.
    ///
    /// The first successful compilation is kept and given again by every later call,
    /// whatever `network` and `registered` are then. A failure is not kept.
    pub fn build_programmable_transaction(
        &mut self,
        network: &str,
        registered: Option<ObjectID>,
    ) -> (transaction: Result<ProgrammableTransaction, Error>)
        ensures
            final(self).builder() == old(self).builder(),
            final(self).cached() == served(
                old(self).cached(),
                match transaction {
                    Ok(built) => Some(built@),
                    Err(_) => None,
                },
            ),
            match old(self).cached() {
                Some(held) => transaction matches Ok(built) && built@ == held,
                None => is_creation_outcome(
                    transaction,
                    old(self).builder()@,
                    network@,
                    registered,
                ),
            },
    {
        match get(&self.cached_ptb) {
            Some(held) => Ok(held),
            None => {
                let compiled = self.make_ptb(network, registered);
                get_or_keep(&mut self.cached_ptb, compiled)
            },
        }
    }
}

} // verus!
