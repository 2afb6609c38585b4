//! The operations on notarizations, each compiled to a programmable transaction.
//!
//! Creating a notarization needs nothing from the ledger but the package to call. Every
//! other operation works on a notarization that exists: it takes the type tag and the
//! current reference of that object, which the caller resolves beforehand.

use crate::encoding::optional_text;
use crate::encoding::optional_text_fits;
use crate::error::Error;
use crate::error::failure;
use crate::error::ErrorKind;
use crate::error::ErrorView;
use crate::move_utils::encoding_failure;
use crate::move_utils::get_clock_ref;
use crate::move_utils::ptb_pure;
use crate::move_utils::PureValue;
use crate::move_utils::PureValueView;
use crate::programmable::call_view;
use crate::programmable::positions;
use crate::programmable::tag_texts;
use crate::programmable::well_addressed;
use crate::programmable::Argument;
use crate::programmable::InstructionView;
use crate::programmable::ObjectRefView;
use crate::programmable::ProgrammableTransaction;
use crate::programmable::ProgrammableTransactionBuilder;
use crate::types::object::IotaAddress;
use crate::types::object::ObjectID;
use crate::types::object::ObjectRef;
use crate::types::state::data_type;
use crate::types::state::state_failure;
use crate::types::state::state_fits;
use crate::types::state::state_plan;
use crate::types::state::DataView;
use crate::types::state::State;
use crate::types::state::StateView;
use crate::types::text_of;
use crate::types::timelock::lock_plan;
use crate::types::timelock::TimeLock;
use crate::types::type_tag::TypeTag;
use vstd::prelude::*;
use vstd::string::StringExecFns;

verus! {

/// The operations on notarizations.
#[derive(Debug, Clone, Copy)]
pub struct NotarizationImpl;

/// The arguments that an operation on an existing notarization takes besides the
/// notarization itself.
pub enum Additional<'a> {
    /// No further argument.
    Nothing,
    /// The clock.
    Clock,
    /// A new state, then the clock.
    State(&'a State),
    /// New metadata, then the clock.
    Metadata(&'a Option<String>),
}

/// What an `Additional` value holds.
pub enum AdditionalView {
    Nothing,
    Clock,
    State(StateView<DataView>),
    Metadata(Option<Seq<char>>),
}

impl<'a> View for Additional<'a> {
    type V = AdditionalView;

    open spec fn view(&self) -> AdditionalView {
        match self {
            Additional::Nothing => AdditionalView::Nothing,
            Additional::Clock => AdditionalView::Clock,
            Additional::State(state) => AdditionalView::State(state@),
            Additional::Metadata(metadata) => AdditionalView::Metadata(text_of(**metadata)),
        }
    }
}

/// Whether the further arguments of an operation are short enough to be encoded.
pub open spec fn additional_fits(extra: AdditionalView) -> bool {
    match extra {
        AdditionalView::Nothing => true,
        AdditionalView::Clock => true,
        AdditionalView::State(state) => state_fits(state),
        AdditionalView::Metadata(metadata) => optional_text_fits(metadata),
    }
}

/// The failure that is reported for further arguments that cannot be encoded, if there is
/// one.
pub open spec fn additional_failure(extra: AdditionalView) -> Option<ErrorView> {
    match extra {
        AdditionalView::Nothing => None,
        AdditionalView::Clock => None,
        AdditionalView::State(state) => state_failure(state),
        AdditionalView::Metadata(metadata) => if optional_text_fits(metadata) {
            None
        } else {
            Some(encoding_failure("new_metadata"@, PureValueView::OptionalText(metadata)))
        },
    }
}

/// The failure that an operation on an existing notarization reports when its further
/// arguments failed with `inner`: an invalid argument whose message holds the whole
/// message of `inner`.
pub open spec fn additional_arguments_failure(inner: ErrorView) -> ErrorView {
    failure(
        ErrorKind::InvalidArgument,
        additional_failure_head() + "Invalid argument: "@ + inner.detail,
    )
}

/// The failure that is reported for a new notarization that cannot be encoded, if there
/// is one: for its state first, then for its description, then for its metadata.
pub open spec fn creation_failure(
    state: StateView<DataView>,
    immutable_description: Option<Seq<char>>,
    updatable_metadata: Option<Seq<char>>,
) -> Option<ErrorView> {
    if state_failure(state) is Some {
        state_failure(state)
    } else if !optional_text_fits(immutable_description) {
        Some(
            encoding_failure(
                "immutable_description"@,
                PureValueView::OptionalText(immutable_description),
            ),
        )
    } else if !optional_text_fits(updatable_metadata) {
        Some(
            encoding_failure(
                "updatable_metadata"@,
                PureValueView::OptionalText(updatable_metadata),
            ),
        )
    } else {
        None
    }
}

/// The instructions that bring in the further arguments of an operation, when they are
/// added behind `base` earlier instructions.
pub open spec fn additional_plan(base: nat, package: Seq<u8>, extra: AdditionalView) -> Seq<
    InstructionView,
> {
    match extra {
        AdditionalView::Nothing => seq![],
        AdditionalView::Clock => seq![InstructionView::Clock],
        AdditionalView::State(state) => state_plan(base, package, state) + seq![
            InstructionView::Clock,
        ],
        AdditionalView::Metadata(metadata) => seq![
            InstructionView::Pure(optional_text(metadata)),
            InstructionView::Clock,
        ],
    }
}

/// The positions of the further arguments of an operation among the instructions of
/// `additional_plan`.
pub open spec fn additional_arguments(base: nat, extra: AdditionalView) -> Seq<nat> {
    match extra {
        AdditionalView::Nothing => seq![],
        AdditionalView::Clock => seq![base],
        AdditionalView::State(_) => seq![base + 2, base + 3],
        AdditionalView::Metadata(_) => seq![base, base + 1],
    }
}

/// The transaction that calls `method` of the module `notarization` on an existing
/// notarization: the object first, then the further arguments, then the call, which takes
/// the object and those arguments at the object's type.
pub open spec fn object_call_plan(
    package: Seq<u8>,
    tag: Seq<char>,
    notarization: ObjectRefView,
    method: Seq<char>,
    extra: AdditionalView,
) -> Seq<InstructionView> {
    seq![InstructionView::Object(notarization)] + additional_plan(1, package, extra) + seq![
        call_view(
            package,
            "notarization"@,
            method,
            seq![tag],
            seq![0nat] + additional_arguments(1, extra),
        ),
    ]
}

/// Whether what a new notarization is created from is short enough to be encoded.
pub open spec fn creation_fits(
    state: StateView<DataView>,
    immutable_description: Option<Seq<char>>,
    updatable_metadata: Option<Seq<char>>,
) -> bool {
    &&& state_fits(state)
    &&& optional_text_fits(immutable_description)
    &&& optional_text_fits(updatable_metadata)
}

/// The transaction that creates a notarization by the function `create` of `module`: the
/// clock, the state, the description, the metadata and the lock are brought in, in that
/// order, and the call takes them with the clock last, at the type of the state's data.
pub open spec fn creation_plan(
    package: Seq<u8>,
    module: Seq<char>,
    state: StateView<DataView>,
    immutable_description: Option<Seq<char>>,
    updatable_metadata: Option<Seq<char>>,
    lock: TimeLock,
) -> Seq<InstructionView> {
    seq![InstructionView::Clock] + state_plan(1, package, state) + seq![
        InstructionView::Pure(optional_text(immutable_description)),
        InstructionView::Pure(optional_text(updatable_metadata)),
    ] + lock_plan(6, package, lock) + seq![
        call_view(
            package,
            module,
            "create"@,
            seq![data_type(state.data)],
            seq![3nat, 4, 5, (5 + lock_plan(6, package, lock).len()) as nat, 0],
        ),
    ]
}

/// The transaction that hands a dynamic notarization over to `recipient`.
pub open spec fn transfer_plan(
    package: Seq<u8>,
    tag: Seq<char>,
    notarization: ObjectRefView,
    recipient: Seq<u8>,
) -> Seq<InstructionView> {
    seq![
        InstructionView::Pure(recipient),
        InstructionView::Object(notarization),
        InstructionView::Clock,
        call_view(
            package,
            "dynamic_notarization"@,
            "transfer"@,
            seq![tag],
            seq![1nat, 0, 2],
        ),
    ]
}

/// How the message starts that reports further arguments which could not be added.
pub open spec fn additional_failure_head() -> Seq<char> {
    "Failed to add additional arguments: "@
}

/// Whether `transaction` is what compiling a call of `method` on an existing notarization
/// gives: the transaction of `object_call_plan` when the further arguments can be encoded,
/// and otherwise the failure of those arguments, reported as an invalid argument.
pub open spec fn compiles_to(
    transaction: Result<ProgrammableTransaction, Error>,
    package: Seq<u8>,
    tag: Seq<char>,
    notarization: ObjectRefView,
    method: Seq<char>,
    extra: AdditionalView,
) -> bool {
    match transaction {
        Ok(built) => {
            &&& additional_fits(extra)
            &&& built@ == object_call_plan(package, tag, notarization, method, extra)
            &&& well_addressed(built@)
        },
        Err(error) => {
            &&& additional_failure(extra) matches Some(inner)
            &&& error@ == additional_arguments_failure(inner)
        },
    }
}

/// A creating transaction takes every argument from an earlier instruction.
pub proof fn lemma_creation_plan_well_addressed(
    package: Seq<u8>,
    module: Seq<char>,
    state: StateView<DataView>,
    immutable_description: Option<Seq<char>>,
    updatable_metadata: Option<Seq<char>>,
    lock: TimeLock,
)
    ensures
        well_addressed(
            creation_plan(package, module, state, immutable_description, updatable_metadata, lock),
        ),
{
    let plan = creation_plan(
        package,
        module,
        state,
        immutable_description,
        updatable_metadata,
        lock,
    );
    let locks = lock_plan(6, package, lock);
    assert(state_plan(1, package, state).len() == 3);
    assert(locks.len() == 1 || locks.len() == 3);
    assert forall|i: int, k: int|
        0 <= i < plan.len() && plan[i] is Call && 0 <= k
            < plan[i]->Call_0.arguments.len() implies #[trigger] plan[i]->Call_0.arguments[k]
        < i by {
        if i == 3 {
            assert(plan[i] == state_plan(1, package, state)[2]);
        } else if 6 <= i < 6 + locks.len() {
            assert(plan[i] == locks[i - 6]);
        } else if i == 6 + locks.len() {
        } else {
            if i == 0 {
            } else if i < 4 {
                assert(plan[i] == state_plan(1, package, state)[i - 1]);
            } else {
            }
        }
    }
}

/// A transaction on an existing notarization takes every argument from an earlier
/// instruction.
pub proof fn lemma_object_call_plan_well_addressed(
    package: Seq<u8>,
    tag: Seq<char>,
    notarization: ObjectRefView,
    method: Seq<char>,
    extra: AdditionalView,
)
    ensures
        well_addressed(object_call_plan(package, tag, notarization, method, extra)),
{
    let plan = object_call_plan(package, tag, notarization, method, extra);
    let added = additional_plan(1, package, extra);
    assert forall|i: int, k: int|
        0 <= i < plan.len() && plan[i] is Call && 0 <= k
            < plan[i]->Call_0.arguments.len() implies #[trigger] plan[i]->Call_0.arguments[k]
        < i by {
        if 1 <= i < 1 + added.len() {
            assert(plan[i] == added[i - 1]);
            match extra {
                AdditionalView::State(state) => {
                    if i < 4 {
                        assert(added[i - 1] == state_plan(1, package, state)[i - 1]);
                    }
                },
                _ => {},
            }
        }
    }
}

impl NotarizationImpl {
    /// Build the transaction that calls `method` on an existing notarization.
    ///
    /// `tag` is the type tag of the notarization and `notarization` its current reference.
    /// Fails exactly when a further argument is too long to be encoded; the message then
    /// holds the message of that argument's failure.
    pub fn build_transaction(
        package_id: ObjectID,
        tag: TypeTag,
        notarization: ObjectRef,
        method: &str,
        additional_args: Additional,
    ) -> (transaction: Result<ProgrammableTransaction, Error>)
        ensures
            compiles_to(
                transaction,
                package_id@,
                tag@,
                notarization@,
                method@,
                additional_args@,
            ),
    {
        let mut ptb = ProgrammableTransactionBuilder::new();
        let object = ptb.obj(notarization);
        let mut args: Vec<Argument> = vec![object];
        let added: Result<(), Error> = match additional_args {
            Additional::Nothing => Ok(()),
            Additional::Clock => {
                args.push(get_clock_ref(&mut ptb));
                Ok(())
            },
            Additional::State(new_state) => match new_state.into_ptb(&mut ptb, package_id) {
                Ok(state) => {
                    args.push(state);
                    args.push(get_clock_ref(&mut ptb));
                    Ok(())
                },
                Err(error) => Err(error),
            },
            Additional::Metadata(new_metadata) => match ptb_pure(
                &mut ptb,
                "new_metadata",
                PureValue::OptionalText(new_metadata),
            ) {
                Ok(metadata) => {
                    args.push(metadata);
                    args.push(get_clock_ref(&mut ptb));
                    Ok(())
                },
                Err(error) => Err(error),
            },
        };
        match added {
            Ok(()) => {
                let types: Vec<TypeTag> = vec![tag];
                assert(tag_texts(types@) =~= seq![tag@]);
                assert(positions(args@) =~= seq![0nat] + additional_arguments(
                    1,
                    additional_args@,
                ));
                assert(ptb@ =~= seq![InstructionView::Object(notarization@)] + additional_plan(
                    1,
                    package_id@,
                    additional_args@,
                ));
                ptb.programmable_move_call(package_id, "notarization", method, types, args);
                let built = ptb.finish();
                proof {
                    assert(built@ =~= object_call_plan(
                        package_id@,
                        tag@,
                        notarization@,
                        method@,
                        additional_args@,
                    ));
                    lemma_object_call_plan_well_addressed(
                        package_id@,
                        tag@,
                        notarization@,
                        method@,
                        additional_args@,
                    );
                }
                Ok(built)
            },
            Err(error) => {
                let text = String::from_str("Failed to add additional arguments: ").concat(
                    error.message().as_str(),
                );
                assert(text@ =~= additional_failure_head() + "Invalid argument: "@
                    + error.detail());
                Err(Error::InvalidArgument(text))
            },
        }
    }

    fn create(
        package_id: ObjectID,
        module: &str,
        state: &State,
        immutable_description: &Option<String>,
        updatable_metadata: &Option<String>,
        lock: TimeLock,
    ) -> (transaction: Result<ProgrammableTransaction, Error>)
        ensures
            match transaction {
                Ok(built) => {
                    &&& creation_fits(
                        state@,
                        text_of(*immutable_description),
                        text_of(*updatable_metadata),
                    )
                    &&& built@ == creation_plan(
                        package_id@,
                        module@,
                        state@,
                        text_of(*immutable_description),
                        text_of(*updatable_metadata),
                        lock,
                    )
                    &&& well_addressed(built@)
                },
                Err(error) => creation_failure(
                    state@,
                    text_of(*immutable_description),
                    text_of(*updatable_metadata),
                ) == Some(error@),
            },
    {
        let mut ptb = ProgrammableTransactionBuilder::new();
        let tag = state.data.tag();
        let clock = get_clock_ref(&mut ptb);
        let state_arg = match state.into_ptb(&mut ptb, package_id) {
            Ok(argument) => argument,
            Err(error) => {
                return Err(error);
            },
        };
        let description = match ptb_pure(
            &mut ptb,
            "immutable_description",
            PureValue::OptionalText(immutable_description),
        ) {
            Ok(argument) => argument,
            Err(error) => {
                return Err(error);
            },
        };
        let metadata = match ptb_pure(
            &mut ptb,
            "updatable_metadata",
            PureValue::OptionalText(updatable_metadata),
        ) {
            Ok(argument) => argument,
            Err(error) => {
                return Err(error);
            },
        };
        assert(state_plan(1, package_id@, state@).len() == 3);
        assert(ptb@.len() == 6);
        let lock_arg = match lock.to_ptb(&mut ptb, package_id) {
            Ok(argument) => argument,
            Err(error) => {
                return Err(error);
            },
        };
        let types: Vec<TypeTag> = vec![tag];
        let args: Vec<Argument> = vec![state_arg, description, metadata, lock_arg, clock];
        assert(tag_texts(types@) =~= seq![data_type(state@.data)]);
        assert(positions(args@) =~= seq![
            3nat,
            4,
            5,
            (5 + lock_plan(6, package_id@, lock).len()) as nat,
            0,
        ]);
        ptb.programmable_move_call(package_id, module, "create", types, args);
        let built = ptb.finish();
        proof {
            assert(built@ =~= creation_plan(
                package_id@,
                module@,
                state@,
                text_of(*immutable_description),
                text_of(*updatable_metadata),
                lock,
            ));
            lemma_creation_plan_well_addressed(
                package_id@,
                module@,
                state@,
                text_of(*immutable_description),
                text_of(*updatable_metadata),
                lock,
            );
        }
        Ok(built)
    }

    /// Build a transaction that creates a new locked notarization.
    ///
    /// Fails exactly when the state, the description or the metadata is too long to be
    /// encoded, with the failure of `creation_failure`.
    pub fn new_locked(
        package_id: ObjectID,
        state: &State,
        immutable_description: &Option<String>,
        updatable_metadata: &Option<String>,
        delete_lock: TimeLock,
    ) -> (transaction: Result<ProgrammableTransaction, Error>)
        ensures
            match transaction {
                Ok(built) => {
                    &&& creation_fits(
                        state@,
                        text_of(*immutable_description),
                        text_of(*updatable_metadata),
                    )
                    &&& built@ == creation_plan(
                        package_id@,
                        "locked_notarization"@,
                        state@,
                        text_of(*immutable_description),
                        text_of(*updatable_metadata),
                        delete_lock,
                    )
                    &&& well_addressed(built@)
                },
                Err(error) => creation_failure(
                    state@,
                    text_of(*immutable_description),
                    text_of(*updatable_metadata),
                ) == Some(error@),
            },
    {
        Self::create(
            package_id,
            "locked_notarization",
            state,
            immutable_description,
            updatable_metadata,
            delete_lock,
        )
    }

    /// Build a transaction that creates a new dynamic notarization.
    ///
    /// Fails exactly when the state, the description or the metadata is too long to be
    /// encoded, with the failure of `creation_failure`.
    pub fn new_dynamic(
        package_id: ObjectID,
        state: &State,
        immutable_description: &Option<String>,
        updatable_metadata: &Option<String>,
        transfer_lock: TimeLock,
    ) -> (transaction: Result<ProgrammableTransaction, Error>)
        ensures
            match transaction {
                Ok(built) => {
                    &&& creation_fits(
                        state@,
                        text_of(*immutable_description),
                        text_of(*updatable_metadata),
                    )
                    &&& built@ == creation_plan(
                        package_id@,
                        "dynamic_notarization"@,
                        state@,
                        text_of(*immutable_description),
                        text_of(*updatable_metadata),
                        transfer_lock,
                    )
                    &&& well_addressed(built@)
                },
                Err(error) => creation_failure(
                    state@,
                    text_of(*immutable_description),
                    text_of(*updatable_metadata),
                ) == Some(error@),
            },
    {
        Self::create(
            package_id,
            "dynamic_notarization",
            state,
            immutable_description,
            updatable_metadata,
            transfer_lock,
        )
    }

    /// Build a transaction that updates the state of a notarization.
    pub fn update_state(
        package_id: ObjectID,
        tag: TypeTag,
        notarization: ObjectRef,
        new_state: &State,
    ) -> (transaction: Result<ProgrammableTransaction, Error>)
        ensures
            compiles_to(
                transaction,
                package_id@,
                tag@,
                notarization@,
                "update_state"@,
                AdditionalView::State(new_state@),
            ),
    {
        Self::build_transaction(package_id, tag, notarization, "update_state", Additional::State(new_state))
    }

    /// Build a transaction that destroys a notarization.
    pub fn destroy(
        package_id: ObjectID,
        tag: TypeTag,
        notarization: ObjectRef,
    ) -> (transaction: Result<ProgrammableTransaction, Error>)
        ensures
            compiles_to(
                transaction,
                package_id@,
                tag@,
                notarization@,
                "destroy"@,
                AdditionalView::Clock,
            ),
    {
        Self::build_transaction(package_id, tag, notarization, "destroy", Additional::Clock)
    }

    /// Build a transaction that updates the metadata of a notarization.
    pub fn update_metadata(
        package_id: ObjectID,
        tag: TypeTag,
        notarization: ObjectRef,
        new_metadata: &Option<String>,
    ) -> (transaction: Result<ProgrammableTransaction, Error>)
        ensures
            compiles_to(
                transaction,
                package_id@,
                tag@,
                notarization@,
                "update_metadata"@,
                AdditionalView::Metadata(text_of(*new_metadata)),
            ),
    {
        Self::build_transaction(package_id, tag, notarization, "update_metadata", Additional::Metadata(new_metadata))
    }

    /// Build a transaction that returns the notarization method.
    pub fn notarization_method(
        package_id: ObjectID,
        tag: TypeTag,
        notarization: ObjectRef,
    ) -> (transaction: Result<ProgrammableTransaction, Error>)
        ensures
            compiles_to(
                transaction,
                package_id@,
                tag@,
                notarization@,
                "notarization_method"@,
                AdditionalView::Nothing,
            ),
    {
        Self::build_transaction(package_id, tag, notarization, "notarization_method", Additional::Nothing)
    }

    /// Build a transaction that checks if the notarization is locked for update.
    pub fn is_update_locked(
        package_id: ObjectID,
        tag: TypeTag,
        notarization: ObjectRef,
    ) -> (transaction: Result<ProgrammableTransaction, Error>)
        ensures
            compiles_to(
                transaction,
                package_id@,
                tag@,
                notarization@,
                "is_update_locked"@,
                AdditionalView::Clock,
            ),
    {
        Self::build_transaction(package_id, tag, notarization, "is_update_locked", Additional::Clock)
    }

    /// Build a transaction that checks if the notarization is allowed to be destroyed.
    pub fn is_destroy_allowed(
        package_id: ObjectID,
        tag: TypeTag,
        notarization: ObjectRef,
    ) -> (transaction: Result<ProgrammableTransaction, Error>)
        ensures
            compiles_to(
                transaction,
                package_id@,
                tag@,
                notarization@,
                "is_destroy_allowed"@,
                AdditionalView::Clock,
            ),
    {
        Self::build_transaction(package_id, tag, notarization, "is_destroy_allowed", Additional::Clock)
    }

    /// Build a transaction that checks if the notarization is locked for transfer.
    pub fn is_transfer_locked(
        package_id: ObjectID,
        tag: TypeTag,
        notarization: ObjectRef,
    ) -> (transaction: Result<ProgrammableTransaction, Error>)
        ensures
            compiles_to(
                transaction,
                package_id@,
                tag@,
                notarization@,
                "is_transfer_locked"@,
                AdditionalView::Clock,
            ),
    {
        Self::build_transaction(package_id, tag, notarization, "is_transfer_locked", Additional::Clock)
    }

    /// Build a transaction that returns the time of the last state change.
    pub fn last_change_ts(
        package_id: ObjectID,
        tag: TypeTag,
        notarization: ObjectRef,
    ) -> (transaction: Result<ProgrammableTransaction, Error>)
        ensures
            compiles_to(
                transaction,
                package_id@,
                tag@,
                notarization@,
                "last_change"@,
                AdditionalView::Nothing,
            ),
    {
        Self::build_transaction(package_id, tag, notarization, "last_change", Additional::Nothing)
    }

    /// Build a transaction that returns the number of state changes.
    pub fn version_count(
        package_id: ObjectID,
        tag: TypeTag,
        notarization: ObjectRef,
    ) -> (transaction: Result<ProgrammableTransaction, Error>)
        ensures
            compiles_to(
                transaction,
                package_id@,
                tag@,
                notarization@,
                "version_count"@,
                AdditionalView::Nothing,
            ),
    {
        Self::build_transaction(package_id, tag, notarization, "version_count", Additional::Nothing)
    }

    /// Build a transaction that returns the time of creation.
    pub fn created_at(
        package_id: ObjectID,
        tag: TypeTag,
        notarization: ObjectRef,
    ) -> (transaction: Result<ProgrammableTransaction, Error>)
        ensures
            compiles_to(
                transaction,
                package_id@,
                tag@,
                notarization@,
                "created_at"@,
                AdditionalView::Nothing,
            ),
    {
        Self::build_transaction(package_id, tag, notarization, "created_at", Additional::Nothing)
    }

    /// Build a transaction that returns the immutable description.
    pub fn description(
        package_id: ObjectID,
        tag: TypeTag,
        notarization: ObjectRef,
    ) -> (transaction: Result<ProgrammableTransaction, Error>)
        ensures
            compiles_to(
                transaction,
                package_id@,
                tag@,
                notarization@,
                "description"@,
                AdditionalView::Nothing,
            ),
    {
        Self::build_transaction(package_id, tag, notarization, "description", Additional::Nothing)
    }

    /// Build a transaction that returns the updatable metadata.
    pub fn updatable_metadata(
        package_id: ObjectID,
        tag: TypeTag,
        notarization: ObjectRef,
    ) -> (transaction: Result<ProgrammableTransaction, Error>)
        ensures
            compiles_to(
                transaction,
                package_id@,
                tag@,
                notarization@,
                "updatable_metadata"@,
                AdditionalView::Nothing,
            ),
    {
        Self::build_transaction(package_id, tag, notarization, "updatable_metadata", Additional::Nothing)
    }

    /// Build a transaction that returns the lock metadata.
    pub fn lock_metadata(
        package_id: ObjectID,
        tag: TypeTag,
        notarization: ObjectRef,
    ) -> (transaction: Result<ProgrammableTransaction, Error>)
        ensures
            compiles_to(
                transaction,
                package_id@,
                tag@,
                notarization@,
                "lock_metadata"@,
                AdditionalView::Nothing,
            ),
    {
        Self::build_transaction(package_id, tag, notarization, "lock_metadata", Additional::Nothing)
    }

    /// Build a transaction that returns the state.
    pub fn state(
        package_id: ObjectID,
        tag: TypeTag,
        notarization: ObjectRef,
    ) -> (transaction: Result<ProgrammableTransaction, Error>)
        ensures
            compiles_to(
                transaction,
                package_id@,
                tag@,
                notarization@,
                "state"@,
                AdditionalView::Nothing,
            ),
    {
        Self::build_transaction(package_id, tag, notarization, "state", Additional::Nothing)
    }

    /// Build a transaction that transfers a dynamic notarization to `recipient`.
    pub fn transfer_notarization(
        package_id: ObjectID,
        tag: TypeTag,
        notarization: ObjectRef,
        recipient: IotaAddress,
    ) -> (transaction: Result<ProgrammableTransaction, Error>)
        ensures
            transaction is Ok,
            transaction matches Ok(built) ==> {
                &&& built@ == transfer_plan(package_id@, tag@, notarization@, recipient@)
                &&& well_addressed(built@)
            },
    {
        let mut ptb = ProgrammableTransactionBuilder::new();
        let recipient_arg = ptb.pure_bytes(recipient.to_vec());
        let object = ptb.obj(notarization);
        let clock = get_clock_ref(&mut ptb);
        let types: Vec<TypeTag> = vec![tag];
        let args: Vec<Argument> = vec![object, recipient_arg, clock];
        assert(tag_texts(types@) =~= seq![tag@]);
        assert(positions(args@) =~= seq![1nat, 0, 2]);
        ptb.programmable_move_call(package_id, "dynamic_notarization", "transfer", types, args);
        let built = ptb.finish();
        assert(built@ =~= transfer_plan(package_id@, tag@, notarization@, recipient@));
        Ok(built)
    }
}

} // verus!
