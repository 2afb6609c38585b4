use notarization::error::Error;
use notarization::operations::Additional;
use notarization::operations::NotarizationImpl;
use notarization::programmable::Argument;
use notarization::programmable::Instruction;
use notarization::programmable::MoveCall;
use notarization::programmable::ProgrammableTransaction;
use notarization::programmable::ProgrammableTransactionBuilder;
use notarization::transactions::cache::get;
use notarization::transactions::cache::get_or_keep;
use notarization::transactions::destroy::DestroyNotarization;
use notarization::transactions::transfer::TransferNotarization;
use notarization::transactions::update_metadata::UpdateMetadata;
use notarization::transactions::update_state::UpdateState;
use notarization::types::object::IotaAddress;
use notarization::types::object::ObjectID;
use notarization::types::object::ObjectRef;
use notarization::types::state::State;
use notarization::types::timelock::new_none;
use notarization::types::timelock::new_unlock_at;
use notarization::types::timelock::new_until_destroyed;
use notarization::types::timelock::TimeLock;
use notarization::types::type_tag::TypeTag;

fn package() -> ObjectID {
    ObjectID::new([0x11; 32])
}

fn target() -> ObjectRef {
    ObjectRef { object_id: ObjectID::new([0x33; 32]), version: 12, digest: [0x44; 32] }
}

fn tag() -> TypeTag {
    TypeTag::byte_vector()
}

fn call(module: &str, function: &str, types: Vec<&str>, arguments: Vec<usize>) -> Instruction {
    Instruction::Call(MoveCall {
        package: package(),
        module: module.to_string(),
        function: function.to_string(),
        type_arguments: types.into_iter().map(|t| TypeTag::new(t.to_string())).collect(),
        arguments: arguments.into_iter().map(|position| Argument { position }).collect(),
    })
}

fn every_argument_comes_from_an_earlier_instruction(transaction: &ProgrammableTransaction) -> bool {
    transaction.instructions.iter().enumerate().all(|(i, instruction)| match instruction {
        Instruction::Call(call) => call.arguments.iter().all(|argument| argument.position < i),
        _ => true,
    })
}

#[test]
fn locks_compile_to_their_constructors() {
    let mut ptb = ProgrammableTransactionBuilder::new();
    let first = TimeLock::UnlockAt(258).to_ptb(&mut ptb, package()).unwrap();
    let second = TimeLock::UntilDestroyed.to_ptb(&mut ptb, package()).unwrap();
    let third = TimeLock::NoLock.to_ptb(&mut ptb, package()).unwrap();
    assert_eq!((first.position, second.position, third.position), (2, 3, 4));
    let fourth = new_unlock_at(&mut ptb, 1, package()).unwrap();
    let fifth = new_until_destroyed(&mut ptb, package()).unwrap();
    let sixth = new_none(&mut ptb, package()).unwrap();
    assert_eq!((fourth.position, fifth.position, sixth.position), (7, 8, 9));
    let transaction = ptb.finish();
    assert_eq!(
        transaction.instructions,
        vec![
            Instruction::Clock,
            Instruction::Pure(vec![2, 1, 0, 0]),
            call("timelock", "unlock_at", vec![], vec![1, 0]),
            call("timelock", "until_destroyed", vec![], vec![]),
            call("timelock", "none", vec![], vec![]),
            Instruction::Clock,
            Instruction::Pure(vec![1, 0, 0, 0]),
            call("timelock", "unlock_at", vec![], vec![6, 5]),
            call("timelock", "until_destroyed", vec![], vec![]),
            call("timelock", "none", vec![], vec![]),
        ]
    );
    assert!(every_argument_comes_from_an_earlier_instruction(&transaction));
}

#[test]
fn a_state_compiles_to_its_constructor() {
    let mut ptb = ProgrammableTransactionBuilder::new();
    ptb.clock();
    let state = State::from_string("ab".to_string(), Some("c".to_string()));
    let argument = state.into_ptb(&mut ptb, package()).unwrap();
    assert_eq!(argument.position, 3);
    assert_eq!(
        ptb.finish().instructions,
        vec![
            Instruction::Clock,
            Instruction::Pure(vec![2, b'a', b'b']),
            Instruction::Pure(vec![1, 1, b'c']),
            call("notarization", "new_state_from_string", vec![], vec![1, 2]),
        ]
    );
}

#[test]
fn creation_transactions_of_both_methods() {
    let state = State::from_bytes(vec![9], None);
    let locked = NotarizationImpl::new_locked(
        package(),
        &state,
        &Some("d".to_string()),
        &None,
        TimeLock::UntilDestroyed,
    )
    .unwrap();
    let dynamic = NotarizationImpl::new_dynamic(
        package(),
        &state,
        &Some("d".to_string()),
        &None,
        TimeLock::UntilDestroyed,
    )
    .unwrap();
    assert_eq!(locked.instructions.len(), 8);
    assert_eq!(locked.instructions[..7], dynamic.instructions[..7]);
    assert_eq!(
        locked.instructions[7],
        call("locked_notarization", "create", vec!["vector<u8>"], vec![3, 4, 5, 6, 0])
    );
    assert_eq!(
        dynamic.instructions[7],
        call("dynamic_notarization", "create", vec!["vector<u8>"], vec![3, 4, 5, 6, 0])
    );
    assert!(every_argument_comes_from_an_earlier_instruction(&locked));
    assert!(every_argument_comes_from_an_earlier_instruction(&dynamic));
}

#[test]
fn update_state_brings_the_state_and_the_clock() {
    let state = State::from_bytes(vec![1, 2], Some("m".to_string()));
    let transaction = NotarizationImpl::update_state(package(), tag(), target(), &state).unwrap();
    assert_eq!(
        transaction.instructions,
        vec![
            Instruction::Object(target()),
            Instruction::Pure(vec![2, 1, 2]),
            Instruction::Pure(vec![1, 1, b'm']),
            call("notarization", "new_state_from_bytes", vec![], vec![1, 2]),
            Instruction::Clock,
            call("notarization", "update_state", vec!["vector<u8>"], vec![0, 3, 4]),
        ]
    );
    assert!(every_argument_comes_from_an_earlier_instruction(&transaction));
}

#[test]
fn update_metadata_brings_the_metadata_and_the_clock() {
    let transaction =
        NotarizationImpl::update_metadata(package(), tag(), target(), &Some("new".to_string())).unwrap();
    assert_eq!(
        transaction.instructions,
        vec![
            Instruction::Object(target()),
            Instruction::Pure(vec![1, 3, b'n', b'e', b'w']),
            Instruction::Clock,
            call("notarization", "update_metadata", vec!["vector<u8>"], vec![0, 1, 2]),
        ]
    );
    let cleared = NotarizationImpl::update_metadata(package(), tag(), target(), &None).unwrap();
    assert_eq!(cleared.instructions[1], Instruction::Pure(vec![0]));
}

#[test]
fn operations_with_the_clock() {
    let cases = [
        (NotarizationImpl::destroy(package(), tag(), target()), "destroy"),
        (NotarizationImpl::is_update_locked(package(), tag(), target()), "is_update_locked"),
        (NotarizationImpl::is_destroy_allowed(package(), tag(), target()), "is_destroy_allowed"),
        (NotarizationImpl::is_transfer_locked(package(), tag(), target()), "is_transfer_locked"),
    ];
    for (transaction, method) in cases {
        assert_eq!(
            transaction.unwrap().instructions,
            vec![
                Instruction::Object(target()),
                Instruction::Clock,
                call("notarization", method, vec!["vector<u8>"], vec![0, 1]),
            ]
        );
    }
}

#[test]
fn accessors_take_the_object_only() {
    let cases = [
        (NotarizationImpl::notarization_method(package(), tag(), target()), "notarization_method"),
        (NotarizationImpl::last_change_ts(package(), tag(), target()), "last_change"),
        (NotarizationImpl::version_count(package(), tag(), target()), "version_count"),
        (NotarizationImpl::created_at(package(), tag(), target()), "created_at"),
        (NotarizationImpl::description(package(), tag(), target()), "description"),
        (NotarizationImpl::updatable_metadata(package(), tag(), target()), "updatable_metadata"),
        (NotarizationImpl::lock_metadata(package(), tag(), target()), "lock_metadata"),
        (NotarizationImpl::state(package(), tag(), target()), "state"),
    ];
    for (transaction, method) in cases {
        assert_eq!(
            transaction.unwrap().instructions,
            vec![
                Instruction::Object(target()),
                call("notarization", method, vec!["vector<u8>"], vec![0]),
            ]
        );
    }
}

#[test]
fn build_transaction_takes_any_method_name() {
    let transaction =
        NotarizationImpl::build_transaction(package(), TypeTag::string(), target(), "custom", Additional::Clock)
            .unwrap();
    assert_eq!(
        transaction.instructions[2],
        call(
            "notarization",
            "custom",
            vec!["0x0000000000000000000000000000000000000000000000000000000000000001::string::String"],
            vec![0, 1]
        )
    );
    let transaction =
        NotarizationImpl::build_transaction(package(), tag(), target(), "plain", Additional::Nothing).unwrap();
    assert_eq!(transaction.instructions.len(), 2);
}

#[test]
fn transfer_brings_recipient_object_and_clock() {
    let recipient = IotaAddress::new([0x55; 32]);
    let transaction = NotarizationImpl::transfer_notarization(package(), tag(), target(), recipient).unwrap();
    assert_eq!(
        transaction.instructions,
        vec![
            Instruction::Pure(vec![0x55; 32]),
            Instruction::Object(target()),
            Instruction::Clock,
            call("dynamic_notarization", "transfer", vec!["vector<u8>"], vec![1, 0, 2]),
        ]
    );
    assert!(every_argument_comes_from_an_earlier_instruction(&transaction));
}

#[test]
fn a_copy_of_a_transaction_holds_the_same() {
    let state = State::from_string("copy me".to_string(), None);
    let transaction = NotarizationImpl::update_state(package(), tag(), target(), &state).unwrap();
    assert_eq!(transaction.duplicate(), transaction);
}

#[test]
fn update_state_is_compiled_once() {
    let state = State::from_string("v2".to_string(), None);
    let mut update = UpdateState::new(state.clone(), target().object_id);
    assert_eq!(update.object_id(), target().object_id);
    assert!(update.cached_programmable_transaction().is_none());
    let first = update.build_programmable_transaction(package(), tag(), target()).unwrap();
    assert_eq!(first, NotarizationImpl::update_state(package(), tag(), target(), &state).unwrap());
    let other = ObjectRef { object_id: ObjectID::new([0x77; 32]), version: 99, digest: [0; 32] };
    let second = update
        .build_programmable_transaction(ObjectID::new([0; 32]), TypeTag::string(), other)
        .unwrap();
    assert_eq!(first, second);
    assert_eq!(update.cached_programmable_transaction(), Some(first.clone()));
    assert_eq!(update.make_ptb(package(), tag(), target()).unwrap(), first);
    assert_eq!(update.apply(), Ok(()));
}

#[test]
fn the_other_transactions_compile_to_their_operations() {
    let mut metadata = UpdateMetadata::new(Some("m".to_string()), target().object_id);
    assert_eq!(metadata.object_id(), target().object_id);
    assert_eq!(
        metadata.build_programmable_transaction(package(), tag(), target()),
        NotarizationImpl::update_metadata(package(), tag(), target(), &Some("m".to_string()))
    );
    assert!(metadata.cached_programmable_transaction().is_some());
    assert_eq!(metadata.apply(), Ok(()));

    let mut destroy = DestroyNotarization::new(target().object_id);
    assert_eq!(destroy.object_id(), target().object_id);
    assert_eq!(
        destroy.build_programmable_transaction(package(), tag(), target()),
        NotarizationImpl::destroy(package(), tag(), target())
    );
    assert_eq!(destroy.make_ptb(package(), tag(), target()), NotarizationImpl::destroy(package(), tag(), target()));
    assert_eq!(destroy.apply(), Ok(()));

    let recipient = IotaAddress::new([0x66; 32]);
    let mut transfer = TransferNotarization::new(recipient, target().object_id);
    assert_eq!(transfer.object_id(), target().object_id);
    let built = transfer.build_programmable_transaction(package(), tag(), target());
    assert_eq!(built, NotarizationImpl::transfer_notarization(package(), tag(), target(), recipient));
    assert_eq!(transfer.cached_programmable_transaction(), built.ok());
    assert_eq!(transfer.apply(), Ok::<(), Error>(()));
}

#[test]
fn the_cell_keeps_the_first_transaction_only() {
    let state = State::from_string("kept".to_string(), None);
    let first = NotarizationImpl::update_state(package(), tag(), target(), &state).unwrap();
    let second = NotarizationImpl::destroy(package(), tag(), target()).unwrap();
    let mut cell = tokio::sync::OnceCell::new();
    assert_eq!(get(&cell), None);
    assert_eq!(
        get_or_keep(&mut cell, Err(Error::GenericError("no".to_string()))),
        Err(Error::GenericError("no".to_string()))
    );
    assert_eq!(get(&cell), None);
    assert_eq!(get_or_keep(&mut cell, Ok(first.clone())), Ok(first.clone()));
    assert_eq!(get(&cell), Some(first.clone()));
    assert_eq!(get_or_keep(&mut cell, Ok(second)), Ok(first.clone()));
    assert_eq!(
        get_or_keep(&mut cell, Err(Error::GenericError("no".to_string()))),
        Ok(first.clone())
    );
    assert_eq!(cell.get(), Some(&first));
}

#[test]
fn a_cell_that_lost_its_permit_is_filled_all_the_same() {
    let first = NotarizationImpl::destroy(package(), tag(), target()).unwrap();
    let mut cell: tokio::sync::OnceCell<ProgrammableTransaction> = tokio::sync::OnceCell::new();
    {
        let mut abandoned = Box::pin(cell.get_or_init(|| std::future::pending::<ProgrammableTransaction>()));
        let mut context = std::task::Context::from_waker(std::task::Waker::noop());
        assert!(std::future::Future::poll(abandoned.as_mut(), &mut context).is_pending());
        std::mem::forget(abandoned);
    }
    assert!(cell.set(first.clone()).is_err());
    assert_eq!(get(&cell), None);
    assert_eq!(get_or_keep(&mut cell, Ok(first.clone())), Ok(first.clone()));
    assert_eq!(get(&cell), Some(first.clone()));
    let second = NotarizationImpl::state(package(), tag(), target()).unwrap();
    assert_eq!(get_or_keep(&mut cell, Ok(second)), Ok(first));
}
