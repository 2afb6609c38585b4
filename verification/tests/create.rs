use notarization::builder::Dynamic;
use notarization::builder::Locked;
use notarization::builder::NotarizationBuilder;
use notarization::error::Error;
use notarization::programmable::Argument;
use notarization::programmable::Instruction;
use notarization::programmable::MoveCall;
use notarization::transactions::create::get_object_ref_by_id_with_bcs;
use notarization::transactions::create::ContentLookup;
use notarization::transactions::create::CreateNotarization;
use notarization::transactions::create::FirstEvent;
use notarization::types::event::DynamicNotarizationCreated;
use notarization::types::event::Event;
use notarization::types::event::LockedNotarizationCreated;
use notarization::types::metadata::ImmutableMetadata;
use notarization::types::notarization::OnChainNotarization;
use notarization::types::object::ObjectID;
use notarization::types::state::Data;
use notarization::types::state::State;
use notarization::types::timelock::LockMetadata;
use notarization::types::timelock::TimeLock;
use notarization::types::type_tag::TypeTag;
use notarization::types::NotarizationMethod;

#[test]
fn test_dynamic_notarization_invariants() {
    let are_dynamic_notarization_invariants_ok = CreateNotarization::<()>::are_dynamic_notarization_invariants_ok;

    assert!(are_dynamic_notarization_invariants_ok(&None));
    assert!(are_dynamic_notarization_invariants_ok(&Some(LockMetadata {
        update_lock: TimeLock::NoLock,
        delete_lock: TimeLock::NoLock,
        transfer_lock: TimeLock::UntilDestroyed,
    })));
    assert!(!are_dynamic_notarization_invariants_ok(&Some(LockMetadata {
        update_lock: TimeLock::NoLock,
        delete_lock: TimeLock::NoLock,
        transfer_lock: TimeLock::NoLock,
    })));
}

#[test]
fn test_locked_notarization_invariants() {
    let are_locked_notarization_invariants_ok = CreateNotarization::<()>::are_locked_notarization_invariants_ok;

    assert!(!are_locked_notarization_invariants_ok(&None));
    assert!(are_locked_notarization_invariants_ok(&Some(LockMetadata {
        update_lock: TimeLock::UntilDestroyed,
        delete_lock: TimeLock::UntilDestroyed,
        transfer_lock: TimeLock::UntilDestroyed,
    })));
    assert!(!are_locked_notarization_invariants_ok(&Some(LockMetadata {
        update_lock: TimeLock::UntilDestroyed,
        delete_lock: TimeLock::UntilDestroyed,
        transfer_lock: TimeLock::NoLock,
    })));
}

#[test]
fn dynamic_invariants_want_the_other_locks_absent() {
    let ok = CreateNotarization::<()>::are_dynamic_notarization_invariants_ok;
    assert!(ok(&Some(LockMetadata {
        update_lock: TimeLock::NoLock,
        delete_lock: TimeLock::NoLock,
        transfer_lock: TimeLock::UnlockAt(5),
    })));
    assert!(!ok(&Some(LockMetadata {
        update_lock: TimeLock::UntilDestroyed,
        delete_lock: TimeLock::NoLock,
        transfer_lock: TimeLock::UnlockAt(5),
    })));
    assert!(!ok(&Some(LockMetadata {
        update_lock: TimeLock::NoLock,
        delete_lock: TimeLock::UnlockAt(1),
        transfer_lock: TimeLock::UnlockAt(5),
    })));
}

#[test]
fn locked_invariants_leave_the_delete_lock_free() {
    let ok = CreateNotarization::<()>::are_locked_notarization_invariants_ok;
    for delete_lock in [TimeLock::NoLock, TimeLock::UnlockAt(9), TimeLock::UntilDestroyed] {
        assert!(ok(&Some(LockMetadata {
            update_lock: TimeLock::UntilDestroyed,
            delete_lock,
            transfer_lock: TimeLock::UntilDestroyed,
        })));
    }
    assert!(!ok(&Some(LockMetadata {
        update_lock: TimeLock::NoLock,
        delete_lock: TimeLock::NoLock,
        transfer_lock: TimeLock::UntilDestroyed,
    })));
}

fn package() -> ObjectID {
    ObjectID::new([0x11; 32])
}

fn call(module: &str, function: &str, types: Vec<&str>, arguments: Vec<usize>) -> Instruction {
    Instruction::Call(MoveCall {
        package: package(),
        module: module.to_string(),
        function: function.to_string(),
        type_arguments: types.into_iter().map(|t| TypeTag::new(t.to_string())).collect(),
        arguments: arguments.into_iter().map(|position| Argument { position }).collect(),
    })
}

const STRING_TYPE: &str =
    "0x0000000000000000000000000000000000000000000000000000000000000001::string::String";

#[test]
fn a_fresh_builder_holds_only_its_method() {
    let locked = NotarizationBuilder::locked();
    assert_eq!(locked.method, NotarizationMethod::Locked);
    assert!(locked.state.is_none());
    assert!(locked.immutable_description.is_none());
    assert!(locked.updatable_metadata.is_none());
    assert!(locked.delete_lock.is_none());
    assert!(locked.transfer_lock.is_none());
    let dynamic = NotarizationBuilder::dynamic();
    assert_eq!(dynamic.method, NotarizationMethod::Dynamic);
    assert!(dynamic.state.is_none());
    assert!(dynamic.delete_lock.is_none());
    assert!(dynamic.transfer_lock.is_none());
}

#[test]
fn setters_set_their_field_and_keep_the_rest() {
    let builder = NotarizationBuilder::locked()
        .with_string_state("doc".to_string(), Some("v1".to_string()))
        .with_immutable_description("contract".to_string())
        .with_updatable_metadata("draft".to_string())
        .with_delete_lock(TimeLock::UnlockAt(77));
    assert_eq!(builder.state, Some(State::from_string("doc".to_string(), Some("v1".to_string()))));
    assert_eq!(builder.immutable_description, Some("contract".to_string()));
    assert_eq!(builder.updatable_metadata, Some("draft".to_string()));
    assert_eq!(builder.delete_lock, Some(TimeLock::UnlockAt(77)));
    assert_eq!(builder.transfer_lock, None);
    assert_eq!(builder.method, NotarizationMethod::Locked);

    let builder = NotarizationBuilder::dynamic()
        .with_bytes_state(vec![1, 2], None)
        .with_transfer_lock(TimeLock::UntilDestroyed)
        .with_state(State::from_bytes(vec![3], None));
    assert_eq!(builder.state, Some(State::from_bytes(vec![3], None)));
    assert_eq!(builder.transfer_lock, Some(TimeLock::UntilDestroyed));
    assert_eq!(builder.delete_lock, None);
    assert_eq!(builder.method, NotarizationMethod::Dynamic);

    let copy = builder.clone();
    assert_eq!(copy.state, builder.state);
    assert_eq!(copy.transfer_lock, builder.transfer_lock);
    assert_eq!(copy.method, builder.method);
}

#[test]
fn finish_never_fails_and_nothing_is_compiled_yet() {
    let created = NotarizationBuilder::locked().finish().unwrap();
    assert_eq!(created.method(), NotarizationMethod::Locked);
    assert!(created.cached_programmable_transaction().is_none());
    let created = NotarizationBuilder::dynamic().finish();
    assert_eq!(created.method(), NotarizationMethod::Dynamic);
    assert!(created.cached_programmable_transaction().is_none());
}

#[test]
fn a_locked_notarization_without_delete_lock_gets_the_absent_lock() {
    let created = NotarizationBuilder::locked()
        .with_bytes_state(vec![1, 2, 3], Some("m".to_string()))
        .with_immutable_description("d".to_string())
        .finish()
        .unwrap();
    let transaction = created.make_ptb("testnet", Some(package())).unwrap();
    assert_eq!(
        transaction.instructions,
        vec![
            Instruction::Clock,
            Instruction::Pure(vec![3, 1, 2, 3]),
            Instruction::Pure(vec![1, 1, b'm']),
            call("notarization", "new_state_from_bytes", vec![], vec![1, 2]),
            Instruction::Pure(vec![1, 1, b'd']),
            Instruction::Pure(vec![0]),
            call("timelock", "none", vec![], vec![]),
            call("locked_notarization", "create", vec!["vector<u8>"], vec![3, 4, 5, 6, 0]),
        ]
    );
}

#[test]
fn a_locked_notarization_with_an_unlock_time() {
    let created = NotarizationBuilder::locked()
        .with_string_state("hi".to_string(), None)
        .with_updatable_metadata("u".to_string())
        .with_delete_lock(TimeLock::UnlockAt(0x0a0b0c0d))
        .finish()
        .unwrap();
    let transaction = created.make_ptb("testnet", Some(package())).unwrap();
    assert_eq!(
        transaction.instructions,
        vec![
            Instruction::Clock,
            Instruction::Pure(vec![2, b'h', b'i']),
            Instruction::Pure(vec![0]),
            call("notarization", "new_state_from_string", vec![], vec![1, 2]),
            Instruction::Pure(vec![0]),
            Instruction::Pure(vec![1, 1, b'u']),
            Instruction::Clock,
            Instruction::Pure(vec![0x0d, 0x0c, 0x0b, 0x0a]),
            call("timelock", "unlock_at", vec![], vec![7, 6]),
            call("locked_notarization", "create", vec![STRING_TYPE], vec![3, 4, 5, 8, 0]),
        ]
    );
}

#[test]
fn a_dynamic_notarization_with_and_without_transfer_lock() {
    let created = NotarizationBuilder::dynamic().with_bytes_state(vec![], None).finish();
    let transaction = created.make_ptb("testnet", Some(package())).unwrap();
    assert_eq!(
        transaction.instructions,
        vec![
            Instruction::Clock,
            Instruction::Pure(vec![0]),
            Instruction::Pure(vec![0]),
            call("notarization", "new_state_from_bytes", vec![], vec![1, 2]),
            Instruction::Pure(vec![0]),
            Instruction::Pure(vec![0]),
            call("timelock", "none", vec![], vec![]),
            call("dynamic_notarization", "create", vec!["vector<u8>"], vec![3, 4, 5, 6, 0]),
        ]
    );
    let created = NotarizationBuilder::dynamic()
        .with_bytes_state(vec![], None)
        .with_transfer_lock(TimeLock::UntilDestroyed)
        .finish();
    let transaction = created.make_ptb("testnet", Some(package())).unwrap();
    assert_eq!(
        transaction.instructions[6],
        call("timelock", "until_destroyed", vec![], vec![])
    );
    assert_eq!(
        transaction.instructions[7],
        call("dynamic_notarization", "create", vec!["vector<u8>"], vec![3, 4, 5, 6, 0])
    );
}

#[test]
fn a_missing_package_is_reported_first() {
    let created = NotarizationBuilder::dynamic().finish();
    assert_eq!(
        created.make_ptb("devnet", None),
        Err(Error::InvalidConfig(
            "cannot find Notarization package ID for network devnet".to_string()
        ))
    );
}

#[test]
fn a_state_is_required() {
    let created = NotarizationBuilder::dynamic().with_transfer_lock(TimeLock::UnlockAt(1)).finish();
    assert_eq!(
        created.make_ptb("testnet", Some(package())),
        Err(Error::InvalidArgument("State is required".to_string()))
    );
    let created = NotarizationBuilder::locked().finish().unwrap();
    assert_eq!(
        created.make_ptb("testnet", Some(package())),
        Err(Error::InvalidArgument("State is required".to_string()))
    );
}

#[test]
fn a_lock_of_the_other_method_is_refused() {
    let mut builder: NotarizationBuilder<Dynamic> =
        NotarizationBuilder::dynamic().with_bytes_state(vec![1], None);
    builder.delete_lock = Some(TimeLock::NoLock);
    assert_eq!(
        builder.finish().make_ptb("testnet", Some(package())),
        Err(Error::InvalidArgument(
            "Delete lock cannot be set for dynamic notarizations".to_string()
        ))
    );
    let mut builder: NotarizationBuilder<Locked> =
        NotarizationBuilder::locked().with_bytes_state(vec![1], None);
    builder.transfer_lock = Some(TimeLock::UntilDestroyed);
    assert_eq!(
        builder.finish().unwrap().make_ptb("testnet", Some(package())),
        Err(Error::InvalidArgument(
            "Transfer lock cannot be set for locked notarizations".to_string()
        ))
    );
}

#[test]
fn a_dynamic_transfer_lock_must_not_be_the_absent_lock() {
    let created = NotarizationBuilder::dynamic()
        .with_bytes_state(vec![1], None)
        .with_transfer_lock(TimeLock::NoLock)
        .finish();
    assert_eq!(
        created.make_ptb("testnet", Some(package())),
        Err(Error::InvalidArgument(
            "Dynamic notarization invariants are not satisfied".to_string()
        ))
    );
}

#[test]
fn compiling_twice_gives_the_same_transaction() {
    let mut created = NotarizationBuilder::locked()
        .with_string_state("same".to_string(), None)
        .with_delete_lock(TimeLock::UnlockAt(42))
        .finish()
        .unwrap();
    let first = created.build_programmable_transaction("testnet", Some(package())).unwrap();
    assert_eq!(created.cached_programmable_transaction(), Some(first.clone()));
    let second = created.build_programmable_transaction("testnet", Some(package())).unwrap();
    assert_eq!(first, second);
    let without_lookup = created.build_programmable_transaction("elsewhere", None).unwrap();
    assert_eq!(first, without_lookup);
    assert_eq!(first, created.make_ptb("testnet", Some(package())).unwrap());
}

#[test]
fn a_copy_of_a_creation_keeps_what_was_compiled() {
    let mut created = NotarizationBuilder::dynamic().with_bytes_state(vec![8], None).finish();
    let blank = created.clone();
    assert!(blank.cached_programmable_transaction().is_none());
    assert_eq!(blank.method(), NotarizationMethod::Dynamic);
    let built = created.build_programmable_transaction("testnet", Some(package())).unwrap();
    let copy = created.clone();
    assert_eq!(copy.cached_programmable_transaction(), Some(built.clone()));
    assert_eq!(copy.make_ptb("testnet", Some(package())), Ok(built));
}

#[test]
fn a_failed_compilation_is_not_kept() {
    let mut created = NotarizationBuilder::dynamic().with_bytes_state(vec![5], None).finish();
    assert!(created.build_programmable_transaction("testnet", None).is_err());
    assert!(created.cached_programmable_transaction().is_none());
    let built = created.build_programmable_transaction("testnet", Some(package())).unwrap();
    assert_eq!(created.cached_programmable_transaction(), Some(built));
}

fn notarization_bytes(data: &[u8], locking: &[u8], method: u8) -> Vec<u8> {
    let mut bytes = vec![0x22u8; 32];
    bytes.extend(bcs::to_bytes(&data.to_vec()).unwrap());
    bytes.extend(bcs::to_bytes(&Some("state meta".to_string())).unwrap());
    bytes.extend(bcs::to_bytes(&1_700_000_000_123u64).unwrap());
    bytes.extend(bcs::to_bytes(&Some("description".to_string())).unwrap());
    bytes.extend_from_slice(locking);
    bytes.extend(bcs::to_bytes(&None::<String>).unwrap());
    bytes.extend(bcs::to_bytes(&1_700_000_000_456u64).unwrap());
    bytes.extend(bcs::to_bytes(&3u64).unwrap());
    bytes.push(method);
    bytes
}

fn expected_notarization(data: Data, locking: Option<LockMetadata>, method: NotarizationMethod) -> OnChainNotarization {
    OnChainNotarization {
        id: ObjectID::new([0x22; 32]),
        state: State { data, metadata: Some("state meta".to_string()) },
        immutable_metadata: ImmutableMetadata {
            created_at: 1_700_000_000_123,
            description: Some("description".to_string()),
            locking,
        },
        updatable_metadata: None,
        last_state_change_at: 1_700_000_000_456,
        state_version_count: 3,
        method,
    }
}

#[test]
fn a_notarization_is_read_from_its_content() {
    let locking = [1u8, 1, 0, 0x10, 0x20, 0x30, 0x40, 1];
    let bytes = notarization_bytes(b"hello world", &locking, 1);
    assert_eq!(
        get_object_ref_by_id_with_bcs(ContentLookup::Content(bytes)),
        Ok(expected_notarization(
            Data::Text("hello world".to_string()),
            Some(LockMetadata {
                update_lock: TimeLock::UntilDestroyed,
                delete_lock: TimeLock::UnlockAt(0x40302010),
                transfer_lock: TimeLock::UntilDestroyed,
            }),
            NotarizationMethod::Locked,
        ))
    );
    let long = vec![0x80u8; 1000];
    let bytes = notarization_bytes(&long, &[0], 0);
    assert_eq!(
        get_object_ref_by_id_with_bcs(ContentLookup::Content(bytes)),
        Ok(expected_notarization(Data::Bytes(long), None, NotarizationMethod::Dynamic))
    );
    let bytes = notarization_bytes(&[], &[1, 2, 2, 2], 0);
    assert_eq!(
        get_object_ref_by_id_with_bcs(ContentLookup::Content(bytes)),
        Ok(expected_notarization(
            Data::Text(String::new()),
            Some(LockMetadata {
                update_lock: TimeLock::NoLock,
                delete_lock: TimeLock::NoLock,
                transfer_lock: TimeLock::NoLock,
            }),
            NotarizationMethod::Dynamic,
        ))
    );
}

#[test]
fn content_that_is_no_notarization_is_refused() {
    let refused = Err(Error::ObjectLookup("invalid encoding of a notarization".to_string()));
    let good = notarization_bytes(b"abc", &[0], 0);
    let mut trailing = good.clone();
    trailing.push(0);
    assert_eq!(get_object_ref_by_id_with_bcs(ContentLookup::Content(trailing)), refused);
    let mut short = good.clone();
    short.pop();
    assert_eq!(get_object_ref_by_id_with_bcs(ContentLookup::Content(short)), refused);
    assert_eq!(get_object_ref_by_id_with_bcs(ContentLookup::Content(vec![])), refused);
    assert_eq!(
        get_object_ref_by_id_with_bcs(ContentLookup::Content(notarization_bytes(b"abc", &[0], 2))),
        refused
    );
    assert_eq!(
        get_object_ref_by_id_with_bcs(ContentLookup::Content(notarization_bytes(b"abc", &[2], 0))),
        refused
    );
    assert_eq!(
        get_object_ref_by_id_with_bcs(ContentLookup::Content(notarization_bytes(b"abc", &[1, 3, 1, 1], 0))),
        refused
    );
    let mut non_canonical = vec![0x22u8; 32];
    non_canonical.extend_from_slice(&[0x83, 0x00, b'a', b'b', b'c']);
    non_canonical.extend_from_slice(&good[36..]);
    assert_eq!(get_object_ref_by_id_with_bcs(ContentLookup::Content(non_canonical)), refused);
}

#[test]
fn lookups_without_content_are_reported() {
    assert_eq!(
        get_object_ref_by_id_with_bcs(ContentLookup::Failed("rpc down".to_string())),
        Err(Error::ObjectLookup("rpc down".to_string()))
    );
    assert_eq!(
        get_object_ref_by_id_with_bcs(ContentLookup::Missing),
        Err(Error::ObjectLookup("missing data in response".to_string()))
    );
    assert_eq!(
        get_object_ref_by_id_with_bcs(ContentLookup::NoContent),
        Err(Error::ObjectLookup("missing object content in data".to_string()))
    );
    assert_eq!(
        get_object_ref_by_id_with_bcs(ContentLookup::NotMoveObject),
        Err(Error::ObjectLookup("failed to convert data to move object".to_string()))
    );
}

#[test]
fn the_created_notarization_is_told_by_the_first_event() {
    let created = NotarizationBuilder::dynamic().finish();
    let id = ObjectID::new([0x22; 32]);
    let event = FirstEvent::Dynamic(Event { data: DynamicNotarizationCreated { notarization_id: id } });
    assert_eq!(created.created_id(&event), Ok(id));
    let event = FirstEvent::Locked(Event { data: LockedNotarizationCreated { notarization_id: id } });
    assert_eq!(created.created_id(&event), Ok(id));
    assert_eq!(
        created.created_id(&FirstEvent::Absent),
        Err(Error::TransactionUnexpectedResponse("events should be provided".to_string()))
    );
    assert_eq!(
        created.created_id(&FirstEvent::Unreadable("missing field".to_string())),
        Err(Error::TransactionUnexpectedResponse(
            "failed to parse event: missing field".to_string()
        ))
    );
}

#[test]
fn applying_a_creation_reads_the_notarization_back() {
    let id = ObjectID::new([0x22; 32]);
    let event = FirstEvent::Locked(Event { data: LockedNotarizationCreated { notarization_id: id } });
    let bytes = notarization_bytes(&[0, 1], &[1, 1, 2, 1], 1);
    let created = NotarizationBuilder::locked().finish().unwrap();
    let notarization = created
        .apply_with_events(event.clone(), ContentLookup::Content(bytes))
        .unwrap();
    assert_eq!(notarization.id, id);
    assert_eq!(notarization.state.data, Data::Bytes(vec![0, 1]));
    assert_eq!(notarization.method, NotarizationMethod::Locked);

    let created = NotarizationBuilder::locked().finish().unwrap();
    assert_eq!(
        created.apply_with_events(event, ContentLookup::Missing),
        Err(Error::ObjectLookup(
            "Failed to get object with options: missing data in response".to_string()
        ))
    );
    let created = NotarizationBuilder::locked().finish().unwrap();
    assert_eq!(
        created.apply_with_events(FirstEvent::Absent, ContentLookup::Missing),
        Err(Error::TransactionUnexpectedResponse("events should be provided".to_string()))
    );
}
