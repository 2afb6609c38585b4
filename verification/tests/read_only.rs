use notarization::client::read_only::execute_read_only_transaction;
use notarization::client::read_only::ExecutionResult;
use notarization::client::read_only::Inspection;
use notarization::client::read_only::NotarizationClientReadOnly;
use notarization::client::read_only::StatePayload;
use notarization::decoding::read_byte_string;
use notarization::decoding::read_id;
use notarization::decoding::read_length;
use notarization::decoding::read_lock;
use notarization::decoding::read_optional_text;
use notarization::decoding::read_text;
use notarization::decoding::read_u64;
use notarization::error::Error;
use notarization::error::ErrorKind;
use notarization::package::notarization_package_id;
use notarization::transactions::create::ContentLookup;
use notarization::types::object::ObjectID;
use notarization::types::state::State;
use notarization::types::timelock::LockMetadata;
use notarization::types::timelock::TimeLock;
use notarization::types::type_tag::TypeTag;
use notarization::types::NotarizationMethod;

fn answer(bytes: Vec<u8>) -> Inspection {
    Inspection::Completed(Some(vec![
        ExecutionResult { return_values: vec![bytes, vec![0xee]] },
        ExecutionResult { return_values: vec![vec![0xdd]] },
    ]))
}

#[test]
fn the_answer_is_the_first_value_of_the_first_result() {
    assert_eq!(execute_read_only_transaction(answer(vec![1, 2, 3])), Ok(vec![1, 2, 3]));
    assert_eq!(execute_read_only_transaction(answer(vec![])), Ok(vec![]));
}

#[test]
fn answers_without_a_value_are_reported() {
    assert_eq!(
        execute_read_only_transaction(Inspection::Failed("no route".to_string())),
        Err(Error::UnexpectedApiResponse(
            "Failed to inspect transaction block: no route".to_string()
        ))
    );
    assert_eq!(
        execute_read_only_transaction(Inspection::Completed(None)),
        Err(Error::UnexpectedApiResponse(
            "DevInspectResults missing 'results' field".to_string()
        ))
    );
    assert_eq!(
        execute_read_only_transaction(Inspection::Completed(Some(vec![]))),
        Err(Error::UnexpectedApiResponse("Execution results list is empty".to_string()))
    );
    assert_eq!(
        execute_read_only_transaction(Inspection::Completed(Some(vec![ExecutionResult {
            return_values: vec![]
        }]))),
        Err(Error::UnexpectedApiResponse("should have at least one return value".to_string()))
    );
}

#[test]
fn numbers_are_read_in_little_endian_order() {
    let bytes = vec![0x08, 0x07, 0x06, 0x05, 0x04, 0x03, 0x02, 0x01];
    assert_eq!(
        NotarizationClientReadOnly::last_state_change_ts(answer(bytes.clone())),
        Ok(0x0102030405060708)
    );
    assert_eq!(NotarizationClientReadOnly::created_at_ts(answer(bytes.clone())), Ok(0x0102030405060708));
    assert_eq!(
        NotarizationClientReadOnly::state_version_count(answer(vec![0xff; 8])),
        Ok(u64::MAX)
    );
    assert_eq!(NotarizationClientReadOnly::state_version_count(answer(vec![0; 8])), Ok(0));
    let short = NotarizationClientReadOnly::created_at_ts(answer(vec![1; 7])).unwrap_err();
    assert_eq!(short.kind(), ErrorKind::DeserializationError);
    let long = NotarizationClientReadOnly::created_at_ts(answer(vec![1; 9])).unwrap_err();
    assert_eq!(long.kind(), ErrorKind::DeserializationError);
    assert_eq!(
        NotarizationClientReadOnly::created_at_ts(Inspection::Completed(None)),
        Err(Error::UnexpectedApiResponse(
            "DevInspectResults missing 'results' field".to_string()
        ))
    );
}

#[test]
fn truth_values_are_one_byte() {
    assert_eq!(NotarizationClientReadOnly::is_update_locked(answer(vec![1])), Ok(true));
    assert_eq!(NotarizationClientReadOnly::is_update_locked(answer(vec![0])), Ok(false));
    assert_eq!(NotarizationClientReadOnly::is_destroy_allowed(answer(vec![1])), Ok(true));
    assert_eq!(NotarizationClientReadOnly::is_transfer_locked(answer(vec![0])), Ok(false));
    for bad in [vec![], vec![2], vec![1, 0], vec![0xff]] {
        let failed = NotarizationClientReadOnly::is_destroy_allowed(answer(bad)).unwrap_err();
        assert_eq!(failed.kind(), ErrorKind::DeserializationError);
    }
}

#[test]
fn optional_texts_are_read() {
    assert_eq!(NotarizationClientReadOnly::description(answer(vec![0])), Ok(None));
    assert_eq!(
        NotarizationClientReadOnly::description(answer(vec![1, 2, b'h', b'i'])),
        Ok(Some("hi".to_string()))
    );
    let long = Some("é".repeat(100));
    assert_eq!(
        NotarizationClientReadOnly::updatable_metadata(answer(bcs::to_bytes(&long).unwrap())),
        Ok(long)
    );
    for bad in [vec![], vec![2], vec![1], vec![1, 2, b'h'], vec![1, 1, 0xff], vec![0, 0], vec![1, 0x81, 0x00, b'a']] {
        let failed = NotarizationClientReadOnly::description(answer(bad)).unwrap_err();
        assert_eq!(failed.kind(), ErrorKind::DeserializationError);
    }
}

#[test]
fn methods_are_read() {
    assert_eq!(
        NotarizationClientReadOnly::notarization_method(answer(vec![0])),
        Ok(NotarizationMethod::Dynamic)
    );
    assert_eq!(
        NotarizationClientReadOnly::notarization_method(answer(vec![1])),
        Ok(NotarizationMethod::Locked)
    );
    for bad in [vec![], vec![2], vec![0, 0], vec![0x80, 0x00]] {
        assert_eq!(
            NotarizationClientReadOnly::notarization_method(answer(bad)),
            Err(Error::DeserializationError(
                "invalid encoding of a notarization method".to_string()
            ))
        );
    }
}

#[test]
fn lock_metadata_is_read() {
    assert_eq!(NotarizationClientReadOnly::lock_metadata(answer(vec![0])), Ok(None));
    assert_eq!(
        NotarizationClientReadOnly::lock_metadata(answer(vec![1, 2, 2, 0, 1, 2, 3, 4])),
        Ok(Some(LockMetadata {
            update_lock: TimeLock::NoLock,
            delete_lock: TimeLock::NoLock,
            transfer_lock: TimeLock::UnlockAt(0x04030201),
        }))
    );
    assert_eq!(
        NotarizationClientReadOnly::lock_metadata(answer(vec![1, 1, 0, 0xff, 0xff, 0xff, 0xff, 1])),
        Ok(Some(LockMetadata {
            update_lock: TimeLock::UntilDestroyed,
            delete_lock: TimeLock::UnlockAt(u32::MAX),
            transfer_lock: TimeLock::UntilDestroyed,
        }))
    );
    for bad in [vec![], vec![2], vec![1], vec![1, 2, 2], vec![1, 2, 2, 3], vec![1, 2, 2, 0, 1, 2, 3], vec![1, 2, 2, 2, 2], vec![0, 0]] {
        assert_eq!(
            NotarizationClientReadOnly::lock_metadata(answer(bad)),
            Err(Error::DeserializationError("invalid encoding of lock metadata".to_string()))
        );
    }
}

#[test]
fn the_payload_follows_from_the_type_tag() {
    assert_eq!(
        NotarizationClientReadOnly::state_payload(&TypeTag::byte_vector()),
        Ok(StatePayload::Bytes)
    );
    assert_eq!(NotarizationClientReadOnly::state_payload(&TypeTag::string()), Ok(StatePayload::Text));
    assert_eq!(
        NotarizationClientReadOnly::state_payload(&TypeTag::new("0x1::string::String".to_string())),
        Ok(StatePayload::Text)
    );
    assert_eq!(
        NotarizationClientReadOnly::state_payload(&TypeTag::new("vector<u16>".to_string())),
        Err(Error::InvalidArgument("Unsupported state type: vector<u16>".to_string()))
    );
    assert_eq!(
        NotarizationClientReadOnly::state_payload(&TypeTag::new("0x1::string::Strin".to_string())),
        Err(Error::InvalidArgument("Unsupported state type: 0x1::string::Strin".to_string()))
    );
}

#[test]
fn states_are_read_by_their_payload() {
    let bytes = bcs::to_bytes(&(vec![1u8, 2, 3], Some("meta".to_string()))).unwrap();
    assert_eq!(
        NotarizationClientReadOnly::state(StatePayload::Bytes, answer(bytes)),
        Ok(State::from_bytes(vec![1, 2, 3], Some("meta".to_string())))
    );
    let bytes = bcs::to_bytes(&("text".to_string(), None::<String>)).unwrap();
    assert_eq!(bytes, vec![4, b't', b'e', b'x', b't', 0]);
    assert_eq!(
        NotarizationClientReadOnly::state(StatePayload::Text, answer(bytes.clone())),
        Ok(State::from_string("text".to_string(), None))
    );
    assert_eq!(
        NotarizationClientReadOnly::state(StatePayload::Bytes, answer(bytes)),
        Ok(State::from_bytes(b"text".to_vec(), None))
    );
    let not_text = vec![2, 0xff, 0xfe, 0];
    assert_eq!(
        NotarizationClientReadOnly::state(StatePayload::Bytes, answer(not_text.clone())),
        Ok(State::from_bytes(vec![0xff, 0xfe], None))
    );
    let failed = NotarizationClientReadOnly::state(StatePayload::Text, answer(not_text)).unwrap_err();
    assert_eq!(failed.kind(), ErrorKind::DeserializationError);
    let failed = NotarizationClientReadOnly::state(StatePayload::Bytes, answer(vec![1, 7])).unwrap_err();
    assert_eq!(failed.kind(), ErrorKind::DeserializationError);
    assert_eq!(
        NotarizationClientReadOnly::state(StatePayload::Bytes, Inspection::Completed(Some(vec![]))),
        Err(Error::UnexpectedApiResponse("Execution results list is empty".to_string()))
    );
}

#[test]
fn a_client_names_its_network() {
    let package = ObjectID::new([0x11; 32]);
    let client = NotarizationClientReadOnly::new_internal("6364aad5".to_string(), Some(package), None).unwrap();
    assert_eq!(client.network(), "iota");
    assert_eq!(client.chain_id(), "6364aad5");
    assert_eq!(client.package_id(), package);
    let client = NotarizationClientReadOnly::new_internal(
        "6364aad5".to_string(),
        Some(package),
        Some("mainnet".to_string()),
    )
    .unwrap();
    assert_eq!(client.network(), "iota");
    let client = NotarizationClientReadOnly::new_internal(
        "2304aa97".to_string(),
        Some(package),
        Some("testnet".to_string()),
    )
    .unwrap();
    assert_eq!(client.network(), "testnet");
    assert_eq!(client.chain_id(), "2304aa97");
    let client = NotarizationClientReadOnly::new_internal("abcdef01".to_string(), Some(package), None).unwrap();
    assert_eq!(client.network(), "abcdef01");
    assert_eq!(
        NotarizationClientReadOnly::new_internal("abcdef01".to_string(), None, Some("x".to_string())),
        Err(Error::InvalidConfig(
            "no information for a published `notarization` package on network abcdef01; try to use `NotarizationClientReadOnly::new_with_package_id`"
                .to_string()
        ))
    );
}

#[test]
fn the_package_is_what_the_registry_holds() {
    let package = ObjectID::new([0x11; 32]);
    assert_eq!(notarization_package_id("testnet", Some(package)), Ok(package));
    assert_eq!(
        notarization_package_id("testnet", None),
        Err(Error::InvalidConfig(
            "cannot find Notarization package ID for network testnet".to_string()
        ))
    );
}

#[test]
fn a_notarization_is_retrieved_from_its_content() {
    assert_eq!(
        NotarizationClientReadOnly::get_notarization_by_id(ContentLookup::Missing),
        Err(Error::ObjectLookup("missing data in response".to_string()))
    );
    assert_eq!(
        NotarizationClientReadOnly::get_notarization_by_id(ContentLookup::Content(vec![1, 2, 3])),
        Err(Error::ObjectLookup("invalid encoding of a notarization".to_string()))
    );
}

#[test]
fn lengths_are_read_as_bcs_writes_them() {
    for length in [0usize, 1, 127, 128, 300, 16383, 16384, 2_097_152] {
        let data = vec![0xabu8; length];
        let mut bytes = vec![0xeeu8];
        bytes.extend(bcs::to_bytes(&data).unwrap());
        bytes.push(0x99);
        let (read, next) = read_byte_string(&bytes, 1).unwrap();
        assert_eq!(read, data);
        assert_eq!(next, bytes.len() - 1);
    }
    assert_eq!(read_length(&vec![0xff, 0xff, 0xff, 0xff, 0x07], 0), Some((0x7fff_ffff, 5)));
    assert_eq!(read_length(&vec![0x80, 0x80, 0x80, 0x80, 0x08], 0), None);
    assert_eq!(read_length(&vec![0xff, 0xff, 0xff, 0xff, 0x0f], 0), None);
    assert_eq!(read_length(&vec![0xff, 0xff, 0xff, 0xff, 0xff, 0x01], 0), None);
    assert_eq!(read_length(&vec![0x80, 0x00], 0), None);
    assert_eq!(read_length(&vec![0x80], 0), None);
    assert_eq!(read_length(&vec![0x00], 0), Some((0, 1)));
    assert_eq!(read_length(&vec![0x00], 1), None);
    assert_eq!(read_length(&vec![0x00], usize::MAX), None);
    assert_eq!(read_byte_string(&vec![3, 1, 2], 0), None);
}

#[test]
fn the_small_readers() {
    let bytes = vec![9, 1, 0, 0, 0, 0, 0, 0, 0, 2];
    assert_eq!(read_u64(&bytes, 1), Some((1, 9)));
    assert_eq!(read_u64(&bytes, 2), Some((0x0200_0000_0000_0000, 10)));
    assert_eq!(read_u64(&bytes, 3), None);
    assert_eq!(read_u64(&bytes, usize::MAX), None);
    assert_eq!(read_text(&vec![2, 0xc3, 0xa9], 0), Some(("é".to_string(), 3)));
    assert_eq!(read_text(&vec![1, 0xc3, 0xa9], 0), None);
    assert_eq!(read_optional_text(&vec![0, 5], 0), Some((None, 1)));
    assert_eq!(read_optional_text(&vec![1, 0], 0), Some((Some(String::new()), 2)));
    assert_eq!(read_lock(&vec![0, 1, 0, 0, 0], 0), Some((TimeLock::UnlockAt(1), 5)));
    assert_eq!(read_lock(&vec![0, 1, 0, 0], 0), None);
    assert_eq!(read_lock(&vec![3], 0), None);
    let mut id = vec![7u8; 33];
    id[32] = 1;
    assert_eq!(read_id(&id, 1).map(|(read, next)| (read.to_vec(), next)), Some((id[1..].to_vec(), 33)));
    assert_eq!(read_id(&id, 2), None);
}

#[test]
fn refused_answers_carry_the_words_of_the_decoder() {
    assert_eq!(
        NotarizationClientReadOnly::created_at_ts(answer(vec![1; 7])),
        Err(Error::DeserializationError("unexpected end of input".to_string()))
    );
    assert_eq!(
        NotarizationClientReadOnly::created_at_ts(answer(vec![])),
        Err(Error::DeserializationError("unexpected end of input".to_string()))
    );
    assert_eq!(
        NotarizationClientReadOnly::created_at_ts(answer(vec![1; 9])),
        Err(Error::DeserializationError("remaining input".to_string()))
    );
    assert_eq!(
        NotarizationClientReadOnly::is_update_locked(answer(vec![])),
        Err(Error::DeserializationError("unexpected end of input".to_string()))
    );
    assert_eq!(
        NotarizationClientReadOnly::is_update_locked(answer(vec![2])),
        Err(Error::DeserializationError("expected boolean".to_string()))
    );
    assert_eq!(
        NotarizationClientReadOnly::is_update_locked(answer(vec![2, 0])),
        Err(Error::DeserializationError("expected boolean".to_string()))
    );
    assert_eq!(
        NotarizationClientReadOnly::is_update_locked(answer(vec![1, 0])),
        Err(Error::DeserializationError("remaining input".to_string()))
    );
    assert_eq!(
        NotarizationClientReadOnly::description(answer(vec![2])),
        Err(Error::DeserializationError("expected option type".to_string()))
    );
    assert_eq!(
        NotarizationClientReadOnly::description(answer(vec![1, 1, 0xff])),
        Err(Error::DeserializationError("malformed utf8".to_string()))
    );
    assert_eq!(
        NotarizationClientReadOnly::state(StatePayload::Text, answer(vec![2, 0xff, 0xfe, 0])),
        Err(Error::DeserializationError("malformed utf8".to_string()))
    );
    assert_eq!(
        NotarizationClientReadOnly::state(StatePayload::Bytes, answer(vec![1, 7])),
        Err(Error::DeserializationError("unexpected end of input".to_string()))
    );
}
