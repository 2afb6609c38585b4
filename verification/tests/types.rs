use notarization::error::Error;
use notarization::error::ErrorKind;
use notarization::types::lock_order::comes_before;
use notarization::types::object::IotaAddress;
use notarization::types::object::ObjectID;
use notarization::types::state::Data;
use notarization::types::state::State;
use notarization::types::timelock::LockMetadata;
use notarization::types::timelock::TimeLock;
use notarization::types::type_tag::TypeTag;

#[test]
fn state_from_bytes_round_trip() {
    for bytes in [vec![], vec![0u8], vec![1, 2, 3], vec![0xff; 70], b"hello".to_vec()] {
        let state = State::from_bytes(bytes.clone(), Some("meta".to_string()));
        assert_eq!(state.metadata(), &Some("meta".to_string()));
        assert_eq!(state.data(), &Data::Bytes(bytes.clone()));
        assert_eq!(state.data.as_bytes(), Ok(bytes));
    }
}

#[test]
fn state_from_string_round_trip() {
    for text in ["", "Hello", "ünïcödé ✓", "line\nbreak"] {
        let state = State::from_string(text.to_string(), None);
        assert_eq!(state.metadata(), &None);
        assert_eq!(state.data.as_text(), Ok(text.to_string()));
    }
}

#[test]
fn the_wrong_accessor_fails() {
    let text = State::from_string("Hello".to_string(), None);
    assert_eq!(
        text.data.as_bytes(),
        Err(Error::GenericError("Data is not a vector".to_string()))
    );
    let bytes = State::from_bytes(vec![1, 2, 3], None);
    assert_eq!(
        bytes.data.as_text(),
        Err(Error::GenericError("Data is not a string".to_string()))
    );
}

#[test]
fn a_copy_of_a_state_holds_the_same() {
    let state = State::from_bytes(vec![4, 5], Some("two bytes".to_string()));
    assert_eq!(state.duplicate(), state);
    let text = State::from_string("t".to_string(), None);
    assert_eq!(text.duplicate(), text);
}

#[test]
fn stored_text_is_read_as_text() {
    assert_eq!(Data::deserialize(b"Hello, world!".to_vec()), Data::Text("Hello, world!".to_string()));
    assert_eq!(Data::deserialize(b"a b\tc\nd\re\x0cf".to_vec()), Data::Text("a b\tc\nd\re\x0cf".to_string()));
    assert_eq!(Data::deserialize(b"!~".to_vec()), Data::Text("!~".to_string()));
    assert_eq!(Data::deserialize(vec![]), Data::Text(String::new()));
}

#[test]
fn stored_bytes_stay_bytes() {
    assert_eq!(Data::deserialize(vec![0]), Data::Bytes(vec![0]));
    assert_eq!(Data::deserialize(vec![b'a', 0x7f]), Data::Bytes(vec![b'a', 0x7f]));
    assert_eq!(Data::deserialize(vec![b'a', 0x0b]), Data::Bytes(vec![b'a', 0x0b]));
    assert_eq!(Data::deserialize(vec![0xff, 0xfe]), Data::Bytes(vec![0xff, 0xfe]));
    let accented = "é".as_bytes().to_vec();
    assert_eq!(Data::deserialize(accented.clone()), Data::Bytes(accented));
    assert_eq!(Data::deserialize(vec![0x1f]), Data::Bytes(vec![0x1f]));
}

#[test]
fn printable_binary_data_is_taken_for_text() {
    let pdf_header = vec![0x25, 0x50, 0x44, 0x46];
    assert_eq!(Data::deserialize(pdf_header), Data::Text("%PDF".to_string()));
}

#[test]
fn data_knows_its_type_tag() {
    assert_eq!(Data::Bytes(vec![]).tag().text, "vector<u8>");
    assert_eq!(
        Data::Text(String::new()).tag().text,
        "0x0000000000000000000000000000000000000000000000000000000000000001::string::String"
    );
    assert_eq!(TypeTag::byte_vector(), TypeTag::new("vector<u8>".to_string()));
    assert_eq!(TypeTag::string().duplicate(), TypeTag::string());
}

#[test]
fn time_lock_type_tag_names_the_package() {
    let mut bytes = [0u8; 32];
    bytes[30] = 0x12;
    bytes[31] = 0x34;
    assert_eq!(
        TimeLock::move_type(ObjectID::new(bytes)).text,
        "0x0000000000000000000000000000000000000000000000000000000000001234::timelock::TimeLock"
    );
}

#[test]
fn identifiers_are_rendered_in_lower_case_hex() {
    let mut bytes = [0u8; 32];
    for (i, byte) in bytes.iter_mut().enumerate() {
        *byte = (i as u8) * 8 + 7;
    }
    let id = ObjectID::new(bytes);
    assert_eq!(
        id.to_hex_literal(),
        "0x070f171f272f373f474f575f676f777f878f979fa7afb7bfc7cfd7dfe7eff7ff"
    );
    assert_eq!(id.to_vec(), bytes.to_vec());
    let address = IotaAddress::new(bytes);
    assert_eq!(address.to_hex_literal(), id.to_hex_literal());
    assert_eq!(address.to_vec(), bytes.to_vec());
    assert_eq!(IotaAddress::zero().to_vec(), vec![0u8; 32]);
}

#[test]
fn an_unlock_time_must_lie_after_the_clock_reading() {
    assert_eq!(TimeLock::new_with_ts_at(101, 100), Ok(TimeLock::UnlockAt(101)));
    assert_eq!(
        TimeLock::new_with_ts_at(100, 100),
        Err(Error::InvalidArgument("unlock time must be in the future".to_string()))
    );
    assert_eq!(
        TimeLock::new_with_ts_at(99, 100),
        Err(Error::InvalidArgument("unlock time must be in the future".to_string()))
    );
    assert!(TimeLock::new_with_ts_at(0, 0).is_err());
    assert_eq!(TimeLock::new_with_ts_at(u32::MAX, 0), Ok(TimeLock::UnlockAt(u32::MAX)));
}

#[test]
fn the_clock_reading_is_the_low_half_of_the_seconds() {
    let wrapped: u64 = (1u64 << 32) + 5;
    assert_eq!(TimeLock::new_with_ts_at(6, wrapped), Ok(TimeLock::UnlockAt(6)));
    assert!(TimeLock::new_with_ts_at(5, wrapped).is_err());
    assert!(TimeLock::new_with_ts_at(u32::MAX, u32::MAX as u64).is_err());
    assert!(TimeLock::new_with_ts_at(u32::MAX, u64::MAX).is_err());
}

#[test]
fn an_unlock_time_is_held_against_the_system_clock() {
    assert_eq!(
        TimeLock::new_with_ts(0),
        Err(Error::InvalidArgument("unlock time must be in the future".to_string()))
    );
    assert_eq!(
        TimeLock::new_with_ts(1),
        Err(Error::InvalidArgument("unlock time must be in the future".to_string()))
    );
    assert_eq!(TimeLock::new_with_ts(u32::MAX), Ok(TimeLock::UnlockAt(u32::MAX)));
}

#[test]
fn locks_are_ordered_by_kind_then_time() {
    assert!(TimeLock::UnlockAt(5) < TimeLock::UnlockAt(6));
    assert!(TimeLock::UnlockAt(u32::MAX) < TimeLock::UntilDestroyed);
    assert!(TimeLock::UntilDestroyed < TimeLock::NoLock);
    let low = LockMetadata {
        update_lock: TimeLock::NoLock,
        delete_lock: TimeLock::UnlockAt(1),
        transfer_lock: TimeLock::NoLock,
    };
    let high = LockMetadata {
        update_lock: TimeLock::NoLock,
        delete_lock: TimeLock::UntilDestroyed,
        transfer_lock: TimeLock::UnlockAt(0),
    };
    assert!(low < high);
}

#[test]
fn every_error_renders_its_prefix_and_detail() {
    let cases = [
        (Error::InvalidKey("k".to_string()), "invalid key: k", "InvalidKey", ErrorKind::InvalidKey),
        (Error::InvalidConfig("c".to_string()), "invalid config: c", "InvalidConfig", ErrorKind::InvalidConfig),
        (Error::RpcError("r".to_string()), "RPC error: r", "RpcError", ErrorKind::RpcError),
        (Error::IotaClient("i".to_string()), "IOTA client error: i", "IotaClient", ErrorKind::IotaClient),
        (Error::GenericError("g".to_string()), "g", "GenericError", ErrorKind::GenericError),
        (Error::FailedToParseTag("t".to_string()), "Failed to parse tag: t", "FailedToParseTag", ErrorKind::FailedToParseTag),
        (Error::InvalidArgument("a".to_string()), "Invalid argument: a", "InvalidArgument", ErrorKind::InvalidArgument),
        (Error::TimeLock("l".to_string()), "Invalid unlock time: l", "TimeLock", ErrorKind::TimeLock),
        (Error::UnexpectedApiResponse("u".to_string()), "unexpected API response: u", "UnexpectedApiResponse", ErrorKind::UnexpectedApiResponse),
        (Error::DeserializationError("d".to_string()), "BCS deserialization error: d", "DeserializationError", ErrorKind::DeserializationError),
        (Error::TransactionUnexpectedResponse("x".to_string()), "unexpected API response: x", "TransactionUnexpectedResponse", ErrorKind::TransactionUnexpectedResponse),
        (Error::ObjectLookup("o".to_string()), "Failed to get object with options: o", "ObjectLookup", ErrorKind::ObjectLookup),
    ];
    for (error, message, name, kind) in cases {
        assert_eq!(error.message(), message);
        assert_eq!(error.name(), name);
        assert_eq!(error.kind(), kind);
    }
}

#[test]
fn comes_before_follows_the_order_of_locks() {
    let locks = [
        TimeLock::UnlockAt(0),
        TimeLock::UnlockAt(7),
        TimeLock::UnlockAt(u32::MAX),
        TimeLock::UntilDestroyed,
        TimeLock::NoLock,
    ];
    for (i, first) in locks.iter().enumerate() {
        for (j, second) in locks.iter().enumerate() {
            assert_eq!(comes_before(first, second), i < j);
            assert_eq!(first < second, i < j);
            assert_eq!(first.cmp(second), i.cmp(&j));
            assert_eq!(first.partial_cmp(second), Some(i.cmp(&j)));
        }
    }
    assert_eq!(TimeLock::UnlockAt(3).kind_rank(), 0);
    assert_eq!(TimeLock::UntilDestroyed.kind_rank(), 1);
    assert_eq!(TimeLock::NoLock.kind_rank(), 2);
}
