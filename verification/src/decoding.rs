//! Reading the values of this crate's own types from their binary encoding.
//!
//! Every reader starts at a position of a byte sequence and gives the value that is
//! encoded there together with the position behind it, or nothing when the bytes at that
//! position are not the encoding of a value. The spec functions say what is read; the
//! executable readers are proved to read exactly that.

use crate::encoding::le_value;
use crate::encoding::MAX_SEQUENCE_LENGTH;
use crate::types::metadata::ImmutableMetadata;
use crate::types::metadata::ImmutableMetadataView;
use crate::types::notarization::OnChainNotarization;
use crate::types::notarization::OnChainNotarizationView;
use crate::types::object::ObjectID;
use crate::types::state::stored_data;
use crate::types::state::text_from_utf8;
use crate::types::state::Data;
use crate::types::state::State;
use crate::types::state::StateView;
use crate::types::text_of;
use crate::types::timelock::LockMetadata;
use crate::types::timelock::TimeLock;
use crate::types::NotarizationMethod;
use vstd::prelude::*;
use vstd::utf8::decode_utf8;
use vstd::utf8::valid_utf8;

verus! {

/// The number that `width` bytes from `pos` stand for in little-endian order.
pub open spec fn number_at(bytes: Seq<u8>, pos: int, width: int) -> Option<(nat, int)> {
    if 0 <= pos && pos + width <= bytes.len() {
        Some((le_value(bytes.subrange(pos, pos + width)), pos + width))
    } else {
        None
    }
}

/// The number that is written at `pos` in ULEB128 with at most `digits` digits. The last
/// digit of a number of several digits is not zero: a number has one encoding only.
pub open spec fn uleb128_at(bytes: Seq<u8>, pos: int, digits: nat) -> Option<(nat, int)>
    decreases digits,
{
    if digits == 0 || !(0 <= pos < bytes.len()) {
        None
    } else if bytes[pos] < 128 {
        if bytes[pos] == 0 && digits < 5 {
            None
        } else {
            Some((bytes[pos] as nat, pos + 1))
        }
    } else {
        match uleb128_at(bytes, pos + 1, (digits - 1) as nat) {
            Some((rest, next)) => Some(((bytes[pos] - 128 + 128 * rest) as nat, next)),
            None => None,
        }
    }
}

/// The length of a sequence that is written at `pos`: a ULEB128 number of at most five
/// digits that fits 32 bits and does not exceed the longest sequence admitted.
pub open spec fn length_at(bytes: Seq<u8>, pos: int) -> Option<(nat, int)> {
    match uleb128_at(bytes, pos, 5) {
        Some((length, next)) => if length <= MAX_SEQUENCE_LENGTH {
            Some((length, next))
        } else {
            None
        },
        None => None,
    }
}

/// The byte string that is written at `pos`: its length, then as many bytes.
pub open spec fn byte_string_at(bytes: Seq<u8>, pos: int) -> Option<(Seq<u8>, int)> {
    match length_at(bytes, pos) {
        Some((length, next)) => if next + length <= bytes.len() {
            Some((bytes.subrange(next, next + length), next + length))
        } else {
            None
        },
        None => None,
    }
}

/// The text that is written at `pos`: a byte string that is valid UTF-8.
pub open spec fn text_at(bytes: Seq<u8>, pos: int) -> Option<(Seq<char>, int)> {
    match byte_string_at(bytes, pos) {
        Some((raw, next)) => if valid_utf8(raw) {
            Some((decode_utf8(raw), next))
        } else {
            None
        },
        None => None,
    }
}

/// The optional text that is written at `pos`: a zero byte for none, a one and the text
/// for some.
pub open spec fn optional_text_at(bytes: Seq<u8>, pos: int) -> Option<(Option<Seq<char>>, int)> {
    if !(0 <= pos < bytes.len()) {
        None
    } else if bytes[pos] == 0 {
        Some((None, pos + 1))
    } else if bytes[pos] == 1 {
        match text_at(bytes, pos + 1) {
            Some((text, next)) => Some((Some(text), next)),
            None => None,
        }
    } else {
        None
    }
}

/// The time lock that is written at `pos`: the number of its kind, and for a lock with an
/// unlock time the four bytes of that time.
pub open spec fn lock_at(bytes: Seq<u8>, pos: int) -> Option<(TimeLock, int)> {
    if !(0 <= pos < bytes.len()) {
        None
    } else if bytes[pos] == 0 {
        match number_at(bytes, pos + 1, 4) {
            Some((seconds, next)) => Some((TimeLock::UnlockAt(seconds as u32), next)),
            None => None,
        }
    } else if bytes[pos] == 1 {
        Some((TimeLock::UntilDestroyed, pos + 1))
    } else if bytes[pos] == 2 {
        Some((TimeLock::NoLock, pos + 1))
    } else {
        None
    }
}

/// The lock metadata that is written at `pos`: the update lock, the delete lock and the
/// transfer lock.
pub open spec fn lock_metadata_at(bytes: Seq<u8>, pos: int) -> Option<(LockMetadata, int)> {
    match lock_at(bytes, pos) {
        Some((update_lock, after_update)) => match lock_at(bytes, after_update) {
            Some((delete_lock, after_delete)) => match lock_at(bytes, after_delete) {
                Some((transfer_lock, next)) => Some(
                    (LockMetadata { update_lock, delete_lock, transfer_lock }, next),
                ),
                None => None,
            },
            None => None,
        },
        None => None,
    }
}

/// The optional lock metadata that is written at `pos`.
pub open spec fn locking_at(bytes: Seq<u8>, pos: int) -> Option<(Option<LockMetadata>, int)> {
    if !(0 <= pos < bytes.len()) {
        None
    } else if bytes[pos] == 0 {
        Some((None, pos + 1))
    } else if bytes[pos] == 1 {
        match lock_metadata_at(bytes, pos + 1) {
            Some((locking, next)) => Some((Some(locking), next)),
            None => None,
        }
    } else {
        None
    }
}

/// The notarization method that is written at `pos`.
pub open spec fn method_at(bytes: Seq<u8>, pos: int) -> Option<(NotarizationMethod, int)> {
    if !(0 <= pos < bytes.len()) {
        None
    } else if bytes[pos] == 0 {
        Some((NotarizationMethod::Dynamic, pos + 1))
    } else if bytes[pos] == 1 {
        Some((NotarizationMethod::Locked, pos + 1))
    } else {
        None
    }
}

/// The object identifier that is written at `pos`: its 32 bytes.
pub open spec fn id_at(bytes: Seq<u8>, pos: int) -> Option<(Seq<u8>, int)> {
    if 0 <= pos && pos + 32 <= bytes.len() {
        Some((bytes.subrange(pos, pos + 32), pos + 32))
    } else {
        None
    }
}

/// The state that is written at `pos` as the ledger stores it: the data as a byte string,
/// which is taken for text or for bytes by what it holds, and the optional description.
pub open spec fn stored_state_at(bytes: Seq<u8>, pos: int) -> Option<
    (StateView<crate::types::state::DataView>, int),
> {
    match byte_string_at(bytes, pos) {
        Some((raw, after_data)) => match optional_text_at(bytes, after_data) {
            Some((metadata, next)) => Some((StateView { data: stored_data(raw), metadata }, next)),
            None => None,
        },
        None => None,
    }
}

/// The immutable metadata that is written at `pos`: the time of creation, the optional
/// description and the optional lock metadata.
pub open spec fn immutable_metadata_at(bytes: Seq<u8>, pos: int) -> Option<
    (ImmutableMetadataView, int),
> {
    match number_at(bytes, pos, 8) {
        Some((created_at, after_created)) => match optional_text_at(bytes, after_created) {
            Some((description, after_description)) => match locking_at(bytes, after_description) {
                Some((locking, next)) => Some(
                    (
                        ImmutableMetadataView {
                            created_at: created_at as u64,
                            description,
                            locking,
                        },
                        next,
                    ),
                ),
                None => None,
            },
            None => None,
        },
        None => None,
    }
}

/// The notarization that is written at `pos`: its identifier, state, immutable metadata,
/// updatable metadata, time of the last state change, count of state changes and method.
pub open spec fn notarization_at(bytes: Seq<u8>, pos: int) -> Option<(OnChainNotarizationView, int)> {
    match id_at(bytes, pos) {
        Some((id, after_id)) => match stored_state_at(bytes, after_id) {
            Some((state, after_state)) => match immutable_metadata_at(bytes, after_state) {
                Some((immutable_metadata, after_fixed)) => match optional_text_at(bytes, after_fixed) {
                    Some((updatable_metadata, after_metadata)) => match number_at(bytes, after_metadata, 8) {
                        Some((last_state_change_at, after_change)) => match number_at(bytes, after_change, 8) {
                            Some((state_version_count, after_count)) => match method_at(bytes, after_count) {
                                Some((method, next)) => Some(
                                    (
                                        OnChainNotarizationView {
                                            id,
                                            state,
                                            immutable_metadata,
                                            updatable_metadata,
                                            last_state_change_at: last_state_change_at as u64,
                                            state_version_count: state_version_count as u64,
                                            method,
                                        },
                                        next,
                                    ),
                                ),
                                None => None,
                            },
                            None => None,
                        },
                        None => None,
                    },
                    None => None,
                },
                None => None,
            },
            None => None,
        },
        None => None,
    }
}

/// The encoding of a time lock: the number of its kind in one byte, and for a lock with an
/// unlock time the four bytes of that time.
pub open spec fn lock_encoding(lock: TimeLock) -> Seq<u8> {
    match lock {
        TimeLock::UnlockAt(seconds) => seq![0u8] + crate::encoding::le_bytes(seconds as nat, 4),
        TimeLock::UntilDestroyed => seq![1u8],
        TimeLock::NoLock => seq![2u8],
    }
}

/// The encoding of optional lock metadata: a zero byte for none, else a one and the
/// three locks.
pub open spec fn locking_encoding(locking: Option<LockMetadata>) -> Seq<u8> {
    match locking {
        None => seq![0u8],
        Some(locks) => seq![1u8] + lock_encoding(locks.update_lock) + lock_encoding(
            locks.delete_lock,
        ) + lock_encoding(locks.transfer_lock),
    }
}

/// The encoding of a notarization method: the number of the method in one byte.
pub open spec fn method_encoding(method: NotarizationMethod) -> Seq<u8> {
    match method {
        NotarizationMethod::Dynamic => seq![0u8],
        NotarizationMethod::Locked => seq![1u8],
    }
}

/// The encoding of a notarization whose data is stored as the byte string `raw`: its
/// identifier, state, immutable metadata, updatable metadata, time of the last state
/// change, count of state changes and method, one behind the other.
pub open spec fn notarization_encoding(
    id: Seq<u8>,
    raw: Seq<u8>,
    state_metadata: Option<Seq<char>>,
    created_at: u64,
    description: Option<Seq<char>>,
    locking: Option<LockMetadata>,
    updatable_metadata: Option<Seq<char>>,
    last_state_change_at: u64,
    state_version_count: u64,
    method: NotarizationMethod,
) -> Seq<u8> {
    id + stored_state_encoding(raw, state_metadata) + immutable_metadata_encoding(
        created_at,
        description,
        locking,
    ) + crate::encoding::optional_text(updatable_metadata) + crate::encoding::le_bytes(
        last_state_change_at as nat,
        8,
    ) + crate::encoding::le_bytes(state_version_count as nat, 8) + method_encoding(method)
}

/// What is read from the whole of `bytes` by a reader: the value at the front, when
/// nothing is left behind it.
pub open spec fn whole<T>(bytes: Seq<u8>, read: Option<(T, int)>) -> Option<T> {
    match read {
        Some((value, next)) => if next == bytes.len() {
            Some(value)
        } else {
            None
        },
        None => None,
    }
}

/// A number written in little-endian order is read back, whatever stands before and
/// behind it.
pub proof fn lemma_number_is_read_back(before: Seq<u8>, value: nat, width: nat, behind: Seq<u8>)
    requires
        value < vstd::arithmetic::power::pow(256, width),
    ensures
        number_at(
            before + crate::encoding::le_bytes(value, width) + behind,
            before.len() as int,
            width as int,
        ) == Some((value, (before.len() + width) as int)),
{
    let written = crate::encoding::le_bytes(value, width);
    let bytes = before + written + behind;
    crate::encoding::lemma_le_round_trip(value, width);
    assert(bytes.subrange(before.len() as int, (before.len() + width) as int) =~= written);
}

/// A number written in ULEB128 is read back, whatever stands before and behind it, when
/// the reader may read as many digits as the number has.
pub proof fn lemma_uleb128_is_read_back(before: Seq<u8>, value: nat, behind: Seq<u8>, digits: nat)
    requires
        value < vstd::arithmetic::power::pow(128, digits),
        digits <= 5,
        digits == 5 || value > 0,
    ensures
        uleb128_at(
            before + crate::encoding::uleb128(value) + behind,
            before.len() as int,
            digits,
        ) == Some((value, (before.len() + crate::encoding::uleb128(value).len()) as int)),
    decreases value,
{
    let written = crate::encoding::uleb128(value);
    let bytes = before + written + behind;
    vstd::arithmetic::power::lemma_pow0(128);
    assert(digits >= 1);
    assert(bytes[before.len() as int] == written[0]);
    if value < 128 {
    } else {
        let first = (value % 128 + 128) as u8;
        let rest = value / 128;
        vstd::arithmetic::power::lemma_pow1(128);
        if digits == 1 {
            assert(false);
        }
        vstd::arithmetic::power::lemma_pow_adds(128, 1, (digits - 1) as nat);
        assert(rest < vstd::arithmetic::power::pow(128, (digits - 1) as nat)) by (nonlinear_arith)
            requires
                value < 128 * vstd::arithmetic::power::pow(128, (digits - 1) as nat),
                rest == value / 128,
        ;
        lemma_uleb128_is_read_back(before + seq![first], rest, behind, (digits - 1) as nat);
        assert(before + seq![first] + crate::encoding::uleb128(rest) + behind =~= bytes);
        assert(written.len() == 1 + crate::encoding::uleb128(rest).len());
        assert(value == value % 128 + 128 * rest) by (nonlinear_arith)
            requires
                rest == value / 128,
        ;
    }
}

/// What is read as a ULEB128 number is the encoding of that number: no number is read
/// from two different sequences of digits.
pub proof fn lemma_uleb128_read_is_encoding(bytes: Seq<u8>, pos: int, digits: nat)
    requires
        uleb128_at(bytes, pos, digits) is Some,
        digits <= 5,
    ensures
        ({
            let (value, next) = uleb128_at(bytes, pos, digits)->0;
            &&& pos < next <= bytes.len()
            &&& bytes.subrange(pos, next) == crate::encoding::uleb128(value)
            &&& (digits < 5 ==> value > 0)
        }),
    decreases digits,
{
    let (value, next) = uleb128_at(bytes, pos, digits)->0;
    if bytes[pos] < 128 {
        assert(bytes.subrange(pos, next) =~= crate::encoding::uleb128(value));
    } else {
        lemma_uleb128_read_is_encoding(bytes, pos + 1, (digits - 1) as nat);
        let (rest, after) = uleb128_at(bytes, pos + 1, (digits - 1) as nat)->0;
        assert(rest > 0);
        assert(value == bytes[pos] - 128 + 128 * rest);
        assert(value >= 128);
        assert(value / 128 == rest && value % 128 == bytes[pos] - 128) by (nonlinear_arith)
            requires
                value == bytes[pos] - 128 + 128 * rest,
                128 <= bytes[pos] < 256,
        ;
        assert(bytes.subrange(pos, next) =~= seq![bytes[pos]] + bytes.subrange(pos + 1, next));
    }
}

/// What is read as a byte string is read from the encoding of that byte string.
pub proof fn lemma_byte_string_read_is_encoding(bytes: Seq<u8>, pos: int)
    requires
        byte_string_at(bytes, pos) is Some,
    ensures
        ({
            let (data, next) = byte_string_at(bytes, pos)->0;
            &&& pos < next <= bytes.len()
            &&& data.len() <= MAX_SEQUENCE_LENGTH
            &&& bytes.subrange(pos, next) == crate::encoding::byte_string(data)
        }),
{
    let (data, next) = byte_string_at(bytes, pos)->0;
    let (length, start) = length_at(bytes, pos)->0;
    lemma_uleb128_read_is_encoding(bytes, pos, 5);
    assert(bytes.subrange(pos, next) =~= bytes.subrange(pos, start) + data);
}

/// What is read as an optional text is read from the encoding of that optional text.
pub proof fn lemma_optional_text_read_is_encoding(bytes: Seq<u8>, pos: int)
    requires
        optional_text_at(bytes, pos) is Some,
    ensures
        ({
            let (text, next) = optional_text_at(bytes, pos)->0;
            &&& pos < next <= bytes.len()
            &&& crate::encoding::optional_text_fits(text)
            &&& bytes.subrange(pos, next) == crate::encoding::optional_text(text)
        }),
{
    let (text, next) = optional_text_at(bytes, pos)->0;
    if bytes[pos] == 0 {
        assert(bytes.subrange(pos, next) =~= seq![0u8]);
    } else {
        lemma_byte_string_read_is_encoding(bytes, pos + 1);
        let (raw, after) = byte_string_at(bytes, pos + 1)->0;
        vstd::utf8::decode_utf8_encode_utf8(raw);
        assert(bytes.subrange(pos, next) =~= seq![1u8] + bytes.subrange(pos + 1, next));
    }
}

/// A byte string is read back from its encoding, whatever stands before and behind it.
pub proof fn lemma_byte_string_is_read_back(before: Seq<u8>, data: Seq<u8>, behind: Seq<u8>)
    requires
        data.len() <= MAX_SEQUENCE_LENGTH,
    ensures
        byte_string_at(
            before + crate::encoding::byte_string(data) + behind,
            before.len() as int,
        ) == Some((data, (before.len() + crate::encoding::byte_string(data).len()) as int)),
{
    let length = crate::encoding::uleb128(data.len());
    let bytes = before + crate::encoding::byte_string(data) + behind;
    lemma_pow128_bound(5);
    reveal_with_fuel(vstd::arithmetic::power::pow, 6);
    assert(vstd::arithmetic::power::pow(128, 5) == 128 * (128 * (128 * (128 * (128 * 1)))));
    lemma_uleb128_is_read_back(before, data.len(), data + behind, 5);
    assert(before + length + (data + behind) =~= bytes);
    let next = (before.len() + length.len()) as int;
    assert(bytes.subrange(next, next + data.len()) =~= data);
}

/// An optional text is read back from its encoding, whatever stands before and behind it.
pub proof fn lemma_optional_text_is_read_back(
    before: Seq<u8>,
    text: Option<Seq<char>>,
    behind: Seq<u8>,
)
    requires
        crate::encoding::optional_text_fits(text),
    ensures
        optional_text_at(
            before + crate::encoding::optional_text(text) + behind,
            before.len() as int,
        ) == Some((text, (before.len() + crate::encoding::optional_text(text).len()) as int)),
{
    let written = crate::encoding::optional_text(text);
    let bytes = before + written + behind;
    assert(bytes[before.len() as int] == written[0]);
    match text {
        None => {},
        Some(held) => {
            let raw = vstd::utf8::encode_utf8(held);
            lemma_byte_string_is_read_back(before + seq![1u8], raw, behind);
            assert(before + seq![1u8] + crate::encoding::byte_string(raw) + behind =~= bytes);
            vstd::utf8::encode_utf8_valid_utf8(held);
            vstd::utf8::encode_utf8_decode_utf8(held);
        },
    }
}

/// A time lock is read back from its encoding, whatever stands before and behind it.
pub proof fn lemma_lock_is_read_back(before: Seq<u8>, lock: TimeLock, behind: Seq<u8>)
    ensures
        lock_at(before + lock_encoding(lock) + behind, before.len() as int) == Some(
            (lock, (before.len() + lock_encoding(lock).len()) as int),
        ),
{
    let bytes = before + lock_encoding(lock) + behind;
    assert(bytes[before.len() as int] == lock_encoding(lock)[0]);
    match lock {
        TimeLock::UnlockAt(seconds) => {
            reveal_with_fuel(vstd::arithmetic::power::pow, 5);
            assert(vstd::arithmetic::power::pow(256, 4) == 256 * (256 * (256 * (256 * 1))));
            lemma_number_is_read_back(before + seq![0u8], seconds as nat, 4, behind);
            assert(before + seq![0u8] + crate::encoding::le_bytes(seconds as nat, 4) + behind
                =~= bytes);
            crate::encoding::lemma_le_round_trip(seconds as nat, 4);
        },
        _ => {},
    }
}

/// Optional lock metadata is read back from its encoding, whatever stands before and
/// behind it.
pub proof fn lemma_locking_is_read_back(
    before: Seq<u8>,
    locking: Option<LockMetadata>,
    behind: Seq<u8>,
)
    ensures
        locking_at(before + locking_encoding(locking) + behind, before.len() as int) == Some(
            (locking, (before.len() + locking_encoding(locking).len()) as int),
        ),
{
    let bytes = before + locking_encoding(locking) + behind;
    assert(bytes[before.len() as int] == locking_encoding(locking)[0]);
    match locking {
        None => {},
        Some(locks) => {
            let update = lock_encoding(locks.update_lock);
            let delete = lock_encoding(locks.delete_lock);
            let transfer = lock_encoding(locks.transfer_lock);
            let head = before + seq![1u8];
            lemma_lock_is_read_back(head, locks.update_lock, delete + transfer + behind);
            assert(head + update + (delete + transfer + behind) =~= bytes);
            lemma_lock_is_read_back(head + update, locks.delete_lock, transfer + behind);
            assert(head + update + delete + (transfer + behind) =~= bytes);
            lemma_lock_is_read_back(head + update + delete, locks.transfer_lock, behind);
            assert(head + update + delete + transfer + behind =~= bytes);
        },
    }
}

/// The encoding of a state as the ledger stores it, with its data as the byte string
/// `raw`.
pub open spec fn stored_state_encoding(raw: Seq<u8>, metadata: Option<Seq<char>>) -> Seq<u8> {
    crate::encoding::byte_string(raw) + crate::encoding::optional_text(metadata)
}

/// The encoding of immutable metadata.
pub open spec fn immutable_metadata_encoding(
    created_at: u64,
    description: Option<Seq<char>>,
    locking: Option<LockMetadata>,
) -> Seq<u8> {
    crate::encoding::le_bytes(created_at as nat, 8) + crate::encoding::optional_text(description)
        + locking_encoding(locking)
}

/// A stored state is read back from its encoding, whatever stands before and behind it:
/// the description as it was written, and the data as what its bytes are taken for.
pub proof fn lemma_stored_state_is_read_back(
    before: Seq<u8>,
    raw: Seq<u8>,
    metadata: Option<Seq<char>>,
    behind: Seq<u8>,
)
    requires
        raw.len() <= MAX_SEQUENCE_LENGTH,
        crate::encoding::optional_text_fits(metadata),
    ensures
        stored_state_at(
            before + stored_state_encoding(raw, metadata) + behind,
            before.len() as int,
        ) == Some(
            (
                StateView { data: stored_data(raw), metadata },
                (before.len() + stored_state_encoding(raw, metadata).len()) as int,
            ),
        ),
{
    let bytes = before + stored_state_encoding(raw, metadata) + behind;
    let data = crate::encoding::byte_string(raw);
    let text = crate::encoding::optional_text(metadata);
    assert(byte_string_at(bytes, before.len() as int) == Some(
        (raw, (before.len() + data.len()) as int),
    )) by {
        lemma_byte_string_is_read_back(before, raw, text + behind);
        assert(before + data + (text + behind) =~= bytes);
    }
    assert(optional_text_at(bytes, (before.len() + data.len()) as int) == Some(
        (metadata, (before.len() + data.len() + text.len()) as int),
    )) by {
        lemma_optional_text_is_read_back(before + data, metadata, behind);
        assert(before + data + text + behind =~= bytes);
    }
}

/// Immutable metadata is read back from its encoding, whatever stands before and behind
/// it.
pub proof fn lemma_immutable_metadata_is_read_back(
    before: Seq<u8>,
    created_at: u64,
    description: Option<Seq<char>>,
    locking: Option<LockMetadata>,
    behind: Seq<u8>,
)
    requires
        crate::encoding::optional_text_fits(description),
    ensures
        immutable_metadata_at(
            before + immutable_metadata_encoding(created_at, description, locking) + behind,
            before.len() as int,
        ) == Some(
            (
                ImmutableMetadataView { created_at, description, locking },
                (before.len() + immutable_metadata_encoding(
                    created_at,
                    description,
                    locking,
                ).len()) as int,
            ),
        ),
{
    let bytes = before + immutable_metadata_encoding(created_at, description, locking) + behind;
    let created = crate::encoding::le_bytes(created_at as nat, 8);
    let text = crate::encoding::optional_text(description);
    let locks = locking_encoding(locking);
    assert(number_at(bytes, before.len() as int, 8) == Some(
        (created_at as nat, (before.len() + 8) as int),
    ) && created.len() == 8) by {
        lemma_pow256_exact();
        lemma_number_is_read_back(before, created_at as nat, 8, text + locks + behind);
        crate::encoding::lemma_le_round_trip(created_at as nat, 8);
        assert(before + created + (text + locks + behind) =~= bytes);
    }
    assert(optional_text_at(bytes, (before.len() + 8) as int) == Some(
        (description, (before.len() + 8 + text.len()) as int),
    )) by {
        lemma_optional_text_is_read_back(before + created, description, locks + behind);
        assert(before + created + text + (locks + behind) =~= bytes);
    }
    assert(locking_at(bytes, (before.len() + 8 + text.len()) as int) == Some(
        (locking, (before.len() + 8 + text.len() + locks.len()) as int),
    )) by {
        lemma_locking_is_read_back(before + created + text, locking, behind);
        assert(before + created + text + locks + behind =~= bytes);
    }
}

/// Fields that are read one behind the other, up to the end of the bytes, are read as a
/// notarization.
pub proof fn lemma_fields_make_a_notarization(
    bytes: Seq<u8>,
    notarization: OnChainNotarizationView,
    after_id: int,
    after_state: int,
    after_fixed: int,
    after_metadata: int,
    after_change: int,
    after_count: int,
)
    requires
        id_at(bytes, 0) == Some((notarization.id, after_id)),
        stored_state_at(bytes, after_id) == Some((notarization.state, after_state)),
        immutable_metadata_at(bytes, after_state) == Some(
            (notarization.immutable_metadata, after_fixed),
        ),
        optional_text_at(bytes, after_fixed) == Some(
            (notarization.updatable_metadata, after_metadata),
        ),
        number_at(bytes, after_metadata, 8) == Some(
            (notarization.last_state_change_at as nat, after_change),
        ),
        number_at(bytes, after_change, 8) == Some(
            (notarization.state_version_count as nat, after_count),
        ),
        method_at(bytes, after_count) == Some((notarization.method, bytes.len() as int)),
    ensures
        whole(bytes, notarization_at(bytes, 0)) == Some(notarization),
{
}

/// A notarization is read back from its encoding: every field as it was written, and the
/// data as what its stored bytes are taken for.
pub proof fn lemma_notarization_is_read_back(
    id: Seq<u8>,
    raw: Seq<u8>,
    state_metadata: Option<Seq<char>>,
    created_at: u64,
    description: Option<Seq<char>>,
    locking: Option<LockMetadata>,
    updatable_metadata: Option<Seq<char>>,
    last_state_change_at: u64,
    state_version_count: u64,
    method: NotarizationMethod,
)
    requires
        id.len() == 32,
        raw.len() <= MAX_SEQUENCE_LENGTH,
        crate::encoding::optional_text_fits(state_metadata),
        crate::encoding::optional_text_fits(description),
        crate::encoding::optional_text_fits(updatable_metadata),
    ensures
        whole(
            notarization_encoding(
                id,
                raw,
                state_metadata,
                created_at,
                description,
                locking,
                updatable_metadata,
                last_state_change_at,
                state_version_count,
                method,
            ),
            notarization_at(
                notarization_encoding(
                    id,
                    raw,
                    state_metadata,
                    created_at,
                    description,
                    locking,
                    updatable_metadata,
                    last_state_change_at,
                    state_version_count,
                    method,
                ),
                0,
            ),
        ) == Some(
            OnChainNotarizationView {
                id,
                state: StateView { data: stored_data(raw), metadata: state_metadata },
                immutable_metadata: ImmutableMetadataView { created_at, description, locking },
                updatable_metadata,
                last_state_change_at,
                state_version_count,
                method,
            },
        ),
{
    let state = stored_state_encoding(raw, state_metadata);
    let fixed = immutable_metadata_encoding(created_at, description, locking);
    let text = crate::encoding::optional_text(updatable_metadata);
    let last = crate::encoding::le_bytes(last_state_change_at as nat, 8);
    let count = crate::encoding::le_bytes(state_version_count as nat, 8);
    let kind = method_encoding(method);
    let bytes = id + state + fixed + text + last + count + kind;
    assert(bytes =~= notarization_encoding(
        id,
        raw,
        state_metadata,
        created_at,
        description,
        locking,
        updatable_metadata,
        last_state_change_at,
        state_version_count,
        method,
    ));
    let after_id: int = 32;
    let after_state: int = after_id + state.len();
    let after_fixed: int = after_state + fixed.len();
    let after_metadata: int = after_fixed + text.len();
    let after_change: int = after_metadata + 8;
    let after_count: int = after_change + 8;
    assert(id_at(bytes, 0) == Some((id, after_id))) by {
        assert(bytes.subrange(0, 32) =~= id);
    }
    assert(stored_state_at(bytes, after_id) == Some(
        (StateView { data: stored_data(raw), metadata: state_metadata }, after_state),
    )) by {
        lemma_stored_state_is_read_back(
            id,
            raw,
            state_metadata,
            fixed + text + last + count + kind,
        );
        assert(id + state + (fixed + text + last + count + kind) =~= bytes);
    }
    assert(immutable_metadata_at(bytes, after_state) == Some(
        (ImmutableMetadataView { created_at, description, locking }, after_fixed),
    )) by {
        lemma_immutable_metadata_is_read_back(
            id + state,
            created_at,
            description,
            locking,
            text + last + count + kind,
        );
        assert(id + state + fixed + (text + last + count + kind) =~= bytes);
    }
    assert(optional_text_at(bytes, after_fixed) == Some((updatable_metadata, after_metadata))) by {
        lemma_optional_text_is_read_back(
            id + state + fixed,
            updatable_metadata,
            last + count + kind,
        );
        assert(id + state + fixed + text + (last + count + kind) =~= bytes);
    }
    assert(number_at(bytes, after_metadata, 8) == Some(
        (last_state_change_at as nat, after_change),
    ) && last.len() == 8) by {
        lemma_pow256_exact();
        lemma_number_is_read_back(
            id + state + fixed + text,
            last_state_change_at as nat,
            8,
            count + kind,
        );
        crate::encoding::lemma_le_round_trip(last_state_change_at as nat, 8);
        assert(id + state + fixed + text + last + (count + kind) =~= bytes);
    }
    assert(number_at(bytes, after_change, 8) == Some(
        (state_version_count as nat, after_count),
    ) && count.len() == 8) by {
        lemma_pow256_exact();
        lemma_number_is_read_back(
            id + state + fixed + text + last,
            state_version_count as nat,
            8,
            kind,
        );
        crate::encoding::lemma_le_round_trip(state_version_count as nat, 8);
    }
    assert(method_at(bytes, after_count) == Some((method, after_count + 1)) && bytes.len()
        == after_count + 1) by {
        assert(bytes[after_count] == kind[0]);
    }
    lemma_fields_make_a_notarization(
        bytes,
        OnChainNotarizationView {
            id,
            state: StateView { data: stored_data(raw), metadata: state_metadata },
            immutable_metadata: ImmutableMetadataView { created_at, description, locking },
            updatable_metadata,
            last_state_change_at,
            state_version_count,
            method,
        },
        after_id,
        after_state,
        after_fixed,
        after_metadata,
        after_change,
        after_count,
    );
}

/// Little-endian bytes stand for a number below 256 to the power of their count.
pub proof fn lemma_le_value_bound(bytes: Seq<u8>)
    ensures
        le_value(bytes) < vstd::arithmetic::power::pow(256, bytes.len()),
    decreases bytes.len(),
{
    vstd::arithmetic::power::lemma_pow0(256);
    if bytes.len() > 0 {
        let rest = bytes.drop_first();
        lemma_le_value_bound(rest);
        vstd::arithmetic::power::lemma_pow_adds(256, 1, rest.len());
        vstd::arithmetic::power::lemma_pow1(256);
        assert(vstd::arithmetic::power::pow(256, bytes.len()) == 256
            * vstd::arithmetic::power::pow(256, rest.len()));
        assert(bytes[0] as nat + 256 * le_value(rest) < 256 * vstd::arithmetic::power::pow(
            256,
            rest.len(),
        )) by (nonlinear_arith)
            requires
                le_value(rest) < vstd::arithmetic::power::pow(256, rest.len()),
                bytes[0] < 256,
        ;
    }
}

/// Reads the number that `width` bytes from `pos` stand for in little-endian order, for a
/// width of at most eight bytes.
fn read_number(bytes: &Vec<u8>, pos: usize, width: usize) -> (read: Option<(u64, usize)>)
    requires
        width <= 8,
    ensures
        match read {
            Some((value, next)) => number_at(bytes@, pos as int, width as int) == Some(
                (value as nat, next as int),
            ),
            None => number_at(bytes@, pos as int, width as int) is None,
        },
{
    if pos > bytes.len() || width > bytes.len() - pos {
        return None;
    }
    let mut value: u64 = 0;
    let mut i: usize = width;
    let ghost window = bytes@.subrange(pos as int, pos + width);
    proof {
        assert(window.subrange(width as int, width as int) =~= Seq::<u8>::empty());
        vstd::arithmetic::power::lemma_pow0(256);
    }
    while i > 0
        invariant
            i <= width <= 8,
            pos + width <= bytes.len(),
            window == bytes@.subrange(pos as int, pos + width),
            value as nat == le_value(window.subrange(i as int, width as int)),
            (value as nat) < vstd::arithmetic::power::pow(256, (width - i) as nat),
        decreases i,
    {
        i = i - 1;
        let byte: u8 = bytes[pos + i];
        proof {
            let longer = window.subrange(i as int, width as int);
            let shorter = window.subrange(i + 1, width as int);
            assert(longer.drop_first() =~= shorter);
            assert(longer[0] == byte);
            lemma_le_value_bound(longer);
            lemma_pow256_bound((width - i) as nat);
        }
        value = value * 256 + byte as u64;
    }
    assert(window.subrange(0, width as int) =~= window);
    Some((value, pos + width))
}

/// 256 to a power of at most eight does not exceed 2^64.
pub proof fn lemma_pow256_bound(exponent: nat)
    requires
        exponent <= 8,
    ensures
        vstd::arithmetic::power::pow(256, exponent) <= 0x1_0000_0000_0000_0000,
{
    lemma_pow256_exact();
    if exponent < 8 {
        vstd::arithmetic::power::lemma_pow_increases(256, exponent, 8);
    }
}

/// 256 to the power of eight is 2^64.
pub proof fn lemma_pow256_exact()
    ensures
        vstd::arithmetic::power::pow(256, 8) == 0x1_0000_0000_0000_0000,
{
    reveal_with_fuel(vstd::arithmetic::power::pow, 9);
    assert(vstd::arithmetic::power::pow(256, 8) == 256 * (256 * (256 * (256 * (256 * (256 * (256
        * (256 * 1))))))));
}

/// Reads the 64-bit number that is written at `pos`.
pub fn read_u64(bytes: &Vec<u8>, pos: usize) -> (read: Option<(u64, usize)>)
    ensures
        match read {
            Some((value, next)) => number_at(bytes@, pos as int, 8) == Some(
                (value as nat, next as int),
            ),
            None => number_at(bytes@, pos as int, 8) is None,
        },
{
    read_number(bytes, pos, 8)
}

/// Reads the number that is written at `pos` in ULEB128 with at most `digits` digits, of
/// which there are at most five.
fn read_uleb128(bytes: &Vec<u8>, pos: usize, digits: u8) -> (read: Option<(u64, usize)>)
    requires
        digits <= 5,
    ensures
        match read {
            Some((value, next)) => {
                &&& uleb128_at(bytes@, pos as int, digits as nat) == Some(
                    (value as nat, next as int),
                )
                &&& (value as nat) < vstd::arithmetic::power::pow(128, digits as nat)
                &&& pos < next <= bytes@.len()
            },
            None => uleb128_at(bytes@, pos as int, digits as nat) is None,
        },
    decreases digits,
{
    if digits == 0 || pos >= bytes.len() {
        return None;
    }
    let byte: u8 = bytes[pos];
    proof {
        vstd::arithmetic::power::lemma_pow_adds(128, 1, (digits - 1) as nat);
        vstd::arithmetic::power::lemma_pow1(128);
        vstd::arithmetic::power::lemma_pow_positive(128, (digits - 1) as nat);
        lemma_pow128_bound((digits - 1) as nat);
    }
    if byte < 128 {
        if byte == 0 && digits < 5 {
            None
        } else {
            assert((byte as nat) < 128 * vstd::arithmetic::power::pow(128, (digits - 1) as nat))
                by (nonlinear_arith)
                requires
                    byte < 128,
                    vstd::arithmetic::power::pow(128, (digits - 1) as nat) >= 1,
            ;
            Some((byte as u64, pos + 1))
        }
    } else {
        match read_uleb128(bytes, pos + 1, digits - 1) {
            Some((rest, next)) => {
                assert(byte - 128 + 128 * rest < 128 * vstd::arithmetic::power::pow(
                    128,
                    (digits - 1) as nat,
                )) by (nonlinear_arith)
                    requires
                        128 <= byte < 256,
                        (rest as nat) < vstd::arithmetic::power::pow(128, (digits - 1) as nat),
                ;
                Some(((byte - 128) as u64 + 128 * rest, next))
            },
            None => None,
        }
    }
}

/// 128 to a power of at most five does not exceed 2^35.
pub proof fn lemma_pow128_bound(exponent: nat)
    requires
        exponent <= 5,
    ensures
        vstd::arithmetic::power::pow(128, exponent) <= 0x8_0000_0000,
{
    reveal_with_fuel(vstd::arithmetic::power::pow, 6);
    assert(vstd::arithmetic::power::pow(128, 5) == 128 * (128 * (128 * (128 * (128 * 1)))));
    if exponent < 5 {
        vstd::arithmetic::power::lemma_pow_increases(128, exponent, 5);
    }
}

/// Reads the length of a sequence that is written at `pos`.
pub fn read_length(bytes: &Vec<u8>, pos: usize) -> (read: Option<(usize, usize)>)
    ensures
        match read {
            Some((length, next)) => {
                &&& length_at(bytes@, pos as int) == Some((length as nat, next as int))
                &&& next <= bytes@.len()
            },
            None => length_at(bytes@, pos as int) is None,
        },
{
    match read_uleb128(bytes, pos, 5) {
        Some((length, next)) => {
            if length <= 0x7fff_ffff {
                Some((length as usize, next))
            } else {
                None
            }
        },
        None => None,
    }
}

/// Copies the bytes from `from` up to `to`.
fn copy_range(bytes: &Vec<u8>, from: usize, to: usize) -> (copy: Vec<u8>)
    requires
        from <= to <= bytes@.len(),
    ensures
        copy@ == bytes@.subrange(from as int, to as int),
{
    let mut copy: Vec<u8> = Vec::new();
    let mut i: usize = from;
    while i < to
        invariant
            from <= i <= to <= bytes@.len(),
            copy@ == bytes@.subrange(from as int, i as int),
        decreases to - i,
    {
        copy.push(bytes[i]);
        assert(copy@ =~= bytes@.subrange(from as int, i + 1));
        i = i + 1;
    }
    copy
}

/// Reads the byte string that is written at `pos`.
pub fn read_byte_string(bytes: &Vec<u8>, pos: usize) -> (read: Option<(Vec<u8>, usize)>)
    ensures
        match read {
            Some((held, next)) => {
                &&& byte_string_at(bytes@, pos as int) == Some((held@, next as int))
                &&& next <= bytes@.len()
            },
            None => byte_string_at(bytes@, pos as int) is None,
        },
{
    match read_length(bytes, pos) {
        Some((length, next)) => {
            if length <= bytes.len() - next {
                Some((copy_range(bytes, next, next + length), next + length))
            } else {
                None
            }
        },
        None => None,
    }
}

/// Reads the text that is written at `pos`.
pub fn read_text(bytes: &Vec<u8>, pos: usize) -> (read: Option<(String, usize)>)
    ensures
        match read {
            Some((held, next)) => {
                &&& text_at(bytes@, pos as int) == Some((held@, next as int))
                &&& next <= bytes@.len()
            },
            None => text_at(bytes@, pos as int) is None,
        },
{
    match read_byte_string(bytes, pos) {
        Some((raw, next)) => match text_from_utf8(raw) {
            Some(text) => Some((text, next)),
            None => None,
        },
        None => None,
    }
}

/// Reads the optional text that is written at `pos`.
pub fn read_optional_text(bytes: &Vec<u8>, pos: usize) -> (read: Option<(Option<String>, usize)>)
    ensures
        match read {
            Some((held, next)) => {
                &&& optional_text_at(bytes@, pos as int) == Some((text_of(held), next as int))
                &&& next <= bytes@.len()
            },
            None => optional_text_at(bytes@, pos as int) is None,
        },
{
    if pos >= bytes.len() {
        return None;
    }
    let tag: u8 = bytes[pos];
    if tag == 0 {
        Some((None, pos + 1))
    } else if tag == 1 {
        match read_text(bytes, pos + 1) {
            Some((text, next)) => Some((Some(text), next)),
            None => None,
        }
    } else {
        None
    }
}

/// Reads the time lock that is written at `pos`.
pub fn read_lock(bytes: &Vec<u8>, pos: usize) -> (read: Option<(TimeLock, usize)>)
    ensures
        match read {
            Some((held, next)) => {
                &&& lock_at(bytes@, pos as int) == Some((held, next as int))
                &&& next <= bytes@.len()
            },
            None => lock_at(bytes@, pos as int) is None,
        },
{
    if pos >= bytes.len() {
        return None;
    }
    let kind: u8 = bytes[pos];
    if kind == 0 {
        match read_number(bytes, pos + 1, 4) {
            Some((seconds, next)) => {
                proof {
                    lemma_le_value_bound(bytes@.subrange(pos + 1, pos + 5));
                    reveal_with_fuel(vstd::arithmetic::power::pow, 5);
                    assert(vstd::arithmetic::power::pow(256, 4) == 256 * (256 * (256 * (256
                        * 1))));
                }
                Some((TimeLock::UnlockAt(seconds as u32), next))
            },
            None => None,
        }
    } else if kind == 1 {
        Some((TimeLock::UntilDestroyed, pos + 1))
    } else if kind == 2 {
        Some((TimeLock::NoLock, pos + 1))
    } else {
        None
    }
}

/// Reads the lock metadata that is written at `pos`.
pub fn read_lock_metadata(bytes: &Vec<u8>, pos: usize) -> (read: Option<(LockMetadata, usize)>)
    ensures
        match read {
            Some((held, next)) => {
                &&& lock_metadata_at(bytes@, pos as int) == Some((held, next as int))
                &&& next <= bytes@.len()
            },
            None => lock_metadata_at(bytes@, pos as int) is None,
        },
{
    let (update_lock, after_update) = match read_lock(bytes, pos) {
        Some(read) => read,
        None => {
            return None;
        },
    };
    let (delete_lock, after_delete) = match read_lock(bytes, after_update) {
        Some(read) => read,
        None => {
            return None;
        },
    };
    match read_lock(bytes, after_delete) {
        Some((transfer_lock, next)) => Some(
            (LockMetadata { update_lock, delete_lock, transfer_lock }, next),
        ),
        None => None,
    }
}

/// Reads the optional lock metadata that is written at `pos`.
pub fn read_locking(bytes: &Vec<u8>, pos: usize) -> (read: Option<(Option<LockMetadata>, usize)>)
    ensures
        match read {
            Some((held, next)) => {
                &&& locking_at(bytes@, pos as int) == Some((held, next as int))
                &&& next <= bytes@.len()
            },
            None => locking_at(bytes@, pos as int) is None,
        },
{
    if pos >= bytes.len() {
        return None;
    }
    let tag: u8 = bytes[pos];
    if tag == 0 {
        Some((None, pos + 1))
    } else if tag == 1 {
        match read_lock_metadata(bytes, pos + 1) {
            Some((locking, next)) => Some((Some(locking), next)),
            None => None,
        }
    } else {
        None
    }
}

/// Reads the notarization method that is written at `pos`.
pub fn read_method(bytes: &Vec<u8>, pos: usize) -> (read: Option<(NotarizationMethod, usize)>)
    ensures
        match read {
            Some((held, next)) => {
                &&& method_at(bytes@, pos as int) == Some((held, next as int))
                &&& next <= bytes@.len()
            },
            None => method_at(bytes@, pos as int) is None,
        },
{
    if pos >= bytes.len() {
        return None;
    }
    let kind: u8 = bytes[pos];
    if kind == 0 {
        Some((NotarizationMethod::Dynamic, pos + 1))
    } else if kind == 1 {
        Some((NotarizationMethod::Locked, pos + 1))
    } else {
        None
    }
}

/// Reads the object identifier that is written at `pos`.
pub fn read_id(bytes: &Vec<u8>, pos: usize) -> (read: Option<(ObjectID, usize)>)
    ensures
        match read {
            Some((held, next)) => {
                &&& id_at(bytes@, pos as int) == Some((held@, next as int))
                &&& next <= bytes@.len()
            },
            None => id_at(bytes@, pos as int) is None,
        },
{
    if pos > bytes.len() || bytes.len() - pos < 32 {
        return None;
    }
    let mut id: [u8; 32] = [0u8; 32];
    let mut i: usize = 0;
    while i < 32
        invariant
            i <= 32,
            pos + 32 <= bytes.len(),
            forall|k: int| 0 <= k < i ==> id@[k] == bytes@[pos + k],
        decreases 32 - i,
    {
        id[i] = bytes[pos + i];
        i = i + 1;
    }
    let held = ObjectID::new(id);
    assert(held@ =~= bytes@.subrange(pos as int, pos + 32));
    Some((held, pos + 32))
}

/// Reads the state that is written at `pos` as the ledger stores it.
pub fn read_stored_state(bytes: &Vec<u8>, pos: usize) -> (read: Option<(State, usize)>)
    ensures
        match read {
            Some((held, next)) => {
                &&& stored_state_at(bytes@, pos as int) == Some((held@, next as int))
                &&& next <= bytes@.len()
            },
            None => stored_state_at(bytes@, pos as int) is None,
        },
{
    let (raw, after_data) = match read_byte_string(bytes, pos) {
        Some(read) => read,
        None => {
            return None;
        },
    };
    match read_optional_text(bytes, after_data) {
        Some((metadata, next)) => Some((State { data: Data::deserialize(raw), metadata }, next)),
        None => None,
    }
}

/// Reads the immutable metadata that is written at `pos`.
pub fn read_immutable_metadata(bytes: &Vec<u8>, pos: usize) -> (read: Option<
    (ImmutableMetadata, usize),
>)
    ensures
        match read {
            Some((held, next)) => {
                &&& immutable_metadata_at(bytes@, pos as int) == Some((held@, next as int))
                &&& next <= bytes@.len()
            },
            None => immutable_metadata_at(bytes@, pos as int) is None,
        },
{
    let (created_at, after_created) = match read_u64(bytes, pos) {
        Some(read) => read,
        None => {
            return None;
        },
    };
    let (description, after_description) = match read_optional_text(bytes, after_created) {
        Some(read) => read,
        None => {
            return None;
        },
    };
    match read_locking(bytes, after_description) {
        Some((locking, next)) => Some(
            (ImmutableMetadata { created_at, description, locking }, next),
        ),
        None => None,
    }
}

/// Reads the notarization that is written at `pos`.
pub fn read_notarization(bytes: &Vec<u8>, pos: usize) -> (read: Option<
    (OnChainNotarization, usize),
>)
    ensures
        match read {
            Some((held, next)) => {
                &&& notarization_at(bytes@, pos as int) == Some((held@, next as int))
                &&& next <= bytes@.len()
            },
            None => notarization_at(bytes@, pos as int) is None,
        },
{
    let (id, after_id) = match read_id(bytes, pos) {
        Some(read) => read,
        None => {
            return None;
        },
    };
    let (state, after_state) = match read_stored_state(bytes, after_id) {
        Some(read) => read,
        None => {
            return None;
        },
    };
    let (immutable_metadata, after_fixed) = match read_immutable_metadata(bytes, after_state) {
        Some(read) => read,
        None => {
            return None;
        },
    };
    let (updatable_metadata, after_metadata) = match read_optional_text(bytes, after_fixed) {
        Some(read) => read,
        None => {
            return None;
        },
    };
    let (last_state_change_at, after_change) = match read_u64(bytes, after_metadata) {
        Some(read) => read,
        None => {
            return None;
        },
    };
    let (state_version_count, after_count) = match read_u64(bytes, after_change) {
        Some(read) => read,
        None => {
            return None;
        },
    };
    match read_method(bytes, after_count) {
        Some((method, next)) => Some(
            (
                OnChainNotarization {
                    id,
                    state,
                    immutable_metadata,
                    updatable_metadata,
                    last_state_change_at,
                    state_version_count,
                    method,
                },
                next,
            ),
        ),
        None => None,
    }
}

} // verus!
