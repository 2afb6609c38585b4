//! A read-only client for notarizations.
//!
//! A query is a programmable transaction that the ledger simulates without changing
//! anything. Its answer is the first value that the first instruction returned, in
//! binary; each query knows the type that its answer is read as.

use crate::decoding::locking_at;
use crate::decoding::method_at;
use crate::decoding::read_locking;
use crate::decoding::read_method;
use crate::decoding::whole;
use crate::encoding::bool_refusal;
use crate::encoding::bytes_with_text;
use crate::encoding::bytes_with_text_refusal;
use crate::encoding::decode_bool;
use crate::encoding::decode_bytes_with_text;
use crate::encoding::decode_optional_text;
use crate::encoding::decode_text_with_text;
use crate::encoding::decode_u64;
use crate::encoding::le_value;
use crate::encoding::optional_text;
use crate::encoding::optional_text_decode_refusal;
use crate::encoding::optional_text_fits;
use crate::encoding::text_fits;
use crate::encoding::text_with_text;
use crate::encoding::text_with_text_refusal;
use crate::encoding::u64_refusal;
use crate::encoding::MAX_SEQUENCE_LENGTH;
use crate::error::failure;
use crate::error::Error;
use crate::error::ErrorKind;
use crate::error::ErrorView;
use crate::transactions::create::fetched;
use crate::transactions::create::get_object_ref_by_id_with_bcs;
use crate::transactions::create::ContentLookup;
use crate::types::notarization::OnChainNotarization;
use crate::types::notarization::OnChainNotarizationView;
use crate::types::object::ObjectID;
use crate::types::state::Data;
use crate::types::state::DataView;
use crate::types::state::State;
use crate::types::state::StateView;
use crate::types::text_of;
use crate::types::timelock::LockMetadata;
use crate::types::type_tag::TypeTag;
use crate::types::NotarizationMethod;
use vstd::prelude::*;
use vstd::string::StringExecFns;

verus! {

/// What one instruction of a simulated transaction returned: its values in binary.
#[derive(Debug, Clone, PartialEq, Eq)]
pub struct ExecutionResult {
    pub return_values: Vec<Vec<u8>>,
}

/// What the ledger answers when it is asked to simulate a transaction.
#[derive(Debug, Clone, PartialEq, Eq)]
pub enum Inspection {
    /// The request failed; the client's words are held.
    Failed(String),
    /// The simulation ran; the results of its instructions are held, where the answer
    /// has any.
    Completed(Option<Vec<ExecutionResult>>),
}

/// The kind of payload that a state holds on the ledger.
#[derive(Debug, Clone, Copy, PartialEq, Eq, Structural)]
pub enum StatePayload {
    /// A byte vector.
    Bytes,
    /// A string.
    Text,
}

/// The first value that the first instruction of a simulation returned, or the failure
/// that is reported where there is none.
pub open spec fn returned_value(inspection: Inspection) -> Result<Seq<u8>, ErrorView> {
    match inspection {
        Inspection::Failed(words) => Err(
            failure(
                ErrorKind::UnexpectedApiResponse,
                "Failed to inspect transaction block: "@ + words@,
            ),
        ),
        Inspection::Completed(None) => Err(
            failure(
                ErrorKind::UnexpectedApiResponse,
                "DevInspectResults missing 'results' field"@,
            ),
        ),
        Inspection::Completed(Some(results)) => if results@.len() == 0 {
            Err(failure(ErrorKind::UnexpectedApiResponse, "Execution results list is empty"@))
        } else if results@[0].return_values@.len() == 0 {
            Err(
                failure(ErrorKind::UnexpectedApiResponse, "should have at least one return value"@),
            )
        } else {
            Ok(results@[0].return_values@[0]@)
        },
    }
}

/// Whether `read` is what reading the answer of a simulation gives, for a type whose
/// values are read from bytes as `decoded` says: a failure to get at the answer is
/// reported as it is, bytes that are no value of the type as a deserialization error
/// with the words that `refusal` gives for them.
pub open spec fn is_answer<T>(
    read: Result<T, Error>,
    inspection: Inspection,
    decoded: spec_fn(Seq<u8>) -> Option<T>,
    refusal: spec_fn(Seq<u8>) -> Seq<char>,
) -> bool {
    match returned_value(inspection) {
        Err(unavailable) => read matches Err(error) && error@ == unavailable,
        Ok(bytes) => match decoded(bytes) {
            Some(value) => read == Ok::<T, Error>(value),
            None => read matches Err(error) && error@ == failure(
                ErrorKind::DeserializationError,
                refusal(bytes),
            ),
        },
    }
}

/// The 64-bit number that bytes are the encoding of.
pub open spec fn decoded_u64(bytes: Seq<u8>) -> Option<u64> {
    if bytes.len() == 8 {
        Some(le_value(bytes) as u64)
    } else {
        None
    }
}

/// The truth value that bytes are the encoding of.
pub open spec fn decoded_bool(bytes: Seq<u8>) -> Option<bool> {
    if bytes.len() == 1 && bytes[0] <= 1 {
        Some(bytes[0] == 1)
    } else {
        None
    }
}

/// The notarization method that bytes are the encoding of.
pub open spec fn decoded_method(bytes: Seq<u8>) -> Option<NotarizationMethod> {
    whole(bytes, method_at(bytes, 0))
}

/// The optional lock metadata that bytes are the encoding of.
pub open spec fn decoded_locking(bytes: Seq<u8>) -> Option<Option<LockMetadata>> {
    whole(bytes, locking_at(bytes, 0))
}

/// The kind of payload that a state of the given type holds, or the failure that is
/// reported for a type that is neither a byte vector nor a string.
pub open spec fn payload_of(tag: Seq<char>) -> Result<StatePayload, ErrorView> {
    if tag == "vector<u8>"@ {
        Ok(StatePayload::Bytes)
    } else if holds_text(tag, "::string::String"@) {
        Ok(StatePayload::Text)
    } else {
        Err(failure(ErrorKind::InvalidArgument, "Unsupported state type: "@ + tag))
    }
}

/// Whether `pattern` occurs in `text`.
pub open spec fn holds_text(text: Seq<char>, pattern: Seq<char>) -> bool {
    exists|i: int|
        0 <= i && i + pattern.len() <= text.len() && #[trigger] text.subrange(
            i,
            i + pattern.len(),
        ) == pattern
}

/// `str::contains` with a string as the pattern: whether the pattern occurs in the text.
#[verifier::external_body]
fn text_contains(text: &str, pattern: &str) -> (found: bool)
    ensures
        found == holds_text(text@, pattern@),
{
    text.contains(pattern)
}

/// The first value that the first instruction of a simulation returned.
///
/// Fails when the simulation failed, when its answer holds no results or an empty list
/// of them, and when the first result holds no value: each time with an unexpected
/// response of the node, whose message says what was missing. Later results and later
/// values of the first result are not looked at.
pub fn execute_read_only_transaction(inspection: Inspection) -> (value: Result<Vec<u8>, Error>)
    ensures
        match value {
            Ok(bytes) => returned_value(inspection) == Ok::<Seq<u8>, ErrorView>(bytes@),
            Err(error) => returned_value(inspection) == Err::<Seq<u8>, ErrorView>(error@),
        },
{
    let execution_results = match inspection {
        Inspection::Failed(words) => {
            return Err(
                Error::UnexpectedApiResponse(
                    String::from_str("Failed to inspect transaction block: ").concat(
                        words.as_str(),
                    ),
                ),
            );
        },
        Inspection::Completed(None) => {
            return Err(
                Error::UnexpectedApiResponse(
                    String::from_str("DevInspectResults missing 'results' field"),
                ),
            );
        },
        Inspection::Completed(Some(results)) => results,
    };
    let mut execution_results = execution_results;
    if execution_results.len() == 0 {
        return Err(
            Error::UnexpectedApiResponse(String::from_str("Execution results list is empty")),
        );
    }
    let mut first = execution_results.swap_remove(0);
    if first.return_values.len() == 0 {
        return Err(
            Error::UnexpectedApiResponse(
                String::from_str("should have at least one return value"),
            ),
        );
    }
    Ok(first.return_values.swap_remove(0))
}

/// A client's knowledge of the network that it is connected to.
#[derive(Debug, Clone, PartialEq, Eq)]
pub struct NotarizationClientReadOnly {
    /// The package of the notarization contracts on the client's network.
    notarization_pkg_id: ObjectID,
    /// The name of the network this client is connected to.
    network: String,
    chain_id: String,
}

/// The name that a client uses for its network: `iota` for the main network, else the
/// alias that the registry holds for the chain, else the chain identifier itself.
pub open spec fn network_name(chain_id: Seq<char>, alias: Option<Seq<char>>) -> Seq<char> {
    if chain_id == "6364aad5"@ {
        "iota"@
    } else {
        match alias {
            Some(name) => name,
            None => chain_id,
        }
    }
}

/// How the message starts and ends that reports a network without a known package.
pub open spec fn unknown_network(chain_id: Seq<char>) -> Seq<char> {
    "no information for a published `notarization` package on network "@ + chain_id
        + "; try to use `NotarizationClientReadOnly::new_with_package_id`"@
}

impl NotarizationClientReadOnly {
    /// The package of the notarization contracts on the client's network.
    pub closed spec fn spec_package_id(&self) -> ObjectID {
        self.notarization_pkg_id
    }

    /// The name of the client's network.
    pub closed spec fn spec_network(&self) -> Seq<char> {
        self.network@
    }

    /// The chain identifier of the client's network.
    pub closed spec fn spec_chain_id(&self) -> Seq<char> {
        self.chain_id@
    }

    /// Returns the name of the network the client is connected to.
    pub fn network(&self) -> (name: &str)
        ensures
            name@ == self.spec_network(),
    {
        self.network.as_str()
    }

    /// Returns the chain identifier for the network this client is connected to.
    pub fn chain_id(&self) -> (id: &str)
        ensures
            id@ == self.spec_chain_id(),
    {
        self.chain_id.as_str()
    }

    /// Returns the package of the notarization contracts used by this client.
    pub fn package_id(&self) -> (package: ObjectID)
        ensures
            package == self.spec_package_id(),
    {
        self.notarization_pkg_id
    }

    /// Makes a client for the network with the given chain identifier.
    ///
    /// `registered` is the package that the registry holds for the network, and `alias`
    /// the name that it holds for the chain, if that is a valid network name. Fails when
    /// no package is registered.
    pub fn new_internal(chain_id: String, registered: Option<ObjectID>, alias: Option<String>) -> (client:
        Result<Self, Error>)
        ensures
            match client {
                Ok(made) => {
                    &&& registered == Some(made.spec_package_id())
                    &&& made.spec_chain_id() == chain_id@
                    &&& made.spec_network() == network_name(chain_id@, text_of(alias))
                },
                Err(error) => {
                    &&& registered is None
                    &&& error@ == failure(ErrorKind::InvalidConfig, unknown_network(chain_id@))
                },
            },
    {
        let notarization_pkg_id = match registered {
            Some(package_id) => package_id,
            None => {
                return Err(
                    Error::InvalidConfig(
                        String::from_str(
                            "no information for a published `notarization` package on network ",
                        ).concat(chain_id.as_str()).concat(
                            "; try to use `NotarizationClientReadOnly::new_with_package_id`",
                        ),
                    ),
                );
            },
        };
        let network = if chain_id == String::from_str("6364aad5") {
            String::from_str("iota")
        } else {
            match alias {
                Some(name) => name,
                None => chain_id.clone(),
            }
        };
        Ok(NotarizationClientReadOnly { notarization_pkg_id, network, chain_id })
    }

    fn answer_u64(inspection: Inspection) -> (read: Result<u64, Error>)
        ensures
            is_answer(
                read,
                inspection,
                |bytes: Seq<u8>| decoded_u64(bytes),
                |bytes: Seq<u8>| u64_refusal(bytes),
            ),
    {
        let bytes = match execute_read_only_transaction(inspection) {
            Ok(bytes) => bytes,
            Err(error) => {
                return Err(error);
            },
        };
        match decode_u64(bytes.as_slice()) {
            Ok(value) => Ok(value),
            Err(words) => Err(Error::DeserializationError(words)),
        }
    }

    fn answer_bool(inspection: Inspection) -> (read: Result<bool, Error>)
        ensures
            is_answer(
                read,
                inspection,
                |bytes: Seq<u8>| decoded_bool(bytes),
                |bytes: Seq<u8>| bool_refusal(bytes),
            ),
    {
        let bytes = match execute_read_only_transaction(inspection) {
            Ok(bytes) => bytes,
            Err(error) => {
                return Err(error);
            },
        };
        match decode_bool(bytes.as_slice()) {
            Ok(value) => Ok(value),
            Err(words) => Err(Error::DeserializationError(words)),
        }
    }

    fn answer_optional_text(inspection: Inspection) -> (read: Result<Option<String>, Error>)
        ensures
            match returned_value(inspection) {
                Err(unavailable) => read matches Err(error) && error@ == unavailable,
                Ok(bytes) => match read {
                    Ok(text) => optional_text_fits(text_of(text)) && bytes == optional_text(
                        text_of(text),
                    ),
                    Err(error) => {
                        &&& error@ == failure(
                            ErrorKind::DeserializationError,
                            optional_text_decode_refusal(bytes),
                        )
                        &&& forall|text: Option<Seq<char>>|
                            optional_text_fits(text) ==> bytes != #[trigger] optional_text(text)
                    },
                },
            },
    {
        let bytes = match execute_read_only_transaction(inspection) {
            Ok(bytes) => bytes,
            Err(error) => {
                return Err(error);
            },
        };
        match decode_optional_text(bytes.as_slice()) {
            Ok(value) => Ok(value),
            Err(words) => Err(Error::DeserializationError(words)),
        }
    }

    /// Reads the time of the last state change from the answer to the query for it.
    pub fn last_state_change_ts(inspection: Inspection) -> (read: Result<u64, Error>)
        ensures
            is_answer(
                read,
                inspection,
                |bytes: Seq<u8>| decoded_u64(bytes),
                |bytes: Seq<u8>| u64_refusal(bytes),
            ),
    {
        Self::answer_u64(inspection)
    }

    /// Reads the time of creation from the answer to the query for it.
    pub fn created_at_ts(inspection: Inspection) -> (read: Result<u64, Error>)
        ensures
            is_answer(
                read,
                inspection,
                |bytes: Seq<u8>| decoded_u64(bytes),
                |bytes: Seq<u8>| u64_refusal(bytes),
            ),
    {
        Self::answer_u64(inspection)
    }

    /// Reads the number of state changes from the answer to the query for it.
    pub fn state_version_count(inspection: Inspection) -> (read: Result<u64, Error>)
        ensures
            is_answer(
                read,
                inspection,
                |bytes: Seq<u8>| decoded_u64(bytes),
                |bytes: Seq<u8>| u64_refusal(bytes),
            ),
    {
        Self::answer_u64(inspection)
    }

    /// Reads the immutable description from the answer to the query for it: the one
    /// optional text whose encoding the answer is.
    pub fn description(inspection: Inspection) -> (read: Result<Option<String>, Error>)
        ensures
            match returned_value(inspection) {
                Err(unavailable) => read matches Err(error) && error@ == unavailable,
                Ok(bytes) => match read {
                    Ok(text) => optional_text_fits(text_of(text)) && bytes == optional_text(
                        text_of(text),
                    ),
                    Err(error) => {
                        &&& error@ == failure(
                            ErrorKind::DeserializationError,
                            optional_text_decode_refusal(bytes),
                        )
                        &&& forall|text: Option<Seq<char>>|
                            optional_text_fits(text) ==> bytes != #[trigger] optional_text(text)
                    },
                },
            },
    {
        Self::answer_optional_text(inspection)
    }

    /// Reads the updatable metadata from the answer to the query for it: the one optional
    /// text whose encoding the answer is.
    pub fn updatable_metadata(inspection: Inspection) -> (read: Result<Option<String>, Error>)
        ensures
            match returned_value(inspection) {
                Err(unavailable) => read matches Err(error) && error@ == unavailable,
                Ok(bytes) => match read {
                    Ok(text) => optional_text_fits(text_of(text)) && bytes == optional_text(
                        text_of(text),
                    ),
                    Err(error) => {
                        &&& error@ == failure(
                            ErrorKind::DeserializationError,
                            optional_text_decode_refusal(bytes),
                        )
                        &&& forall|text: Option<Seq<char>>|
                            optional_text_fits(text) ==> bytes != #[trigger] optional_text(text)
                    },
                },
            },
    {
        Self::answer_optional_text(inspection)
    }

    /// Reads the notarization method from the answer to the query for it.
    pub fn notarization_method(inspection: Inspection) -> (read: Result<NotarizationMethod, Error>)
        ensures
            is_answer(
                read,
                inspection,
                |bytes: Seq<u8>| decoded_method(bytes),
                |bytes: Seq<u8>| "invalid encoding of a notarization method"@,
            ),
    {
        let bytes = match execute_read_only_transaction(inspection) {
            Ok(bytes) => bytes,
            Err(error) => {
                return Err(error);
            },
        };
        match read_method(&bytes, 0) {
            Some((method, next)) => {
                if next == bytes.len() {
                    return Ok(method);
                }
            },
            None => {},
        }
        Err(
            Error::DeserializationError(
                String::from_str("invalid encoding of a notarization method"),
            ),
        )
    }

    /// Reads the lock metadata from the answer to the query for it.
    pub fn lock_metadata(inspection: Inspection) -> (read: Result<Option<LockMetadata>, Error>)
        ensures
            is_answer(
                read,
                inspection,
                |bytes: Seq<u8>| decoded_locking(bytes),
                |bytes: Seq<u8>| "invalid encoding of lock metadata"@,
            ),
    {
        let bytes = match execute_read_only_transaction(inspection) {
            Ok(bytes) => bytes,
            Err(error) => {
                return Err(error);
            },
        };
        match read_locking(&bytes, 0) {
            Some((locking, next)) => {
                if next == bytes.len() {
                    return Ok(locking);
                }
            },
            None => {},
        }
        Err(Error::DeserializationError(String::from_str("invalid encoding of lock metadata")))
    }

    /// Tells from the type tag of a notarization which kind of payload its state holds.
    ///
    /// Fails for every type but `vector<u8>` and the types whose text holds
    /// `::string::String`.
    pub fn state_payload(tag: &TypeTag) -> (payload: Result<StatePayload, Error>)
        ensures
            match payload {
                Ok(kind) => payload_of(tag@) == Ok::<StatePayload, ErrorView>(kind),
                Err(error) => payload_of(tag@) == Err::<StatePayload, ErrorView>(error@),
            },
    {
        if tag.text == String::from_str("vector<u8>") {
            Ok(StatePayload::Bytes)
        } else if text_contains(tag.text.as_str(), "::string::String") {
            Ok(StatePayload::Text)
        } else {
            Err(
                Error::InvalidArgument(
                    String::from_str("Unsupported state type: ").concat(tag.text.as_str()),
                ),
            )
        }
    }

    /// Reads the state from the answer to the query for it, as a state with a payload of
    /// the given kind: the one state whose encoding the answer is.
    pub fn state(payload: StatePayload, inspection: Inspection) -> (read: Result<State, Error>)
        ensures
            match returned_value(inspection) {
                Err(unavailable) => read matches Err(error) && error@ == unavailable,
                Ok(bytes) => match read {
                    Ok(state) => is_state_encoding(bytes, payload, state@),
                    Err(error) => {
                        &&& error@ == failure(
                            ErrorKind::DeserializationError,
                            state_refusal(payload, bytes),
                        )
                        &&& forall|state: StateView<DataView>| !#[trigger] is_state_encoding(
                            bytes,
                            payload,
                            state,
                        )
                    },
                },
            },
    {
        let bytes = match execute_read_only_transaction(inspection) {
            Ok(bytes) => bytes,
            Err(error) => {
                return Err(error);
            },
        };
        match payload {
            StatePayload::Bytes => match decode_bytes_with_text(bytes.as_slice()) {
                Ok((data, metadata)) => Ok(State { data: Data::Bytes(data), metadata }),
                Err(words) => {
                    assert forall|state: StateView<DataView>| !#[trigger] is_state_encoding(
                        bytes@,
                        payload,
                        state,
                    ) by {
                        if is_state_encoding(bytes@, payload, state) {
                            assert(bytes@ == bytes_with_text(state.data->Bytes_0, state.metadata));
                        }
                    }
                    Err(Error::DeserializationError(words))
                },
            },
            StatePayload::Text => match decode_text_with_text(bytes.as_slice()) {
                Ok((data, metadata)) => Ok(State { data: Data::Text(data), metadata }),
                Err(words) => {
                    assert forall|state: StateView<DataView>| !#[trigger] is_state_encoding(
                        bytes@,
                        payload,
                        state,
                    ) by {
                        if is_state_encoding(bytes@, payload, state) {
                            assert(bytes@ == text_with_text(state.data->Text_0, state.metadata));
                        }
                    }
                    Err(Error::DeserializationError(words))
                },
            },
        }
    }

    /// Retrieves the notarization from what the ledger answered when asked for the
    /// content of the object that holds it.
    pub fn get_notarization_by_id(lookup: ContentLookup) -> (notarization: Result<
        OnChainNotarization,
        Error,
    >)
        ensures
            match notarization {
                Ok(read) => fetched(lookup) == Ok::<OnChainNotarizationView, ErrorView>(read@),
                Err(error) => fetched(lookup) == Err::<OnChainNotarizationView, ErrorView>(
                    error@,
                ),
            },
    {
        get_object_ref_by_id_with_bcs(lookup)
    }

    /// Reads from the answer to the query for it whether the notarization is locked
    /// against updates.
    pub fn is_update_locked(inspection: Inspection) -> (read: Result<bool, Error>)
        ensures
            is_answer(
                read,
                inspection,
                |bytes: Seq<u8>| decoded_bool(bytes),
                |bytes: Seq<u8>| bool_refusal(bytes),
            ),
    {
        Self::answer_bool(inspection)
    }

    /// Reads from the answer to the query for it whether the notarization may be
    /// destroyed.
    pub fn is_destroy_allowed(inspection: Inspection) -> (read: Result<bool, Error>)
        ensures
            is_answer(
                read,
                inspection,
                |bytes: Seq<u8>| decoded_bool(bytes),
                |bytes: Seq<u8>| bool_refusal(bytes),
            ),
    {
        Self::answer_bool(inspection)
    }

    /// Reads from the answer to the query for it whether the notarization is locked
    /// against transfer.
    pub fn is_transfer_locked(inspection: Inspection) -> (read: Result<bool, Error>)
        ensures
            is_answer(
                read,
                inspection,
                |bytes: Seq<u8>| decoded_bool(bytes),
                |bytes: Seq<u8>| bool_refusal(bytes),
            ),
    {
        Self::answer_bool(inspection)
    }
}

/// The words with which the decoder refuses bytes that are not the encoding of a state
/// with a payload of the given kind.
pub open spec fn state_refusal(payload: StatePayload, bytes: Seq<u8>) -> Seq<char> {
    match payload {
        StatePayload::Bytes => bytes_with_text_refusal(bytes),
        StatePayload::Text => text_with_text_refusal(bytes),
    }
}

/// Whether `bytes` are the encoding of `state`, a state with a payload of the given kind
/// that is short enough to be encoded.
pub open spec fn is_state_encoding(
    bytes: Seq<u8>,
    payload: StatePayload,
    state: StateView<DataView>,
) -> bool {
    match (payload, state.data) {
        (StatePayload::Bytes, DataView::Bytes(data)) => {
            &&& data.len() <= MAX_SEQUENCE_LENGTH
            &&& optional_text_fits(state.metadata)
            &&& bytes == bytes_with_text(data, state.metadata)
        },
        (StatePayload::Text, DataView::Text(data)) => {
            &&& text_fits(data)
            &&& optional_text_fits(state.metadata)
            &&& bytes == text_with_text(data, state.metadata)
        },
        _ => false,
    }
}

} // verus!
