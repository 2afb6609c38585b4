//! The state of a notarization: the data being attested and an optional description of
//! it.
//!
//! The data is either raw bytes or text. Data read back from storage arrives as bytes
//! only, and is taken for text exactly when every character of it is printable ASCII or
//! ASCII whitespace.

use crate::encoding::byte_string;
use crate::encoding::optional_text;
use crate::encoding::optional_text_fits;
use crate::encoding::text_fits;
use crate::encoding::text_string;
use crate::encoding::MAX_SEQUENCE_LENGTH;
use crate::error::Error;
use crate::error::ErrorView;
use crate::move_utils::encoding_failure;
use crate::move_utils::ptb_pure;
use crate::move_utils::pure_encoding;
use crate::move_utils::pure_fits;
use crate::move_utils::PureValueView;
use crate::move_utils::PureValue;
use crate::programmable::call_view;
use crate::programmable::positions;
use crate::programmable::tag_texts;
use crate::programmable::Argument;
use crate::programmable::InstructionView;
use crate::programmable::ProgrammableTransactionBuilder;
use crate::types::object::ObjectID;
use crate::types::copy_bytes;
use crate::types::copy_text;
use crate::types::text_of;
use crate::types::type_tag::byte_vector_type;
use crate::types::type_tag::string_type;
use crate::types::type_tag::TypeTag;
use vstd::prelude::*;
use vstd::string::StringExecFns;
use vstd::utf8::decode_utf8;
use vstd::utf8::encode_utf8;
use vstd::utf8::is_ascii_chars;
use vstd::utf8::valid_utf8;

verus! {

/// Represents the state of a notarization.
///
/// State encapsulates the data being notarized along with optional metadata.
#[derive(Debug, Clone, PartialEq)]
pub struct State<T = Data> {
    /// The actual data being notarized
    pub data: T,
    /// Optional metadata describing the data
    pub metadata: Option<String>,
}

/// Represents the different types of data that can be notarized.
#[derive(Debug, Clone, PartialEq)]
pub enum Data {
    /// Raw binary data (e.g., files, images, serialized objects)
    Bytes(Vec<u8>),
    /// UTF-8 text data (e.g., documents, JSON, configuration)
    Text(String),
}

/// What a `Data` value holds.
pub enum DataView {
    Bytes(Seq<u8>),
    Text(Seq<char>),
}

/// What a `State` value holds.
pub struct StateView<V> {
    pub data: V,
    pub metadata: Option<Seq<char>>,
}

impl View for Data {
    type V = DataView;

    open spec fn view(&self) -> DataView {
        match self {
            Data::Bytes(bytes) => DataView::Bytes(bytes@),
            Data::Text(text) => DataView::Text(text@),
        }
    }
}

impl<T: View> View for State<T> {
    type V = StateView<T::V>;

    open spec fn view(&self) -> StateView<T::V> {
        StateView { data: self.data@, metadata: text_of(self.metadata) }
    }
}

/// Whether a character is printable ASCII or ASCII whitespace: one of `!` to `~`, space,
/// tab, line feed, form feed or carriage return.
pub open spec fn is_text_char(c: char) -> bool {
    ||| '!' <= c <= '~'
    ||| c == ' '
    ||| c == '\t'
    ||| c == '\n'
    ||| c == '\x0C'
    ||| c == '\r'
}

/// Whether stored bytes are taken for text: they are valid UTF-8 and every character they
/// encode is printable ASCII or ASCII whitespace.
pub open spec fn reads_as_text(bytes: Seq<u8>) -> bool {
    &&& valid_utf8(bytes)
    &&& forall|i: int| 0 <= i < decode_utf8(bytes).len() ==> is_text_char(decode_utf8(bytes)[i])
}

/// The data that stored bytes stand for.
pub open spec fn stored_data(bytes: Seq<u8>) -> DataView {
    if reads_as_text(bytes) {
        DataView::Text(decode_utf8(bytes))
    } else {
        DataView::Bytes(bytes)
    }
}

/// The bytes that data holds, when it is bytes.
pub open spec fn bytes_in(data: DataView) -> Option<Seq<u8>> {
    match data {
        DataView::Bytes(bytes) => Some(bytes),
        DataView::Text(_) => None,
    }
}

/// The text that data holds, when it is text.
pub open spec fn text_in(data: DataView) -> Option<Seq<char>> {
    match data {
        DataView::Bytes(_) => None,
        DataView::Text(text) => Some(text),
    }
}

/// The state made of raw bytes and an optional description.
pub open spec fn bytes_state(data: Seq<u8>, metadata: Option<Seq<char>>) -> StateView<DataView> {
    StateView { data: DataView::Bytes(data), metadata }
}

/// The state made of text and an optional description.
pub open spec fn text_state(data: Seq<char>, metadata: Option<Seq<char>>) -> StateView<DataView> {
    StateView { data: DataView::Text(data), metadata }
}

/// The text of the type under which data is stored on the ledger.
pub open spec fn data_type(data: DataView) -> Seq<char> {
    match data {
        DataView::Bytes(_) => byte_vector_type(),
        DataView::Text(_) => string_type(),
    }
}

/// `String::from_utf8`: the text that the bytes encode in UTF-8, and nothing when they are
/// not valid UTF-8.
#[verifier::external_body]
pub(crate) fn text_from_utf8(bytes: Vec<u8>) -> (text: Option<String>)
    ensures
        text is Some <==> valid_utf8(bytes@),
        text matches Some(s) ==> s@ == decode_utf8(bytes@),
{
    String::from_utf8(bytes).ok()
}

/// Whether a byte is the code of a character that `is_text_char` accepts.
fn is_text_byte(byte: u8) -> (accepted: bool)
    ensures
        accepted == (byte < 128 && is_text_char(byte as char)),
{
    (0x21 <= byte && byte <= 0x7e) || byte == 0x20 || byte == 0x09 || byte == 0x0a || byte == 0x0c
        || byte == 0x0d
}

/// Bytes below 128 are valid UTF-8 and encode one character each, with the byte as its
/// code.
pub proof fn lemma_ascii_bytes_decode(bytes: Seq<u8>)
    requires
        forall|i: int| 0 <= i < bytes.len() ==> bytes[i] < 128,
    ensures
        valid_utf8(bytes),
        decode_utf8(bytes) == Seq::new(bytes.len(), |i: int| bytes[i] as char),
{
    let chars = Seq::new(bytes.len(), |i: int| bytes[i] as char);
    assert(is_ascii_chars(chars));
    vstd::utf8::is_ascii_chars_encode_utf8(chars);
    assert(encode_utf8(chars) =~= bytes);
    vstd::utf8::encode_utf8_valid_utf8(chars);
    vstd::utf8::encode_utf8_decode_utf8(chars);
}

/// Valid UTF-8 that encodes ASCII characters only has one byte for each character, which
/// is its code.
pub proof fn lemma_ascii_text_bytes(bytes: Seq<u8>)
    requires
        valid_utf8(bytes),
        is_ascii_chars(decode_utf8(bytes)),
    ensures
        bytes.len() == decode_utf8(bytes).len(),
        forall|i: int| 0 <= i < bytes.len() ==> bytes[i] == decode_utf8(bytes)[i] as u8,
{
    let chars = decode_utf8(bytes);
    vstd::utf8::decode_utf8_encode_utf8(bytes);
    vstd::utf8::is_ascii_chars_encode_utf8(chars);
}

impl Data {
    /// Returns the type tag under which this data is stored on the ledger.
    pub fn tag(&self) -> (tag: TypeTag)
        ensures
            tag@ == data_type(self@),
    {
        match self {
            Data::Bytes(_) => TypeTag::byte_vector(),
            Data::Text(_) => TypeTag::string(),
        }
    }

    /// Extracts the data as bytes.
    ///
    /// Fails if the data is text rather than bytes.
    pub fn as_bytes(self) -> (bytes: Result<Vec<u8>, Error>)
        ensures
            match bytes {
                Ok(held) => bytes_in(self@) == Some(held@),
                Err(Error::GenericError(text)) => {
                    &&& bytes_in(self@) is None
                    &&& text@ == "Data is not a vector"@
                },
                Err(_) => false,
            },
    {
        match self {
            Data::Bytes(data) => Ok(data),
            Data::Text(_) => Err(Error::GenericError(String::from_str("Data is not a vector"))),
        }
    }

    /// Extracts the data as text.
    ///
    /// Fails if the data is bytes rather than text.
    pub fn as_text(self) -> (text: Result<String, Error>)
        ensures
            match text {
                Ok(held) => text_in(self@) == Some(held@),
                Err(Error::GenericError(text)) => {
                    &&& text_in(self@) is None
                    &&& text@ == "Data is not a string"@
                },
                Err(_) => false,
            },
    {
        match self {
            Data::Bytes(_) => Err(Error::GenericError(String::from_str("Data is not a string"))),
            Data::Text(data) => Ok(data),
        }
    }

    /// Reads data back from the bytes under which the ledger stores it.
    ///
    /// The bytes are taken for text only if they are valid UTF-8 and every character is
    /// printable ASCII or ASCII whitespace; otherwise they stay bytes.
    pub fn deserialize(bytes: Vec<u8>) -> (data: Data)
        ensures
            data@ == stored_data(bytes@),
    {
        let mut i: usize = 0;
        while i < bytes.len()
            invariant
                i <= bytes.len(),
                forall|k: int| 0 <= k < i ==> bytes@[k] < 128 && is_text_char(bytes@[k] as char),
            decreases bytes.len() - i,
        {
            if !is_text_byte(bytes[i]) {
                proof {
                    if reads_as_text(bytes@) {
                        let chars = decode_utf8(bytes@);
                        assert(is_ascii_chars(chars)) by {
                            assert forall|k: int| 0 <= k < chars.len() implies '\0' <= #[trigger] chars[k]
                                <= '\u{7f}' by {
                                assert(is_text_char(chars[k]));
                            }
                        }
                        lemma_ascii_text_bytes(bytes@);
                        assert(is_text_char(chars[i as int]));
                        assert(bytes@[i as int] == chars[i as int] as u8);
                        assert(false);
                    }
                }
                return Data::Bytes(bytes);
            }
            i = i + 1;
        }
        proof {
            lemma_ascii_bytes_decode(bytes@);
            assert(reads_as_text(bytes@));
        }
        match text_from_utf8(bytes) {
            Some(text) => Data::Text(text),
            None => {
                proof {
                    assert(false);
                }
                Data::Bytes(Vec::new())
            },
        }
    }
}

impl State {
    /// A copy of the state.
    pub fn duplicate(&self) -> (copy: Self)
        ensures
            copy@ == self@,
    {
        let data = match &self.data {
            Data::Bytes(bytes) => Data::Bytes(copy_bytes(bytes)),
            Data::Text(text) => Data::Text(text.clone()),
        };
        Self { data, metadata: copy_text(&self.metadata) }
    }

    /// Returns a reference to the data.
    pub fn data(&self) -> (data: &Data)
        ensures
            *data == self.data,
    {
        &self.data
    }

    /// Returns a reference to the metadata.
    pub fn metadata(&self) -> (metadata: &Option<String>)
        ensures
            *metadata == self.metadata,
    {
        &self.metadata
    }

    /// Creates a new state from raw bytes.
    ///
    /// Use this for binary data like files, images, or serialized content.
    pub fn from_bytes(data: Vec<u8>, metadata: Option<String>) -> (state: Self)
        ensures
            state@ == bytes_state(data@, text_of(metadata)),
            state.data == Data::Bytes(data),
            state.metadata == metadata,
    {
        Self { data: Data::Bytes(data), metadata }
    }

    /// Creates a new state from a string.
    ///
    /// Use this for text data like documents, JSON, or configuration.
    pub fn from_string(data: String, metadata: Option<String>) -> (state: Self)
        ensures
            state@ == text_state(data@, text_of(metadata)),
            state.data == Data::Text(data),
            state.metadata == metadata,
    {
        Self { data: Data::Text(data), metadata }
    }
}

/// Whether a state is short enough to be encoded: its data and its description.
pub open spec fn state_fits(state: StateView<DataView>) -> bool {
    &&& match state.data {
        DataView::Bytes(bytes) => bytes.len() <= MAX_SEQUENCE_LENGTH,
        DataView::Text(text) => text_fits(text),
    }
    &&& optional_text_fits(state.metadata)
}

/// The data of a state as the pure value that it travels as.
pub open spec fn data_value(data: DataView) -> PureValueView {
    match data {
        DataView::Bytes(bytes) => PureValueView::Bytes(bytes),
        DataView::Text(text) => PureValueView::Text(text),
    }
}

/// The failure that is reported for a state that cannot be encoded, if there is one: for
/// its data first, then for its description.
pub open spec fn state_failure(state: StateView<DataView>) -> Option<ErrorView> {
    if !pure_fits(data_value(state.data)) {
        Some(encoding_failure("data"@, data_value(state.data)))
    } else if !optional_text_fits(state.metadata) {
        Some(encoding_failure("metadata"@, PureValueView::OptionalText(state.metadata)))
    } else {
        None
    }
}

/// The instructions that are added for a state before its description turns out to be too
/// long: the data, where the data itself can be encoded.
pub open spec fn state_attempt(state: StateView<DataView>) -> Seq<InstructionView> {
    if pure_fits(data_value(state.data)) {
        seq![InstructionView::Pure(pure_encoding(data_value(state.data)))]
    } else {
        seq![]
    }
}

/// The instructions that make a state on the ledger, when they are added behind `base`
/// earlier instructions: the data, the description, and the call that takes both.
pub open spec fn state_plan(base: nat, package: Seq<u8>, state: StateView<DataView>) -> Seq<
    InstructionView,
> {
    match state.data {
        DataView::Bytes(bytes) => seq![
            InstructionView::Pure(byte_string(bytes)),
            InstructionView::Pure(optional_text(state.metadata)),
            call_view(
                package,
                "notarization"@,
                "new_state_from_bytes"@,
                seq![],
                seq![base, base + 1],
            ),
        ],
        DataView::Text(text) => seq![
            InstructionView::Pure(text_string(text)),
            InstructionView::Pure(optional_text(state.metadata)),
            call_view(
                package,
                "notarization"@,
                "new_state_from_string"@,
                seq![],
                seq![base, base + 1],
            ),
        ],
    }
}

impl State {
    /// Adds to `ptb` the instructions that make this state on the ledger, and returns the
    /// argument that stands for the state: the last instruction added.
    ///
    /// Fails exactly when the data or the description is too long to be encoded, with the
    /// failure of `state_failure`; the data has then been added already where the
    /// description is what failed.
    pub fn into_ptb(&self, ptb: &mut ProgrammableTransactionBuilder, package_id: ObjectID) -> (state:
        Result<Argument, Error>)
        ensures
            match state {
                Ok(argument) => {
                    &&& state_fits(self@)
                    &&& final(ptb)@ == old(ptb)@ + state_plan(old(ptb)@.len(), package_id@, self@)
                    &&& argument.position + 1 == final(ptb)@.len()
                },
                Err(error) => {
                    &&& state_failure(self@) == Some(error@)
                    &&& final(ptb)@ == old(ptb)@ + state_attempt(self@)
                },
            },
    {
        match &self.data {
            Data::Bytes(data) => state_from_bytes(ptb, data, &self.metadata, package_id),
            Data::Text(data) => state_from_string(ptb, data, &self.metadata, package_id),
        }
    }
}

/// Helper function to create a new state from bytes.
pub fn state_from_bytes(
    ptb: &mut ProgrammableTransactionBuilder,
    data: &Vec<u8>,
    metadata: &Option<String>,
    package_id: ObjectID,
) -> (state: Result<Argument, Error>)
    ensures
        match state {
            Ok(argument) => {
                &&& state_fits(bytes_state(data@, text_of(*metadata)))
                &&& final(ptb)@ == old(ptb)@ + state_plan(
                    old(ptb)@.len(),
                    package_id@,
                    bytes_state(data@, text_of(*metadata)),
                )
                &&& argument.position + 1 == final(ptb)@.len()
            },
            Err(error) => {
                &&& state_failure(bytes_state(data@, text_of(*metadata))) == Some(error@)
                &&& final(ptb)@ == old(ptb)@ + state_attempt(
                    bytes_state(data@, text_of(*metadata)),
                )
            },
        },
{
    let ghost held = bytes_state(data@, text_of(*metadata));
    let data = match ptb_pure(ptb, "data", PureValue::Bytes(data)) {
        Ok(argument) => argument,
        Err(error) => {
            assert(ptb@ =~= old(ptb)@ + state_attempt(held));
            return Err(error);
        },
    };
    let metadata = match ptb_pure(ptb, "metadata", PureValue::OptionalText(metadata)) {
        Ok(argument) => argument,
        Err(error) => {
            assert(ptb@ =~= old(ptb)@ + state_attempt(held));
            return Err(error);
        },
    };
    let arguments = vec![data, metadata];
    let types: Vec<crate::types::type_tag::TypeTag> = Vec::new();
    assert(positions(arguments@) =~= seq![old(ptb)@.len(), (old(ptb)@.len() + 1) as nat]);
    assert(tag_texts(types@) =~= Seq::<Seq<char>>::empty());
    let state = ptb.programmable_move_call(
        package_id,
        "notarization",
        "new_state_from_bytes",
        types,
        arguments,
    );
    assert(ptb@ =~= old(ptb)@ + state_plan(old(ptb)@.len(), package_id@, held));
    Ok(state)
}

/// Helper function to create a new state from a string.
pub fn state_from_string(
    ptb: &mut ProgrammableTransactionBuilder,
    data: &String,
    metadata: &Option<String>,
    package_id: ObjectID,
) -> (state: Result<Argument, Error>)
    ensures
        match state {
            Ok(argument) => {
                &&& state_fits(text_state(data@, text_of(*metadata)))
                &&& final(ptb)@ == old(ptb)@ + state_plan(
                    old(ptb)@.len(),
                    package_id@,
                    text_state(data@, text_of(*metadata)),
                )
                &&& argument.position + 1 == final(ptb)@.len()
            },
            Err(error) => {
                &&& state_failure(text_state(data@, text_of(*metadata))) == Some(error@)
                &&& final(ptb)@ == old(ptb)@ + state_attempt(
                    text_state(data@, text_of(*metadata)),
                )
            },
        },
{
    let ghost held = text_state(data@, text_of(*metadata));
    let data = match ptb_pure(ptb, "data", PureValue::Text(data)) {
        Ok(argument) => argument,
        Err(error) => {
            assert(ptb@ =~= old(ptb)@ + state_attempt(held));
            return Err(error);
        },
    };
    let metadata = match ptb_pure(ptb, "metadata", PureValue::OptionalText(metadata)) {
        Ok(argument) => argument,
        Err(error) => {
            assert(ptb@ =~= old(ptb)@ + state_attempt(held));
            return Err(error);
        },
    };
    let arguments = vec![data, metadata];
    let types: Vec<crate::types::type_tag::TypeTag> = Vec::new();
    assert(positions(arguments@) =~= seq![old(ptb)@.len(), (old(ptb)@.len() + 1) as nat]);
    assert(tag_texts(types@) =~= Seq::<Seq<char>>::empty());
    let state = ptb.programmable_move_call(
        package_id,
        "notarization",
        "new_state_from_string",
        types,
        arguments,
    );
    assert(ptb@ =~= old(ptb)@ + state_plan(old(ptb)@.len(), package_id@, held));
    Ok(state)
}

/// A state made from bytes gives the same bytes back, and no text.
pub proof fn lemma_bytes_round_trip(data: Seq<u8>, metadata: Option<Seq<char>>)
    ensures
        bytes_in(bytes_state(data, metadata).data) == Some(data),
        text_in(bytes_state(data, metadata).data) is None,
{
}

/// A state made from text gives the same text back, and no bytes.
pub proof fn lemma_text_round_trip(data: Seq<char>, metadata: Option<Seq<char>>)
    ensures
        text_in(text_state(data, metadata).data) == Some(data),
        bytes_in(text_state(data, metadata).data) is None,
{
}

} // verus!
