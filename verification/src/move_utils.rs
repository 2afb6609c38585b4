//! Helpers for building instructions and for reading what the ledger tells of an object.

use crate::encoding::debug_bytes;
use crate::encoding::debug_form_of_bytes;
use crate::encoding::debug_form_of_optional_text;
use crate::encoding::debug_form_of_text;
use crate::encoding::debug_number;
use crate::encoding::decimal;
use crate::encoding::length_refusal;
use crate::encoding::optional_text_refusal;
use crate::encoding::debug_optional_text;
use crate::encoding::debug_text;
use crate::encoding::encode_bytes;
use crate::encoding::encode_optional_text;
use crate::encoding::encode_text;
use crate::encoding::encode_u32;
use crate::encoding::byte_string;
use crate::encoding::le_bytes;
use crate::encoding::optional_text;
use crate::encoding::optional_text_fits;
use crate::encoding::text_fits;
use crate::encoding::text_string;
use crate::encoding::MAX_SEQUENCE_LENGTH;
use crate::error::failure;
use crate::error::Error;
use crate::error::ErrorKind;
use crate::error::ErrorView;
use crate::programmable::Argument;
use crate::programmable::InstructionView;
use crate::programmable::ProgrammableTransactionBuilder;
use crate::types::object::hex_literal;
use crate::types::object::ObjectID;
use crate::types::object::ObjectRef;
use crate::types::text_of;
use crate::types::type_tag::TypeTag;
use vstd::prelude::*;
use vstd::utf8::encode_utf8;
use vstd::string::StrSliceExecFns;
use vstd::string::StringExecFns;

verus! {

/// Adds a reference to the on-chain clock to `ptb`'s arguments.
pub fn get_clock_ref(ptb: &mut ProgrammableTransactionBuilder) -> (clock: Argument)
    ensures
        final(ptb)@ == old(ptb)@.push(InstructionView::Clock),
        clock.position == old(ptb)@.len(),
{
    ptb.clock()
}

/// A value that travels as a pure argument of a call.
pub enum PureValue<'a> {
    /// A byte string.
    Bytes(&'a Vec<u8>),
    /// A text.
    Text(&'a String),
    /// A text that may be absent.
    OptionalText(&'a Option<String>),
    /// A 32-bit number.
    Number(u32),
}

/// What a `PureValue` holds.
pub enum PureValueView {
    Bytes(Seq<u8>),
    Text(Seq<char>),
    OptionalText(Option<Seq<char>>),
    Number(u32),
}

impl<'a> View for PureValue<'a> {
    type V = PureValueView;

    open spec fn view(&self) -> PureValueView {
        match self {
            PureValue::Bytes(bytes) => PureValueView::Bytes(bytes@),
            PureValue::Text(text) => PureValueView::Text(text@),
            PureValue::OptionalText(text) => PureValueView::OptionalText(text_of(**text)),
            PureValue::Number(number) => PureValueView::Number(*number),
        }
    }
}

/// Whether a pure value is short enough to be encoded.
pub open spec fn pure_fits(value: PureValueView) -> bool {
    match value {
        PureValueView::Bytes(bytes) => bytes.len() <= MAX_SEQUENCE_LENGTH,
        PureValueView::Text(text) => text_fits(text),
        PureValueView::OptionalText(text) => optional_text_fits(text),
        PureValueView::Number(_) => true,
    }
}

/// The binary encoding of a pure value.
pub open spec fn pure_encoding(value: PureValueView) -> Seq<u8> {
    match value {
        PureValueView::Bytes(bytes) => byte_string(bytes),
        PureValueView::Text(text) => text_string(text),
        PureValueView::OptionalText(text) => optional_text(text),
        PureValueView::Number(number) => le_bytes(number as nat, 4),
    }
}

/// The words with which the encoder refuses a pure value that is too long. A number is
/// never refused.
pub open spec fn pure_refusal(value: PureValueView) -> Seq<char> {
    match value {
        PureValueView::Bytes(bytes) => length_refusal(bytes.len()),
        PureValueView::Text(text) => length_refusal(encode_utf8(text).len()),
        PureValueView::OptionalText(text) => optional_text_refusal(text),
        PureValueView::Number(_) => seq![],
    }
}

/// The `Debug` form of a pure value.
pub open spec fn pure_debug_form(value: PureValueView) -> Seq<char> {
    match value {
        PureValueView::Bytes(bytes) => debug_form_of_bytes(bytes),
        PureValueView::Text(text) => debug_form_of_text(text),
        PureValueView::OptionalText(text) => debug_form_of_optional_text(text),
        PureValueView::Number(number) => decimal(number as nat),
    }
}

/// The message that reports a pure value which could not be encoded: it names the
/// argument, shows the value in its `Debug` form and ends with the encoder's words.
pub open spec fn encoding_failure_text(name: Seq<char>, value: PureValueView) -> Seq<char> {
    "could not serialize pure value "@ + name + " with value "@ + pure_debug_form(value) + "; "@
        + pure_refusal(value)
}

/// The failure that is reported for a pure value which could not be encoded.
pub open spec fn encoding_failure(name: Seq<char>, value: PureValueView) -> ErrorView {
    failure(ErrorKind::InvalidArgument, encoding_failure_text(name, value))
}

/// Encodes a pure value.
///
/// Fails exactly when the value is too long to be encoded, with the encoder's words.
pub fn encode_pure(value: &PureValue) -> (encoded: Result<Vec<u8>, String>)
    ensures
        match encoded {
            Ok(bytes) => pure_fits(value@) && bytes@ == pure_encoding(value@),
            Err(words) => !pure_fits(value@) && words@ == pure_refusal(value@),
        },
{
    match value {
        PureValue::Bytes(bytes) => encode_bytes(bytes),
        PureValue::Text(text) => encode_text(text),
        PureValue::OptionalText(text) => encode_optional_text(text),
        PureValue::Number(number) => encode_u32(*number),
    }
}

/// Shows a pure value in its `Debug` form.
pub fn debug_form(value: &PureValue) -> (text: String)
    ensures
        text@ == pure_debug_form(value@),
{
    match value {
        PureValue::Bytes(bytes) => debug_bytes(bytes),
        PureValue::Text(text) => debug_text(text),
        PureValue::OptionalText(text) => debug_optional_text(text),
        PureValue::Number(number) => debug_number(*number),
    }
}

/// Encodes `value` and adds it to `ptb` as a pure argument.
///
/// Fails exactly when the value is too long to be encoded; the message then names the
/// argument and shows the value and the encoder's own words, and nothing is added.
pub fn ptb_pure(ptb: &mut ProgrammableTransactionBuilder, name: &str, value: PureValue) -> (added:
    Result<Argument, Error>)
    ensures
        match added {
            Ok(argument) => {
                &&& pure_fits(value@)
                &&& final(ptb)@ == old(ptb)@.push(InstructionView::Pure(pure_encoding(value@)))
                &&& argument.position == old(ptb)@.len()
            },
            Err(error) => {
                &&& !pure_fits(value@)
                &&& final(ptb)@ == old(ptb)@
                &&& error@ == encoding_failure(name@, value@)
            },
        },
{
    match encode_pure(&value) {
        Ok(bytes) => Ok(ptb.pure_bytes(bytes)),
        Err(words) => {
            let shown = debug_form(&value);
            let text = String::from_str("could not serialize pure value ").concat(name).concat(
                " with value ",
            ).concat(shown.as_str()).concat("; ").concat(words.as_str());
            Err(Error::InvalidArgument(text))
        },
    }
}

/// The generic argument of a type: what stands between the first `<` and the last `>` of
/// its text, when the first `<` comes before the last `>`.
pub open spec fn type_parameter(full_type: Seq<char>) -> Option<Seq<char>> {
    match (full_type.index_of_first('<'), full_type.index_of_last('>')) {
        (Some(start), Some(end)) => if start < end {
            Some(full_type.subrange(start + 1, end))
        } else {
            None
        },
        _ => None,
    }
}

/// How the message starts that reports a type without a generic argument.
pub open spec fn no_parameter_head() -> Seq<char> {
    "Could not parse type parameter from "@
}

/// Parses the type string to get the generic argument.
///
/// For `0x123::notarization::Notarization<vector<u8>>` this is `vector<u8>`. Fails when
/// the text holds no `<` that is followed, anywhere behind it, by a `>`.
pub fn parse_type(full_type: &str) -> (parameter: Result<String, Error>)
    ensures
        match parameter {
            Ok(found) => type_parameter(full_type@) == Some(found@),
            Err(Error::FailedToParseTag(text)) => {
                &&& type_parameter(full_type@) is None
                &&& text@ == no_parameter_head() + full_type@
            },
            Err(_) => false,
        },
{
    let length: usize = full_type.unicode_len();
    let mut start: Option<usize> = None;
    let mut end: Option<usize> = None;
    let mut index: usize = 0;
    for c in chars: full_type.chars()
        invariant
            chars.seq() == full_type@,
            index == chars.index(),
            length == full_type@.len(),
            match start {
                Some(s) => s < index && full_type@[s as int] == '<' && forall|j: int|
                    0 <= j < s ==> full_type@[j] != '<',
                None => forall|j: int| 0 <= j < index ==> full_type@[j] != '<',
            },
            match end {
                Some(e) => e < index && full_type@[e as int] == '>' && forall|j: int|
                    e < j < index ==> full_type@[j] != '>',
                None => forall|j: int| 0 <= j < index ==> full_type@[j] != '>',
            },
    {
        if c == '<' && start.is_none() {
            start = Some(index);
        }
        if c == '>' {
            end = Some(index);
        }
        index = index + 1;
    }
    proof {
        full_type@.index_of_first_ensures('<');
        full_type@.index_of_last_ensures('>');
    }
    match (start, end) {
        (Some(s), Some(e)) => {
            if s < e {
                Ok(String::from_str(full_type.substring_char(s + 1, e)))
            } else {
                Err(Error::FailedToParseTag(
                    String::from_str("Could not parse type parameter from ").concat(full_type),
                ))
            }
        },
        _ => Err(
            Error::FailedToParseTag(
                String::from_str("Could not parse type parameter from ").concat(full_type),
            ),
        ),
    }
}

/// What the ledger answers when it is asked for the type of an object.
#[derive(Debug, Clone, PartialEq, Eq)]
pub enum TypeLookup {
    /// The request failed; the client's words are held.
    Failed(String),
    /// The ledger holds no data of the object.
    Missing,
    /// The data does not tell the object's type; the client's words are held.
    Untyped(String),
    /// The object's type in full.
    Typed(String),
}

/// What the ledger answers when it is asked for the current reference of an object.
#[derive(Debug, Clone, PartialEq, Eq)]
pub enum RefLookup {
    /// The request failed; the client's words are held.
    Failed(String),
    /// The ledger holds no data of the object.
    Missing,
    /// The object's current reference.
    Found(ObjectRef),
}

/// The generic argument of the type that a lookup tells, or the failure that is reported
/// in its place.
pub open spec fn looked_up_parameter(object_id: Seq<u8>, lookup: TypeLookup) -> Result<
    Seq<char>,
    ErrorView,
> {
    match lookup {
        TypeLookup::Failed(words) => Err(
            failure(ErrorKind::FailedToParseTag, "Failed to get object: "@ + words@),
        ),
        TypeLookup::Missing => Err(
            failure(
                ErrorKind::FailedToParseTag,
                "Object "@ + hex_literal(object_id) + " not found"@,
            ),
        ),
        TypeLookup::Untyped(words) => Err(
            failure(ErrorKind::FailedToParseTag, "Failed to get object type: "@ + words@),
        ),
        TypeLookup::Typed(full_type) => match type_parameter(full_type@) {
            Some(parameter) => Ok(parameter),
            None => Err(
                failure(ErrorKind::FailedToParseTag, no_parameter_head() + full_type@),
            ),
        },
    }
}

/// Get the generic argument of the type of an object from what the ledger answered when
/// asked for that type.
pub fn get_type_tag(object_id: &ObjectID, lookup: TypeLookup) -> (parameter: Result<String, Error>)
    ensures
        match parameter {
            Ok(found) => looked_up_parameter(object_id@, lookup) == Ok::<Seq<char>, ErrorView>(
                found@,
            ),
            Err(error) => looked_up_parameter(object_id@, lookup) == Err::<Seq<char>, ErrorView>(
                error@,
            ),
        },
{
    match lookup {
        TypeLookup::Failed(words) => Err(
            Error::FailedToParseTag(String::from_str("Failed to get object: ").concat(words.as_str())),
        ),
        TypeLookup::Missing => Err(
            Error::FailedToParseTag(
                String::from_str("Object ").concat(object_id.to_hex_literal().as_str()).concat(
                    " not found",
                ),
            ),
        ),
        TypeLookup::Untyped(words) => Err(
            Error::FailedToParseTag(
                String::from_str("Failed to get object type: ").concat(words.as_str()),
            ),
        ),
        TypeLookup::Typed(full_type) => parse_type(full_type.as_str()),
    }
}

/// The type tag that the ledger's own reading of a type's text gives, or the failure that
/// is reported when that reading failed with the words `refusal`.
pub open spec fn read_tag(parameter: Seq<char>, reading: Result<String, String>) -> Result<
    Seq<char>,
    ErrorView,
> {
    match reading {
        Ok(canonical) => Ok(canonical@),
        Err(refusal) => Err(
            failure(
                ErrorKind::FailedToParseTag,
                "Failed to parse tag '"@ + parameter + "': "@ + refusal@,
            ),
        ),
    }
}

/// Makes the type tag of an object from the generic argument `parameter` of its type and
/// from the outcome of reading that argument as a type: the type's canonical text, or the
/// reader's words of refusal.
pub fn parsed_type_tag(parameter: &str, reading: Result<String, String>) -> (tag: Result<
    TypeTag,
    Error,
>)
    ensures
        match tag {
            Ok(made) => read_tag(parameter@, reading) == Ok::<Seq<char>, ErrorView>(made@),
            Err(error) => read_tag(parameter@, reading) == Err::<Seq<char>, ErrorView>(error@),
        },
{
    match reading {
        Ok(canonical) => Ok(TypeTag::new(canonical)),
        Err(refusal) => Err(
            Error::FailedToParseTag(
                String::from_str("Failed to parse tag '").concat(parameter).concat("': ").concat(
                    refusal.as_str(),
                ),
            ),
        ),
    }
}

/// The reference that a lookup found, or the failure that is reported in its place.
pub open spec fn looked_up_ref(lookup: RefLookup) -> Result<ObjectRef, ErrorView> {
    match lookup {
        RefLookup::Failed(words) => Err(
            failure(ErrorKind::ObjectLookup, "Failed to get object: "@ + words@),
        ),
        RefLookup::Missing => Err(failure(ErrorKind::ObjectLookup, "no data found"@)),
        RefLookup::Found(reference) => Ok(reference),
    }
}

/// Get the current reference of an object from what the ledger answered when asked for
/// the object.
///
/// A request that failed and an answer without data are both reported as an object
/// lookup that failed; no reference is made up in their place.
pub fn get_object_ref_by_id(lookup: RefLookup) -> (reference: Result<ObjectRef, Error>)
    ensures
        match reference {
            Ok(found) => looked_up_ref(lookup) == Ok::<ObjectRef, ErrorView>(found),
            Err(error) => looked_up_ref(lookup) == Err::<ObjectRef, ErrorView>(error@),
        },
{
    match lookup {
        RefLookup::Failed(words) => Err(
            Error::ObjectLookup(String::from_str("Failed to get object: ").concat(words.as_str())),
        ),
        RefLookup::Missing => Err(Error::ObjectLookup(String::from_str("no data found"))),
        RefLookup::Found(reference) => Ok(reference),
    }
}

} // verus!
