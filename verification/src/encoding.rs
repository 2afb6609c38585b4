//! The binary encoding of instruction arguments and of returned values.
//!
//! Values travel in BCS: integers in little-endian order, byte strings and text behind
//! their length in ULEB128, an optional value behind one byte that says whether it is
//! there. The spec functions of this module say what the encoding of a value is; the
//! encoding and decoding themselves are done by the `bcs` crate.

use crate::types::text_of;
use vstd::prelude::*;
use vstd::utf8::encode_utf8;

verus! {

/// The longest sequence that the encoding admits: 2^31 - 1 items.
pub const MAX_SEQUENCE_LENGTH: usize = 0x7fff_ffff;

/// The ULEB128 digits of a number: seven bits in each byte, lowest first, the high bit
/// set in every byte but the last.
pub open spec fn uleb128(n: nat) -> Seq<u8>
    decreases n,
{
    if n < 128 {
        seq![n as u8]
    } else {
        seq![(n % 128 + 128) as u8] + uleb128(n / 128)
    }
}

/// The bytes of a number in little-endian order, `width` of them.
pub open spec fn le_bytes(value: nat, width: nat) -> Seq<u8>
    decreases width,
{
    if width == 0 {
        seq![]
    } else {
        seq![(value % 256) as u8] + le_bytes(value / 256, (width - 1) as nat)
    }
}

/// The number that bytes in little-endian order stand for.
pub open spec fn le_value(bytes: Seq<u8>) -> nat
    decreases bytes.len(),
{
    if bytes.len() == 0 {
        0
    } else {
        bytes[0] as nat + 256 * le_value(bytes.drop_first())
    }
}

/// The encoding of a byte string: its length, then its bytes.
pub open spec fn byte_string(bytes: Seq<u8>) -> Seq<u8> {
    uleb128(bytes.len()) + bytes
}

/// The encoding of a text: the byte string of its UTF-8 form.
pub open spec fn text_string(text: Seq<char>) -> Seq<u8> {
    byte_string(encode_utf8(text))
}

/// The encoding of an optional text: a zero byte for none, else a one and the text.
pub open spec fn optional_text(text: Option<Seq<char>>) -> Seq<u8> {
    match text {
        None => seq![0u8],
        Some(held) => seq![1u8] + text_string(held),
    }
}

/// Whether a text is short enough to be encoded.
pub open spec fn text_fits(text: Seq<char>) -> bool {
    encode_utf8(text).len() <= MAX_SEQUENCE_LENGTH
}

/// The words with which the encoder refuses an optional text that is too long. An absent
/// text is never refused.
pub open spec fn optional_text_refusal(text: Option<Seq<char>>) -> Seq<char> {
    match text {
        None => seq![],
        Some(held) => length_refusal(encode_utf8(held).len()),
    }
}

/// Whether an optional text is short enough to be encoded.
pub open spec fn optional_text_fits(text: Option<Seq<char>>) -> bool {
    match text {
        None => true,
        Some(held) => text_fits(held),
    }
}

/// The encoding of a pair of a byte string and an optional text.
pub open spec fn bytes_with_text(bytes: Seq<u8>, text: Option<Seq<char>>) -> Seq<u8> {
    byte_string(bytes) + optional_text(text)
}

/// The encoding of a pair of a text and an optional text.
pub open spec fn text_with_text(first: Seq<char>, second: Option<Seq<char>>) -> Seq<u8> {
    text_string(first) + optional_text(second)
}

/// The decimal digit of a number below ten.
pub open spec fn decimal_digit(digit: nat) -> char {
    if digit == 0 {
        '0'
    } else if digit == 1 {
        '1'
    } else if digit == 2 {
        '2'
    } else if digit == 3 {
        '3'
    } else if digit == 4 {
        '4'
    } else if digit == 5 {
        '5'
    } else if digit == 6 {
        '6'
    } else if digit == 7 {
        '7'
    } else if digit == 8 {
        '8'
    } else {
        '9'
    }
}

/// A number in decimal, without leading zeros.
pub open spec fn decimal(number: nat) -> Seq<char>
    decreases number,
{
    if number < 10 {
        seq![decimal_digit(number)]
    } else {
        decimal(number / 10).push(decimal_digit(number % 10))
    }
}

/// The words with which the encoder refuses a sequence of the given length, which is
/// longer than the encoding admits.
pub open spec fn length_refusal(length: nat) -> Seq<char> {
    "exceeded max sequence length: "@ + decimal(length)
}

/// The numbers of a byte sequence in decimal, with a comma and a space between them.
pub open spec fn listed(bytes: Seq<u8>) -> Seq<char>
    decreases bytes.len(),
{
    if bytes.len() == 0 {
        seq![]
    } else if bytes.len() == 1 {
        decimal(bytes[0] as nat)
    } else {
        listed(bytes.drop_last()) + ", "@ + decimal(bytes.last() as nat)
    }
}

/// The `Debug` form of a byte vector: its numbers listed in square brackets.
pub open spec fn debug_form_of_bytes(bytes: Seq<u8>) -> Seq<char> {
    "["@ + listed(bytes) + "]"@
}

/// The `Debug` form of a string: the text in double quotes, with the characters escaped
/// that the language escapes in a string literal.
pub uninterp spec fn debug_form_of_text(text: Seq<char>) -> Seq<char>;

/// The `Debug` form of an optional string.
pub open spec fn debug_form_of_optional_text(text: Option<Seq<char>>) -> Seq<char> {
    match text {
        None => "None"@,
        Some(held) => "Some("@ + debug_form_of_text(held) + ")"@,
    }
}

/// `bcs::to_bytes` on a byte vector: the length of the vector in ULEB128 and then its
/// bytes; when the vector is longer than the encoding admits, the words of the crate's
/// error, which give the length.
#[verifier::external_body]
pub(crate) fn encode_bytes(value: &Vec<u8>) -> (encoded: Result<Vec<u8>, String>)
    ensures
        encoded is Ok <==> value@.len() <= MAX_SEQUENCE_LENGTH,
        encoded matches Ok(out) ==> out@ == byte_string(value@),
        encoded matches Err(words) ==> words@ == length_refusal(value@.len()),
{
    match bcs::to_bytes(value) {
        Ok(done) => Ok(done),
        Err(error) => Err(error.to_string()),
    }
}

/// `bcs::to_bytes` on a string: the length of its UTF-8 form in ULEB128 and then that
/// form; when that form is longer than the encoding admits, the words of the crate's
/// error, which give its length.
#[verifier::external_body]
pub(crate) fn encode_text(value: &String) -> (encoded: Result<Vec<u8>, String>)
    ensures
        encoded is Ok <==> text_fits(value@),
        encoded matches Ok(out) ==> out@ == text_string(value@),
        encoded matches Err(words) ==> words@ == length_refusal(encode_utf8(value@).len()),
{
    match bcs::to_bytes(value) {
        Ok(done) => Ok(done),
        Err(error) => Err(error.to_string()),
    }
}

/// `bcs::to_bytes` on an optional string: a zero byte for none; a one and then the
/// encoding of the string for some; when the string is longer than the encoding admits,
/// the words of the crate's error, which give the length of its UTF-8 form.
#[verifier::external_body]
pub(crate) fn encode_optional_text(value: &Option<String>) -> (encoded: Result<Vec<u8>, String>)
    ensures
        encoded is Ok <==> optional_text_fits(text_of(*value)),
        encoded matches Ok(out) ==> out@ == optional_text(text_of(*value)),
        encoded matches Err(words) ==> words@ == optional_text_refusal(text_of(*value)),
{
    match bcs::to_bytes(value) {
        Ok(done) => Ok(done),
        Err(error) => Err(error.to_string()),
    }
}

/// `bcs::to_bytes` on a `u32`: its four bytes in little-endian order. It does not fail.
#[verifier::external_body]
pub(crate) fn encode_u32(value: u32) -> (encoded: Result<Vec<u8>, String>)
    ensures
        encoded is Ok,
        encoded matches Ok(out) ==> out@ == le_bytes(value as nat, 4),
{
    match bcs::to_bytes(&value) {
        Ok(done) => Ok(done),
        Err(error) => Err(error.to_string()),
    }
}

/// The words with which the decoder refuses bytes that are not the eight bytes of a
/// 64-bit number: too few bytes end the input early, too many are left over.
pub open spec fn u64_refusal(bytes: Seq<u8>) -> Seq<char> {
    if bytes.len() < 8 {
        "unexpected end of input"@
    } else {
        "remaining input"@
    }
}

/// The words with which the decoder refuses bytes that are not the one byte of a truth
/// value.
pub open spec fn bool_refusal(bytes: Seq<u8>) -> Seq<char> {
    if bytes.len() == 0 {
        "unexpected end of input"@
    } else if bytes[0] > 1 {
        "expected boolean"@
    } else {
        "remaining input"@
    }
}

/// The words with which the decoder refuses bytes that are not the encoding of an
/// optional string.
pub uninterp spec fn optional_text_decode_refusal(bytes: Seq<u8>) -> Seq<char>;

/// The words with which the decoder refuses bytes that are not the encoding of a pair of
/// a byte vector and an optional string.
pub uninterp spec fn bytes_with_text_refusal(bytes: Seq<u8>) -> Seq<char>;

/// The words with which the decoder refuses bytes that are not the encoding of a pair of
/// a string and an optional string.
pub uninterp spec fn text_with_text_refusal(bytes: Seq<u8>) -> Seq<char>;

/// `bcs::from_bytes` for a `u64`: the number that exactly eight bytes stand for in
/// little-endian order; on any other length the words of the crate's error, which say
/// whether bytes were missing or left over.
#[verifier::external_body]
pub(crate) fn decode_u64(bytes: &[u8]) -> (decoded: Result<u64, String>)
    ensures
        decoded is Ok <==> bytes@.len() == 8,
        decoded matches Ok(value) ==> value as nat == le_value(bytes@),
        decoded matches Err(words) ==> words@ == u64_refusal(bytes@),
{
    match bcs::from_bytes::<u64>(bytes) {
        Ok(done) => Ok(done),
        Err(error) => Err(error.to_string()),
    }
}

/// `bcs::from_bytes` for a `bool`: false for the single byte zero, true for the single
/// byte one; on anything else the words of the crate's error, which say whether the byte
/// was missing, was no truth value, or was followed by more.
#[verifier::external_body]
pub(crate) fn decode_bool(bytes: &[u8]) -> (decoded: Result<bool, String>)
    ensures
        decoded is Ok <==> (bytes@.len() == 1 && bytes@[0] <= 1),
        decoded matches Ok(value) ==> value == (bytes@[0] == 1),
        decoded matches Err(words) ==> words@ == bool_refusal(bytes@),
{
    match bcs::from_bytes::<bool>(bytes) {
        Ok(done) => Ok(done),
        Err(error) => Err(error.to_string()),
    }
}

/// `bcs::from_bytes` for an optional string: the one value whose encoding the bytes are;
/// when they are the encoding of none, the words of the crate's error, which are given
/// their name here.
#[verifier::external_body]
pub(crate) fn decode_optional_text(bytes: &[u8]) -> (decoded: Result<Option<String>, String>)
    ensures
        decoded matches Ok(value) ==> {
            &&& optional_text_fits(text_of(value))
            &&& bytes@ == optional_text(text_of(value))
        },
        decoded is Err ==> forall|value: Option<Seq<char>>|
            optional_text_fits(value) ==> bytes@ != #[trigger] optional_text(value),
        decoded matches Err(words) ==> words@ == optional_text_decode_refusal(bytes@),
{
    match bcs::from_bytes::<Option<String>>(bytes) {
        Ok(done) => Ok(done),
        Err(error) => Err(error.to_string()),
    }
}

/// `bcs::from_bytes` for a pair of a byte vector and an optional string: the one pair
/// whose encoding the bytes are; when they are the encoding of none, the words of the
/// crate's error, which are given their name here.
#[verifier::external_body]
pub(crate) fn decode_bytes_with_text(bytes: &[u8]) -> (decoded: Result<(Vec<u8>, Option<String>), String>)
    ensures
        decoded matches Ok(value) ==> {
            &&& value.0@.len() <= MAX_SEQUENCE_LENGTH
            &&& optional_text_fits(text_of(value.1))
            &&& bytes@ == bytes_with_text(value.0@, text_of(value.1))
        },
        decoded is Err ==> forall|first: Seq<u8>, second: Option<Seq<char>>|
            first.len() <= MAX_SEQUENCE_LENGTH && optional_text_fits(second) ==> bytes@
                != #[trigger] bytes_with_text(first, second),
        decoded matches Err(words) ==> words@ == bytes_with_text_refusal(bytes@),
{
    match bcs::from_bytes::<(Vec<u8>, Option<String>)>(bytes) {
        Ok(done) => Ok(done),
        Err(error) => Err(error.to_string()),
    }
}

/// `bcs::from_bytes` for a pair of a string and an optional string: the one pair whose
/// encoding the bytes are; when they are the encoding of none, the words of the crate's
/// error, which are given their name here.
#[verifier::external_body]
pub(crate) fn decode_text_with_text(bytes: &[u8]) -> (decoded: Result<(String, Option<String>), String>)
    ensures
        decoded matches Ok(value) ==> {
            &&& text_fits(value.0@)
            &&& optional_text_fits(text_of(value.1))
            &&& bytes@ == text_with_text(value.0@, text_of(value.1))
        },
        decoded is Err ==> forall|first: Seq<char>, second: Option<Seq<char>>|
            text_fits(first) && optional_text_fits(second) ==> bytes@ != #[trigger] text_with_text(
                first,
                second,
            ),
        decoded matches Err(words) ==> words@ == text_with_text_refusal(bytes@),
{
    match bcs::from_bytes::<(String, Option<String>)>(bytes) {
        Ok(done) => Ok(done),
        Err(error) => Err(error.to_string()),
    }
}

/// `format!` with the `Debug` form of a byte vector: its numbers in decimal, listed in
/// square brackets with a comma and a space between them.
#[verifier::external_body]
pub(crate) fn debug_bytes(value: &Vec<u8>) -> (text: String)
    ensures
        text@ == debug_form_of_bytes(value@),
{
    format!("{value:?}")
}

/// `format!` with the `Debug` form of a string, which is given its name here.
#[verifier::external_body]
pub(crate) fn debug_text(value: &String) -> (text: String)
    ensures
        text@ == debug_form_of_text(value@),
{
    format!("{value:?}")
}

/// `format!` with the `Debug` form of an optional string: `None`, or `Some` with the
/// `Debug` form of the string in round brackets.
#[verifier::external_body]
pub(crate) fn debug_optional_text(value: &Option<String>) -> (text: String)
    ensures
        text@ == debug_form_of_optional_text(text_of(*value)),
{
    format!("{value:?}")
}

/// `format!` with the `Debug` form of a `u32`: the number in decimal.
#[verifier::external_body]
pub(crate) fn debug_number(value: u32) -> (text: String)
    ensures
        text@ == decimal(value as nat),
{
    format!("{value:?}")
}

/// Little-endian bytes of a number that fits their width stand for that number.
pub proof fn lemma_le_round_trip(value: nat, width: nat)
    requires
        value < vstd::arithmetic::power::pow(256, width),
    ensures
        le_bytes(value, width).len() == width,
        le_value(le_bytes(value, width)) == value,
    decreases width,
{
    vstd::arithmetic::power::lemma_pow0(256);
    if width == 0 {
        assert(le_bytes(value, width) =~= Seq::<u8>::empty());
    } else {
        let rest = (width - 1) as nat;
        vstd::arithmetic::power::lemma_pow_adds(256, 1, rest);
        vstd::arithmetic::power::lemma_pow1(256);
        assert(vstd::arithmetic::power::pow(256, width) == 256 * vstd::arithmetic::power::pow(
            256,
            rest,
        ));
        assert(value / 256 < vstd::arithmetic::power::pow(256, rest)) by (nonlinear_arith)
            requires
                value < 256 * vstd::arithmetic::power::pow(256, rest),
        ;
        lemma_le_round_trip(value / 256, rest);
        let tail = le_bytes(value / 256, rest);
        let whole = le_bytes(value, width);
        assert(whole.drop_first() =~= tail);
        assert(whole[0] == (value % 256) as u8);
    }
}

} // verus!
