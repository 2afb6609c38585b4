use notarization::error::Error;
use notarization::move_utils::debug_form;
use notarization::move_utils::encode_pure;
use notarization::move_utils::get_clock_ref;
use notarization::move_utils::get_object_ref_by_id;
use notarization::move_utils::get_type_tag;
use notarization::move_utils::parse_type;
use notarization::move_utils::parsed_type_tag;
use notarization::move_utils::ptb_pure;
use notarization::move_utils::PureValue;
use notarization::move_utils::RefLookup;
use notarization::move_utils::TypeLookup;
use notarization::programmable::Instruction;
use notarization::programmable::ProgrammableTransactionBuilder;
use notarization::types::object::ObjectID;
use notarization::types::object::ObjectRef;

#[test]
fn test_parse_type() {
    let full_type = "0x123::notarization::Notarization<vector<u8>>";
    let type_param_str = parse_type(full_type).unwrap();
    assert_eq!(type_param_str, "vector<u8>");
}

#[test]
fn test_parse_type_invalid() {
    let full_type = "0x123::notarization::Notarization";
    let type_param_str = parse_type(full_type);
    assert!(type_param_str.is_err());
}

#[test]
fn test_parse_type_nested_generics() {
    let full_type = "0x123::notarization::Complex<Option<vector<u8>>>";
    let type_param_str = parse_type(full_type).unwrap();
    assert_eq!(type_param_str, "Option<vector<u8>>");
}

#[test]
fn test_parse_type_multiple_generics() {
    let full_type = "0x123::notarization::Pair<u8, vector<u8>>";
    let type_param_str = parse_type(full_type).unwrap();
    assert_eq!(type_param_str, "u8, vector<u8>");
}

#[test]
fn test_parse_type_empty_generics() {
    let full_type = "0x123::notarization::Empty<>";
    let type_param_str = parse_type(full_type).unwrap();
    assert_eq!(type_param_str, "");
}

#[test]
fn parse_type_of_the_documented_examples() {
    assert_eq!(parse_type("pkg::mod::T<vector<u8>>").unwrap(), "vector<u8>");
    assert_eq!(parse_type("pkg::mod::T<A<B>>").unwrap(), "A<B>");
    assert_eq!(parse_type("pkg::mod::T<u8, vector<u8>>").unwrap(), "u8, vector<u8>");
    assert_eq!(parse_type("pkg::mod::T<>").unwrap(), "");
    assert!(parse_type("pkg::mod::T").is_err());
}

#[test]
fn parse_type_reports_the_text_it_could_not_parse() {
    let failed = parse_type("0x1::m::T").unwrap_err();
    assert_eq!(
        failed,
        Error::FailedToParseTag("Could not parse type parameter from 0x1::m::T".to_string())
    );
    assert_eq!(
        failed.message(),
        "Failed to parse tag: Could not parse type parameter from 0x1::m::T"
    );
}

#[test]
fn parse_type_needs_both_brackets_in_order() {
    assert!(parse_type("only<open").is_err());
    assert!(parse_type("only>close").is_err());
    assert!(parse_type("a>b<c").is_err());
    assert!(parse_type("").is_err());
    assert_eq!(parse_type("<>").unwrap(), "");
    assert_eq!(parse_type("a<b>c>d").unwrap(), "b>c");
    assert_eq!(parse_type("a<b<c>").unwrap(), "b<c");
}

#[test]
fn parse_type_counts_characters_not_bytes() {
    assert_eq!(parse_type("é<ü>ß").unwrap(), "ü");
    assert_eq!(parse_type("日本<語>").unwrap(), "語");
}

#[test]
fn clock_and_pure_values_are_added_in_order() {
    let mut ptb = ProgrammableTransactionBuilder::new();
    let clock = get_clock_ref(&mut ptb);
    assert_eq!(clock.position, 0);
    let data = vec![1u8, 2, 3];
    let bytes = ptb_pure(&mut ptb, "data", PureValue::Bytes(&data)).unwrap();
    assert_eq!(bytes.position, 1);
    let text = "hé".to_string();
    let text_arg = ptb_pure(&mut ptb, "text", PureValue::Text(&text)).unwrap();
    assert_eq!(text_arg.position, 2);
    let none: Option<String> = None;
    ptb_pure(&mut ptb, "none", PureValue::OptionalText(&none)).unwrap();
    let some = Some("ab".to_string());
    ptb_pure(&mut ptb, "some", PureValue::OptionalText(&some)).unwrap();
    ptb_pure(&mut ptb, "number", PureValue::Number(0x0102_0304)).unwrap();
    let transaction = ptb.finish();
    assert_eq!(
        transaction.instructions,
        vec![
            Instruction::Clock,
            Instruction::Pure(vec![3, 1, 2, 3]),
            Instruction::Pure(vec![3, b'h', 0xc3, 0xa9]),
            Instruction::Pure(vec![0]),
            Instruction::Pure(vec![1, 2, b'a', b'b']),
            Instruction::Pure(vec![4, 3, 2, 1]),
        ]
    );
}

#[test]
fn pure_values_are_encoded_as_bcs_encodes_them() {
    let long = vec![7u8; 300];
    let text = "x".repeat(200);
    let some = Some("y".repeat(130));
    let mut ptb = ProgrammableTransactionBuilder::new();
    ptb_pure(&mut ptb, "long", PureValue::Bytes(&long)).unwrap();
    ptb_pure(&mut ptb, "text", PureValue::Text(&text)).unwrap();
    ptb_pure(&mut ptb, "some", PureValue::OptionalText(&some)).unwrap();
    ptb_pure(&mut ptb, "number", PureValue::Number(u32::MAX)).unwrap();
    let transaction = ptb.finish();
    let mut expected_long = vec![0xac, 0x02];
    expected_long.extend_from_slice(&long);
    assert_eq!(transaction.instructions[0], Instruction::Pure(expected_long));
    assert_eq!(
        transaction.instructions[1],
        Instruction::Pure(bcs::to_bytes(&text).unwrap())
    );
    assert_eq!(
        transaction.instructions[2],
        Instruction::Pure(bcs::to_bytes(&some).unwrap())
    );
    assert_eq!(
        transaction.instructions[3],
        Instruction::Pure(vec![0xff, 0xff, 0xff, 0xff])
    );
}

fn some_id() -> ObjectID {
    let mut bytes = [0u8; 32];
    bytes[0] = 0xab;
    bytes[31] = 0x01;
    ObjectID::new(bytes)
}

#[test]
fn type_lookup_failures_are_reported_as_tag_failures() {
    let id = some_id();
    assert_eq!(
        get_type_tag(&id, TypeLookup::Failed("timeout".to_string())),
        Err(Error::FailedToParseTag("Failed to get object: timeout".to_string()))
    );
    assert_eq!(
        get_type_tag(&id, TypeLookup::Missing),
        Err(Error::FailedToParseTag(
            "Object 0xab00000000000000000000000000000000000000000000000000000000000001 not found"
                .to_string()
        ))
    );
    assert_eq!(
        get_type_tag(&id, TypeLookup::Untyped("package".to_string())),
        Err(Error::FailedToParseTag("Failed to get object type: package".to_string()))
    );
    assert_eq!(
        get_type_tag(&id, TypeLookup::Typed("0x1::notarization::Notarization".to_string())),
        Err(Error::FailedToParseTag(
            "Could not parse type parameter from 0x1::notarization::Notarization".to_string()
        ))
    );
    assert_eq!(
        get_type_tag(
            &id,
            TypeLookup::Typed("0x1::notarization::Notarization<vector<u8>>".to_string())
        ),
        Ok("vector<u8>".to_string())
    );
}

#[test]
fn a_tag_is_made_from_the_reading_of_its_parameter() {
    let tag = parsed_type_tag("vector<u8>", Ok("vector<u8>".to_string())).unwrap();
    assert_eq!(tag.text, "vector<u8>");
    assert_eq!(
        parsed_type_tag("vec<", Err("unexpected end".to_string())),
        Err(Error::FailedToParseTag("Failed to parse tag 'vec<': unexpected end".to_string()))
    );
}

#[test]
fn object_reference_lookups() {
    let reference = ObjectRef { object_id: some_id(), version: 7, digest: [9u8; 32] };
    assert_eq!(get_object_ref_by_id(RefLookup::Found(reference)), Ok(reference));
    assert_eq!(
        get_object_ref_by_id(RefLookup::Missing),
        Err(Error::ObjectLookup("no data found".to_string()))
    );
    assert_eq!(
        get_object_ref_by_id(RefLookup::Failed("refused".to_string())),
        Err(Error::ObjectLookup("Failed to get object: refused".to_string()))
    );
}

#[test]
fn pure_values_are_shown_in_their_debug_form() {
    assert_eq!(debug_form(&PureValue::Bytes(&vec![])), "[]");
    assert_eq!(debug_form(&PureValue::Bytes(&vec![7])), "[7]");
    assert_eq!(debug_form(&PureValue::Bytes(&vec![1, 20, 255, 0])), "[1, 20, 255, 0]");
    assert_eq!(debug_form(&PureValue::Text(&"a \"b\"\n".to_string())), "\"a \\\"b\\\"\\n\"");
    assert_eq!(debug_form(&PureValue::Text(&String::new())), "\"\"");
    assert_eq!(debug_form(&PureValue::OptionalText(&None)), "None");
    assert_eq!(debug_form(&PureValue::OptionalText(&Some("x".to_string()))), "Some(\"x\")");
    assert_eq!(debug_form(&PureValue::Number(0)), "0");
    assert_eq!(debug_form(&PureValue::Number(4_294_967_295)), "4294967295");
    assert_eq!(debug_form(&PureValue::Number(1_000)), "1000");
}

#[test]
fn pure_values_are_encoded_on_their_own() {
    assert_eq!(encode_pure(&PureValue::Bytes(&vec![9, 8])), Ok(vec![2, 9, 8]));
    assert_eq!(encode_pure(&PureValue::Text(&"ß".to_string())), Ok(vec![2, 0xc3, 0x9f]));
    assert_eq!(encode_pure(&PureValue::OptionalText(&None)), Ok(vec![0]));
    assert_eq!(encode_pure(&PureValue::Number(1)), Ok(vec![1, 0, 0, 0]));
}

#[test]
fn a_value_longer_than_the_encoding_admits_is_refused() {
    let too_long = vec![0u8; 0x8000_0000];
    assert_eq!(
        encode_pure(&PureValue::Bytes(&too_long)),
        Err("exceeded max sequence length: 2147483648".to_string())
    );
}

#[test]
fn a_text_longer_than_the_encoding_admits_is_refused() {
    let too_long = String::from_utf8(vec![0u8; 0x8000_0001]).unwrap();
    assert_eq!(
        encode_pure(&PureValue::Text(&too_long)),
        Err("exceeded max sequence length: 2147483649".to_string())
    );
    let optional = Some(too_long);
    assert_eq!(
        encode_pure(&PureValue::OptionalText(&optional)),
        Err("exceeded max sequence length: 2147483649".to_string())
    );
}
