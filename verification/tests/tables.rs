use ton_client::address::MessageAddress;
use ton_client::body::MessageBody;
use ton_client::body_type::MessageBodyType;
use ton_client::codec::FunctionHeader;
use ton_client::descriptor::{all_distinct, AbiDescriptor, EventEntry, FunctionEntry, Schema};
use ton_client::error::{CodecError, CodecErrorKind, DecodeError, SdkError};

fn bits_of(bytes: &[u8]) -> Vec<bool> {
    let mut bits = Vec::new();
    for byte in bytes {
        for k in 0..8 {
            bits.push((byte >> (7 - k)) & 1 == 1);
        }
    }
    bits
}

fn function(name: &str, input_id: u32, output_id: u32) -> FunctionEntry {
    FunctionEntry { name: name.to_owned(), input_id, output_id }
}

fn event(name: &str, id: u32) -> EventEntry {
    EventEntry { name: name.to_owned(), id }
}

fn abi() -> AbiDescriptor {
    AbiDescriptor {
        functions: vec![function("a", 1, 101), function("b", 2, 102), function("c", 3, 103)],
        events: vec![event("e", 201), event("b", 202), event("shadowed", 102)],
    }
}

#[test]
fn is_output_is_true_for_both_kinds_of_output() {
    assert!(MessageBodyType::Output.is_output());
    assert!(MessageBodyType::InternalOutput.is_output());
    assert!(!MessageBodyType::Input.is_output());
    assert!(!MessageBodyType::Event.is_output());
}

#[test]
fn selector_is_read_most_significant_bit_first() {
    let body = MessageBody::new(bits_of(&[0x12, 0x34, 0x56, 0x78, 0xff]));
    assert_eq!(body.len(), 40);
    assert_eq!(body.read_selector(0), Some(0x1234_5678));
    assert_eq!(body.read_selector(8), Some(0x3456_78ff));
    assert_eq!(body.read_selector(4), Some(0x2345_678f));
    assert_eq!(body.read_selector(1), Some(0x2468_acf1));
}

#[test]
fn selector_takes_every_value() {
    assert_eq!(MessageBody::new(vec![false; 32]).read_selector(0), Some(0));
    assert_eq!(MessageBody::new(vec![true; 32]).read_selector(0), Some(u32::MAX));
    let mut one = vec![false; 31];
    one.push(true);
    assert_eq!(MessageBody::new(one).read_selector(0), Some(1));
    let mut top = vec![true];
    top.extend(vec![false; 31]);
    assert_eq!(MessageBody::new(top).read_selector(0), Some(0x8000_0000));
}

#[test]
fn selector_needs_thirty_two_bits() {
    assert_eq!(MessageBody::new(Vec::new()).read_selector(0), None);
    assert_eq!(MessageBody::new(vec![true; 31]).read_selector(0), None);
    let body = MessageBody::new(vec![true; 40]);
    assert_eq!(body.read_selector(8), Some(u32::MAX));
    assert_eq!(body.read_selector(9), None);
    assert_eq!(body.read_selector(40), None);
    assert_eq!(body.read_selector(usize::MAX), None);
    assert_eq!(body.read_selector(usize::MAX - 31), None);
}

#[test]
fn reading_leaves_the_body_as_it_was() {
    let body = MessageBody::new(bits_of(&[1, 2, 3, 4, 5]));
    let before = body.clone();
    let first = body.read_selector(0);
    let second = body.read_selector(0);
    assert_eq!(first, second);
    assert_eq!(body, before);
}

#[test]
fn functions_are_found_by_selector() {
    let abi = abi();
    assert_eq!(abi.function_by_output_id(102), Some(1));
    assert_eq!(abi.function_by_output_id(2), None);
    assert_eq!(abi.function_by_input_id(3), Some(2));
    assert_eq!(abi.function_by_input_id(103), None);
    assert_eq!(abi.event_by_id(202), Some(1));
    assert_eq!(abi.event_by_id(1), None);
}

#[test]
fn first_entry_of_a_selector_is_found() {
    let abi = AbiDescriptor {
        functions: vec![function("a", 1, 9), function("b", 1, 9)],
        events: vec![event("e", 4), event("f", 4)],
    };
    assert_eq!(abi.function_by_output_id(9), Some(0));
    assert_eq!(abi.function_by_input_id(1), Some(0));
    assert_eq!(abi.event_by_id(4), Some(0));
    assert!(!abi.has_distinct_selectors());
}

#[test]
fn output_schema_prefers_functions_to_events() {
    let abi = abi();
    assert_eq!(abi.find_output_schema(102), Some(Schema::FunctionOutput(1)));
    assert_eq!(abi.find_output_schema(201), Some(Schema::EventInput(0)));
    assert_eq!(abi.find_output_schema(1), None);
    assert_eq!(abi.find_input_schema(1), Some(Schema::FunctionInput(0)));
    assert_eq!(abi.find_input_schema(101), None);
    assert_eq!(abi.find_input_schema(201), None);
}

#[test]
fn entries_are_named_by_schema() {
    let abi = abi();
    assert_eq!(abi.entry_name(Schema::FunctionOutput(2)), "c");
    assert_eq!(abi.entry_name(Schema::FunctionInput(0)), "a");
    assert_eq!(abi.entry_name(Schema::EventInput(1)), "b");
}

#[test]
fn events_are_found_by_name() {
    let abi = abi();
    assert!(abi.has_event(&"e".to_owned()));
    assert!(abi.has_event(&"b".to_owned()));
    assert!(!abi.has_event(&"a".to_owned()));
    assert!(!abi.has_event(&"".to_owned()));
    let empty = AbiDescriptor { functions: vec![], events: vec![] };
    assert!(!empty.has_event(&"e".to_owned()));
    assert_eq!(empty.function_by_output_id(0), None);
}

#[test]
fn distinct_selectors_are_recognised() {
    assert!(abi().has_distinct_selectors());
    assert!(AbiDescriptor { functions: vec![], events: vec![] }.has_distinct_selectors());
    let shared_input = AbiDescriptor { functions: vec![function("a", 1, 2), function("b", 1, 3)], events: vec![] };
    assert!(!shared_input.has_distinct_selectors());
    let shared_output = AbiDescriptor { functions: vec![function("a", 1, 3), function("b", 2, 3)], events: vec![] };
    assert!(!shared_output.has_distinct_selectors());
    let shared_event = AbiDescriptor { functions: vec![], events: vec![event("e", 5), event("f", 6), event("g", 5)] };
    assert!(!shared_event.has_distinct_selectors());
    let crossing = AbiDescriptor { functions: vec![function("a", 1, 2), function("b", 2, 1)], events: vec![event("e", 1)] };
    assert!(crossing.has_distinct_selectors());
    assert!(all_distinct(&vec![3, 1, 2]));
    assert!(!all_distinct(&vec![3, 1, 3]));
    assert!(all_distinct(&vec![]));
}

#[test]
fn addresses_are_compared_by_workchain_and_account() {
    let address = MessageAddress { workchain_id: 0, account: vec![1, 2, 3] };
    assert!(address.same_as(&MessageAddress { workchain_id: 0, account: vec![1, 2, 3] }));
    assert!(!address.same_as(&MessageAddress { workchain_id: -1, account: vec![1, 2, 3] }));
    assert!(!address.same_as(&MessageAddress { workchain_id: 0, account: vec![1, 2, 4] }));
    assert!(!address.same_as(&MessageAddress { workchain_id: 0, account: vec![1, 2] }));
    assert!(!address.same_as(&MessageAddress { workchain_id: 0, account: vec![1, 2, 3, 0] }));
    let empty = MessageAddress { workchain_id: 5, account: vec![] };
    assert!(empty.same_as(&MessageAddress { workchain_id: 5, account: vec![] }));
}

#[test]
fn decode_errors_are_rendered() {
    let cause = CodecError { kind: CodecErrorKind::Other, message: "cell underflow".to_owned() };
    assert_eq!(DecodeError::EmptyBody.message(), "The message body is empty");
    assert_eq!(
        DecodeError::ResponsibleOutput(cause.clone()).message(),
        "Responsible function output can't be decoded: cell underflow"
    );
    assert_eq!(DecodeError::Header(cause.clone()).message(), "Can't decode function header: cell underflow");
    assert_eq!(DecodeError::Detokenize(cause).message(), "cell underflow");
}

#[test]
fn leftover_data_is_told_apart_from_other_failures() {
    let leftover = CodecError { kind: CodecErrorKind::IncompleteDeserialization, message: String::new() };
    let other = CodecError { kind: CodecErrorKind::Other, message: String::new() };
    assert!(DecodeError::ResponsibleOutput(leftover.clone()).is_incomplete_deserialization());
    assert!(DecodeError::Header(leftover.clone()).is_incomplete_deserialization());
    assert!(DecodeError::Detokenize(leftover).is_incomplete_deserialization());
    assert!(!DecodeError::ResponsibleOutput(other.clone()).is_incomplete_deserialization());
    assert!(!DecodeError::Header(other.clone()).is_incomplete_deserialization());
    assert!(!DecodeError::Detokenize(other).is_incomplete_deserialization());
    assert!(!DecodeError::SchemaMismatch.is_incomplete_deserialization());
    assert!(!DecodeError::EmptyBody.is_incomplete_deserialization());
    assert!(!DecodeError::MalformedSelector.is_incomplete_deserialization());
}

#[test]
fn sdk_errors_are_rendered() {
    assert_eq!(SdkError::InvalidData { msg: "bad cell".to_owned() }.message(), "Invalid data: bad cell");
    assert_eq!(SdkError::InternalError { msg: "no handle".to_owned() }.message(), "Internal error: no handle");
    assert_eq!(SdkError::InvalidData { msg: String::new() }.message(), "Invalid data: ");
}

#[test]
fn header_is_made_of_the_fields_present() {
    assert_eq!(FunctionHeader::from_fields(None, None, None), None);
    assert_eq!(
        FunctionHeader::from_fields(Some(1_600_000_000), None, None),
        Some(FunctionHeader { expire: Some(1_600_000_000), time: None, pubkey: None })
    );
    assert_eq!(
        FunctionHeader::from_fields(None, Some(0), None),
        Some(FunctionHeader { expire: None, time: Some(0), pubkey: None })
    );
    assert_eq!(
        FunctionHeader::from_fields(Some(u32::MAX), Some(u64::MAX), Some(vec![0x4c, 0x7c, 0x00, 0xff])),
        Some(FunctionHeader {
            expire: Some(u32::MAX),
            time: Some(u64::MAX),
            pubkey: Some("4c7c00ff".to_owned()),
        })
    );
    assert_eq!(
        FunctionHeader::from_fields(None, None, Some(Vec::new())),
        Some(FunctionHeader { expire: None, time: None, pubkey: Some(String::new()) })
    );
}
