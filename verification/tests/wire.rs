use arrow_flight::sql::Any as FlightAny;
use iceberg_datafusion_arrow_flight::wire::{Any, FetchResults};
use prost::Message;

const URL: &str = "type.googleapis.com/datafusion.example.com.sql.FetchResults";

fn fetch(handle: &str) -> FetchResults {
    FetchResults { handle: handle.to_string() }
}

#[test]
fn message_is_its_key_its_length_and_its_text() {
    let any = fetch("abc").as_any();
    assert_eq!(any.type_url, URL);
    assert_eq!(any.value, [0x0a, 3, b'a', b'b', b'c']);
    assert_eq!(FetchResults::type_url(), URL);
}

#[test]
fn empty_handle_is_an_empty_message() {
    assert!(fetch("").as_any().value.is_empty());
    assert_eq!(FetchResults::decode(&[]).unwrap().handle, "");
}

#[test]
fn long_handle_has_a_length_of_two_bytes() {
    let handle = "x".repeat(300);
    let value = fetch(&handle).as_any().value;
    assert_eq!(value[..3], [0x0a, 0xac, 0x02]);
    assert_eq!(value.len(), 303);
    assert_eq!(FetchResults::decode(&value).unwrap().handle, handle);
}

#[test]
fn handle_is_read_back() {
    for handle in ["a", "0f0e9c8a-0000-4000-8000-000000000000", "\u{fc}ber \u{1f600}"] {
        let read = fetch(handle).as_any().unpack().unwrap().unwrap();
        assert_eq!(read.handle, handle);
    }
}

#[test]
fn ticket_is_read_by_other_readers() {
    let ticket = fetch("abc").as_any().encode_to_vec();
    let read = FlightAny::decode(ticket.as_slice()).unwrap();
    assert_eq!(read.type_url, URL);
    assert_eq!(read.value.to_vec(), [0x0a, 3, b'a', b'b', b'c']);
}

#[test]
fn ticket_bytes_are_exact() {
    let ticket = fetch("abc").as_any().encode_to_vec();
    let mut expected = vec![0x0a, 59];
    expected.extend_from_slice(URL.as_bytes());
    expected.extend_from_slice(&[0x12, 5, 0x0a, 3, b'a', b'b', b'c']);
    assert_eq!(URL.len(), 59);
    assert_eq!(ticket, expected);
}

#[test]
fn tickets_of_different_handles_differ() {
    let handles = ["", "a", "b", "ab"];
    for (i, a) in handles.iter().enumerate() {
        for (j, b) in handles.iter().enumerate() {
            let same = fetch(a).as_any().encode_to_vec() == fetch(b).as_any().encode_to_vec();
            assert_eq!(same, i == j);
        }
    }
}

#[test]
fn other_types_are_not_unpacked() {
    let any = Any { type_url: "other".to_string(), value: vec![0xff] };
    assert!(!any.is_fetch_results());
    assert!(any.unpack().unwrap().is_none());
}

#[test]
fn last_handle_counts_and_other_fields_do_not() {
    // the first field twice, then the third field with the number 7, and the fifth with "z"
    let bytes = [0x0a, 1, b'a', 0x0a, 1, b'b', 0x18, 7, 0x2a, 1, b'z'];
    assert_eq!(FetchResults::decode(&bytes).unwrap().handle, "b");
}

#[test]
fn broken_messages_are_refused() {
    let wrong_type = FetchResults::decode(&[0x08, 1]).unwrap_err();
    assert_eq!(
        wrong_type,
        "failed to decode Protobuf message: FetchResults.handle: \
         invalid wire type: Varint (expected LengthDelimited)"
    );
    let too_short = FetchResults::decode(&[0x0a, 5, b'a']).unwrap_err();
    assert_eq!(
        too_short,
        "failed to decode Protobuf message: FetchResults.handle: buffer underflow"
    );
    let no_utf8 = FetchResults::decode(&[0x0a, 1, 0xff]).unwrap_err();
    assert_eq!(
        no_utf8,
        "failed to decode Protobuf message: FetchResults.handle: \
         invalid string value: data is not UTF-8 encoded"
    );
    let no_key = FetchResults::decode(&[0x80]).unwrap_err();
    assert_eq!(no_key, "failed to decode Protobuf message: invalid varint");
    let no_value = FetchResults::decode(&[0x12, 9]).unwrap_err();
    assert_eq!(no_value, "failed to decode Protobuf message: buffer underflow");
}

#[test]
fn unpack_says_what_is_broken() {
    let any = Any { type_url: URL.to_string(), value: vec![0x0a, 5, b'a'] };
    assert_eq!(
        any.unpack().unwrap_err(),
        "ParseError(\"Unable to decode Any value: failed to decode Protobuf message: \
         FetchResults.handle: buffer underflow\")"
    );
}
