use ghrs::decode::{field, optional, Deserialize};
use ghrs::error::DecodeError;
use ghrs::json::parse;
use ghrs::time::Timestamp;

fn decode_value(text: &str) -> serde_json::Value {
    parse(text.as_bytes()).unwrap()
}

fn shown<T>(r: Result<T, DecodeError>) -> String {
    match r {
        Ok(_) => "accepted".to_string(),
        Err(e) => format!("{:?}", e),
    }
}

#[test]
fn parse_reads_one_document() {
    let value = parse(b" {\"a\": [1, 2.5, \"x\", null, true]} ").unwrap();
    let items = value.get("a").unwrap().as_array().unwrap();
    assert_eq!(items.len(), 5);
    assert_eq!(items[0].as_u64(), Some(1));
    assert!(items[1].is_f64());
    assert_eq!(items[2].as_str(), Some("x"));
    assert!(items[3].is_null());
    assert_eq!(items[4].as_bool(), Some(true));
}

#[test]
fn parse_refuses_what_is_not_one_document() {
    assert!(matches!(parse(b""), Err(DecodeError::Syntax)));
    assert!(matches!(parse(b"{\"a\": }"), Err(DecodeError::Syntax)));
    assert!(matches!(parse(b"[1, 2] 3"), Err(DecodeError::Syntax)));
    assert!(matches!(parse(b"[1, 2"), Err(DecodeError::Syntax)));
    assert!(matches!(parse(&[0xff, 0xfe]), Err(DecodeError::Syntax)));
}

#[test]
fn text_is_read_from_a_string_only() {
    assert_eq!(String::deserialize(&decode_value("\"octocat\"")).unwrap(), "octocat");
    assert_eq!(String::deserialize(&decode_value("\"\"")).unwrap(), "");
    assert_eq!(shown(String::deserialize(&decode_value("7"))), "Expected(Text)");
    assert_eq!(shown(String::deserialize(&decode_value("null"))), "Expected(Text)");
}

#[test]
fn unsigned_is_read_from_integers_that_are_not_negative() {
    assert_eq!(u64::deserialize(&decode_value("0")).unwrap(), 0);
    assert_eq!(u64::deserialize(&decode_value("18446744073709551615")).unwrap(), u64::MAX);
    assert_eq!(shown(u64::deserialize(&decode_value("-1"))), "Expected(Unsigned)");
    assert_eq!(shown(u64::deserialize(&decode_value("1.0"))), "Expected(Unsigned)");
    assert_eq!(shown(u64::deserialize(&decode_value("\"1\""))), "Expected(Unsigned)");
    assert_eq!(shown(u64::deserialize(&decode_value("18446744073709551616"))), "Expected(Unsigned)");
}

#[test]
fn signed_is_read_from_integers_in_range() {
    assert_eq!(i64::deserialize(&decode_value("-9223372036854775808")).unwrap(), i64::MIN);
    assert_eq!(i64::deserialize(&decode_value("9223372036854775807")).unwrap(), i64::MAX);
    assert_eq!(i64::deserialize(&decode_value("-5")).unwrap(), -5);
    assert_eq!(shown(i64::deserialize(&decode_value("9223372036854775808"))), "Expected(Signed)");
    assert_eq!(shown(i64::deserialize(&decode_value("2e3"))), "Expected(Signed)");
    assert_eq!(shown(i64::deserialize(&decode_value("true"))), "Expected(Signed)");
}

#[test]
fn flag_is_read_from_a_boolean_only() {
    assert!(bool::deserialize(&decode_value("true")).unwrap());
    assert!(!bool::deserialize(&decode_value("false")).unwrap());
    assert_eq!(shown(bool::deserialize(&decode_value("0"))), "Expected(Flag)");
    assert_eq!(shown(bool::deserialize(&decode_value("\"true\""))), "Expected(Flag)");
}

#[test]
fn timestamp_is_read_from_a_date_and_time() {
    let t = Timestamp::deserialize(&decode_value("\"2011-01-26T19:01:12Z\"")).unwrap();
    assert_eq!(t, Timestamp { seconds: 1296068472, nanoseconds: 0 });
    let t = Timestamp::deserialize(&decode_value("\"1970-01-01T00:00:00Z\"")).unwrap();
    assert_eq!(t, Timestamp { seconds: 0, nanoseconds: 0 });
    let t = Timestamp::deserialize(&decode_value("\"1969-12-31T23:59:59.25Z\"")).unwrap();
    assert_eq!(t, Timestamp { seconds: -1, nanoseconds: 250_000_000 });
}

#[test]
fn timestamp_is_taken_to_utc() {
    let t = Timestamp::deserialize(&decode_value("\"2011-01-26T20:01:12+01:00\"")).unwrap();
    assert_eq!(t, Timestamp { seconds: 1296068472, nanoseconds: 0 });
    let t = Timestamp::parse("2011-01-26 11:01:12-08:00").unwrap();
    assert_eq!(t, Timestamp { seconds: 1296068472, nanoseconds: 0 });
}

#[test]
fn timestamp_is_not_read_from_other_text() {
    assert_eq!(shown(Timestamp::deserialize(&decode_value("\"yesterday\""))), "Expected(Time)");
    assert_eq!(shown(Timestamp::deserialize(&decode_value("\"2011-01-26\""))), "Expected(Time)");
    assert_eq!(shown(Timestamp::deserialize(&decode_value("\"2011-13-26T19:01:12Z\""))), "Expected(Time)");
    assert_eq!(shown(Timestamp::deserialize(&decode_value("1296068472"))), "Expected(Time)");
    assert!(Timestamp::parse("").is_none());
}

#[test]
fn list_is_read_element_by_element() {
    assert_eq!(Vec::<u64>::deserialize(&decode_value("[3, 1, 2]")).unwrap(), vec![3, 1, 2]);
    assert_eq!(Vec::<String>::deserialize(&decode_value("[]")).unwrap(), Vec::<String>::new());
    let nested = Vec::<Vec<bool>>::deserialize(&decode_value("[[true], [], [false, true]]")).unwrap();
    assert_eq!(nested, vec![vec![true], vec![], vec![false, true]]);
}

#[test]
fn list_reports_the_first_element_that_is_refused() {
    assert_eq!(
        shown(Vec::<u64>::deserialize(&decode_value("[1, \"x\", -3]"))),
        "Element(1, Expected(Unsigned))"
    );
    assert_eq!(shown(Vec::<u64>::deserialize(&decode_value("[-1]"))), "Element(0, Expected(Unsigned))");
    assert_eq!(
        shown(Vec::<Vec<u64>>::deserialize(&decode_value("[[], [0, 1, null]]"))),
        "Element(1, Element(2, Expected(Unsigned)))"
    );
    assert_eq!(shown(Vec::<u64>::deserialize(&decode_value("{\"0\": 1}"))), "Expected(Array)");
    assert_eq!(shown(Vec::<u64>::deserialize(&decode_value("null"))), "Expected(Array)");
}

#[test]
fn field_reads_a_required_member() {
    let value = decode_value("{\"id\": 7, \"name\": \"x\", \"gone\": null}");
    assert_eq!(field::<u64>(&value, "id").unwrap(), 7);
    assert_eq!(field::<String>(&value, "name").unwrap(), "x");
    assert_eq!(shown(field::<u64>(&value, "name")), "In(\"name\", Expected(Unsigned))");
    assert_eq!(shown(field::<u64>(&value, "gone")), "In(\"gone\", Expected(Unsigned))");
    assert_eq!(shown(field::<u64>(&value, "other")), "Missing(\"other\")");
    assert_eq!(shown(field::<u64>(&value, "ID")), "Missing(\"ID\")");
    assert_eq!(shown(field::<u64>(&decode_value("[7]"), "id")), "Missing(\"id\")");
}

#[test]
fn optional_reads_a_member_that_may_be_missing_or_null() {
    let value = decode_value("{\"id\": 7, \"name\": \"x\", \"gone\": null}");
    assert_eq!(optional::<u64>(&value, "id").unwrap(), Some(7));
    assert_eq!(optional::<u64>(&value, "gone").unwrap(), None);
    assert_eq!(optional::<u64>(&value, "other").unwrap(), None);
    assert_eq!(shown(optional::<u64>(&value, "name")), "In(\"name\", Expected(Unsigned))");
    assert_eq!(optional::<u64>(&decode_value("7"), "id").unwrap(), None);
}

#[test]
fn the_last_of_two_members_with_one_name_counts() {
    let value = decode_value("{\"id\": \"x\", \"id\": 7}");
    assert_eq!(field::<u64>(&value, "id").unwrap(), 7);
}
