use thingy_codec::{decode, encode, record_from_members, DecodeError, Field, Member, Problem, Record};

fn record(name: &str, id: u32) -> Record {
    Record { name: name.to_string(), id }
}

fn malformed(problem: Problem) -> Result<Record, DecodeError> {
    Err(DecodeError::MalformedInput(problem))
}

#[test]
fn encode_sample_record() {
    assert_eq!(encode(&record("foo", 314)), r#"{"name": "foo", "id": 314}"#);
}

#[test]
fn decode_sample_text() {
    assert_eq!(decode(r#"{"name": "foo", "id": 314}"#), Ok(record("foo", 314)));
}

#[test]
fn decode_without_id_fails() {
    assert_eq!(decode(r#"{"name": "foo"}"#), malformed(Problem::Missing(Field::Id)));
}

#[test]
fn decode_without_name_fails() {
    assert_eq!(decode(r#"{"id": 314}"#), malformed(Problem::Missing(Field::Name)));
}

#[test]
fn decode_empty_object_reports_name_first() {
    assert_eq!(decode("{}"), malformed(Problem::Missing(Field::Name)));
}

#[test]
fn decode_text_id_fails() {
    assert_eq!(
        decode(r#"{"name": "foo", "id": "314"}"#),
        malformed(Problem::WrongKind(Field::Id))
    );
}

#[test]
fn decode_null_or_bool_id_fails() {
    assert_eq!(decode(r#"{"name": "foo", "id": null}"#), malformed(Problem::WrongKind(Field::Id)));
    assert_eq!(decode(r#"{"name": "foo", "id": true}"#), malformed(Problem::WrongKind(Field::Id)));
    assert_eq!(decode(r#"{"name": "foo", "id": [1]}"#), malformed(Problem::WrongKind(Field::Id)));
}

#[test]
fn decode_numeric_name_fails() {
    assert_eq!(decode(r#"{"name": 7, "id": 314}"#), malformed(Problem::WrongKind(Field::Name)));
}

#[test]
fn decode_id_past_u32_fails() {
    assert_eq!(
        decode(r#"{"name": "foo", "id": 4294967296}"#),
        malformed(Problem::OutOfRange(Field::Id))
    );
    assert_eq!(
        decode(r#"{"name": "foo", "id": 18446744073709551616}"#),
        malformed(Problem::OutOfRange(Field::Id))
    );
}

#[test]
fn decode_negative_or_fractional_id_fails() {
    assert_eq!(decode(r#"{"name": "foo", "id": -1}"#), malformed(Problem::OutOfRange(Field::Id)));
    assert_eq!(decode(r#"{"name": "foo", "id": 1.5}"#), malformed(Problem::OutOfRange(Field::Id)));
}

#[test]
fn decode_largest_id() {
    assert_eq!(
        decode(r#"{"name": "foo", "id": 4294967295}"#),
        Ok(record("foo", u32::MAX))
    );
}

#[test]
fn decode_ignores_extra_member() {
    let plain = decode(r#"{"name": "foo", "id": 314}"#);
    let extra = decode(r#"{"name": "foo", "colour": [1, {"a": null}], "id": 314}"#);
    assert_eq!(extra, Ok(record("foo", 314)));
    assert_eq!(extra, plain);
}

#[test]
fn decode_accepts_any_member_order() {
    assert_eq!(decode(r#"{"id":7,"name":"x"}"#), Ok(record("x", 7)));
}

#[test]
fn decode_reads_escapes() {
    assert_eq!(
        decode(r#"{"name": "a\"b\\cA", "id": 1}"#),
        Ok(record("a\"b\\cA", 1))
    );
}

#[test]
fn decode_non_object_fails() {
    assert_eq!(decode(""), malformed(Problem::Shape));
    assert_eq!(decode("[1, 2]"), malformed(Problem::Shape));
    assert_eq!(decode("314"), malformed(Problem::Shape));
    assert_eq!(decode(r#"{"name": "foo", "id": 314"#), malformed(Problem::Shape));
    assert_eq!(decode(r#"{"name": "foo", "id": 314} x"#), malformed(Problem::Shape));
}

#[test]
fn encode_quotes_the_name() {
    assert_eq!(
        encode(&record("a\"b\\c\nd", 1)),
        "{\"name\": \"a\\\"b\\\\c\\nd\", \"id\": 1}"
    );
}

#[test]
fn encode_smallest_and_largest_id() {
    assert_eq!(encode(&record("", 0)), r#"{"name": "", "id": 0}"#);
    assert_eq!(encode(&record("z", u32::MAX)), r#"{"name": "z", "id": 4294967295}"#);
    assert_eq!(encode(&record("z", 10)), r#"{"name": "z", "id": 10}"#);
}

#[test]
fn round_trip_keeps_records() {
    let records = vec![
        record("foo", 314),
        record("", 0),
        record("quote \" and \\ and \t and \u{1}", 42),
        record("ünïcødé ☃ 🦀", u32::MAX),
        record("{\"name\": \"x\", \"id\": 1}", 9),
    ];
    for r in records {
        assert_eq!(decode(&encode(&r)), Ok(r.clone()));
    }
}

#[test]
fn members_make_a_record() {
    assert_eq!(
        record_from_members(Member::Text("foo".to_string()), Member::Unsigned(314)),
        Ok(record("foo", 314))
    );
    assert_eq!(
        record_from_members(Member::Text("foo".to_string()), Member::Unsigned(4294967296)),
        malformed(Problem::OutOfRange(Field::Id))
    );
    assert_eq!(
        record_from_members(Member::Text("foo".to_string()), Member::Number),
        malformed(Problem::OutOfRange(Field::Id))
    );
    assert_eq!(
        record_from_members(Member::Text("foo".to_string()), Member::Text("1".to_string())),
        malformed(Problem::WrongKind(Field::Id))
    );
    assert_eq!(
        record_from_members(Member::Text("foo".to_string()), Member::Other),
        malformed(Problem::WrongKind(Field::Id))
    );
    assert_eq!(
        record_from_members(Member::Text("foo".to_string()), Member::Absent),
        malformed(Problem::Missing(Field::Id))
    );
    assert_eq!(
        record_from_members(Member::Absent, Member::Absent),
        malformed(Problem::Missing(Field::Name))
    );
    assert_eq!(
        record_from_members(Member::Other, Member::Unsigned(1)),
        malformed(Problem::WrongKind(Field::Name))
    );
}
