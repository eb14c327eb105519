use crate::decimal::push_decimal;
use crate::json::{
    canonical_members, canonical_text, member, parse_object, parsed_members, quote_json,
};
use crate::record::{
    member_at, DecodeError, Field, Member, MemberView, Problem, Record, RecordView,
};
use vstd::prelude::*;
use vstd::string::*;

verus! {

/// The canonical text of a record.
pub open spec fn encoding(v: RecordView) -> Seq<char> {
    canonical_text(v.name, v.id)
}

/// The record that a `name` member and an `id` member make, or why they make
/// none. The name is read first: where both are wrong, the name is reported.
pub open spec fn record_of(name: MemberView, id: MemberView) -> Result<RecordView, DecodeError> {
    match name {
        MemberView::Absent => Err(DecodeError::MalformedInput(Problem::Missing(Field::Name))),
        MemberView::Text(s) => match id {
            MemberView::Absent => Err(DecodeError::MalformedInput(Problem::Missing(Field::Id))),
            MemberView::Unsigned(n) => if n <= u32::MAX {
                Ok(RecordView { name: s, id: n as u32 })
            } else {
                Err(DecodeError::MalformedInput(Problem::OutOfRange(Field::Id)))
            },
            MemberView::Number => Err(DecodeError::MalformedInput(Problem::OutOfRange(Field::Id))),
            _ => Err(DecodeError::MalformedInput(Problem::WrongKind(Field::Id))),
        },
        _ => Err(DecodeError::MalformedInput(Problem::WrongKind(Field::Name))),
    }
}

/// What decoding gives for the members of a parsed object, or for a text
/// that is not one JSON object (`None`).
pub open spec fn decoded(parsed: Option<Map<Seq<char>, MemberView>>) -> Result<RecordView, DecodeError> {
    match parsed {
        None => Err(DecodeError::MalformedInput(Problem::Shape)),
        Some(m) => record_of(member_at(m, "name"@), member_at(m, "id"@)),
    }
}

/// A decoding result, with the record seen as its view.
pub open spec fn result_view(r: Result<Record, DecodeError>) -> Result<RecordView, DecodeError> {
    match r {
        Ok(x) => Ok(x@),
        Err(e) => Err(e),
    }
}

/// Builds a record from its two members, or says why they make none.
pub fn record_from_members(name: Member, id: Member) -> (r: Result<Record, DecodeError>)
    ensures
        result_view(r) == record_of(name@, id@),
{
    match name {
        Member::Absent => Err(DecodeError::MalformedInput(Problem::Missing(Field::Name))),
        Member::Text(s) => match id {
            Member::Absent => Err(DecodeError::MalformedInput(Problem::Missing(Field::Id))),
            Member::Unsigned(n) => if n <= u32::MAX as u64 {
                Ok(Record { name: s, id: n as u32 })
            } else {
                Err(DecodeError::MalformedInput(Problem::OutOfRange(Field::Id)))
            },
            Member::Number => Err(DecodeError::MalformedInput(Problem::OutOfRange(Field::Id))),
            Member::Text(_) | Member::Other => Err(
                DecodeError::MalformedInput(Problem::WrongKind(Field::Id)),
            ),
        },
        Member::Unsigned(_) | Member::Number | Member::Other => Err(
            DecodeError::MalformedInput(Problem::WrongKind(Field::Name)),
        ),
    }
}

/// Writes the canonical text of a record: `{"name": <quoted name>, "id": <digits>}`.
pub fn encode(r: &Record) -> (t: String)
    ensures
        t@ == encoding(r@),
{
    let quoted = match quote_json(r.name.as_str()) {
        Ok(q) => q,
        // quoting a string cannot fail
        Err(_) => String::new(),
    };
    let mut out = String::from_str("{\"name\": ");
    out.append(quoted.as_str());
    out.append(", \"id\": ");
    push_decimal(&mut out, r.id);
    out.append("}");
    out
}

/// Reads a record from text: a JSON object with a string `name` and an `id`
/// that a `u32` holds, in any order, beside any other members. The canonical
/// text of a record decodes to that record.
pub fn decode(text: &str) -> (r: Result<Record, DecodeError>)
    ensures
        result_view(r) == decoded(parsed_members(text@)),
        forall|v: RecordView| #[trigger] encoding(v) == text@ ==> result_view(r) == Ok::<
            RecordView,
            DecodeError,
        >(v),
{
    let parsed = parse_object(text);
    let r = match parsed {
        Err(_) => Err(DecodeError::MalformedInput(Problem::Shape)),
        Ok(m) => {
            let name = member(&m, "name");
            let id = member(&m, "id");
            record_from_members(name, id)
        },
    };
    proof {
        assert forall|v: RecordView| #[trigger] encoding(v) == text@ implies result_view(r) == Ok::<
            RecordView,
            DecodeError,
        >(v) by {
            assert(canonical_text(v.name, v.id) == text@);
            assert(parsed_members(text@) == Some(canonical_members(v.name, v.id)));
            lemma_canonical_decodes(v.name, v.id);
        }
    }
    r
}

/// The members of a record's canonical text decode to that record.
pub proof fn lemma_canonical_decodes(name: Seq<char>, id: u32)
    ensures
        decoded(Some(canonical_members(name, id))) == Ok::<RecordView, DecodeError>(
            RecordView { name, id },
        ),
{
    reveal_strlit("name");
    reveal_strlit("id");
    assert("name"@.len() != "id"@.len());
}

/// An object without a `name` member, or without an `id` member, does not
/// decode: the result is a malformed-input error.
pub proof fn lemma_missing_member_rejected(m: Map<Seq<char>, MemberView>)
    requires
        !m.contains_key("name"@) || !m.contains_key("id"@),
    ensures
        decoded(Some(m)) is Err,
{
}

/// An object whose `id` member is not a number does not decode.
pub proof fn lemma_non_numeric_id_rejected(m: Map<Seq<char>, MemberView>)
    requires
        member_at(m, "id"@) is Text || member_at(m, "id"@) is Other,
    ensures
        decoded(Some(m)) is Err,
{
}

/// A member under any key other than `name` and `id` changes nothing that
/// decoding gives.
pub proof fn lemma_extra_member_ignored(
    m: Map<Seq<char>, MemberView>,
    key: Seq<char>,
    value: MemberView,
)
    requires
        key != "name"@,
        key != "id"@,
    ensures
        decoded(Some(m.insert(key, value))) == decoded(Some(m)),
{
    assert(member_at(m.insert(key, value), "name"@) == member_at(m, "name"@));
    assert(member_at(m.insert(key, value), "id"@) == member_at(m, "id"@));
}

} // verus!
