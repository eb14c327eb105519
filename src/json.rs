use crate::decimal::decimal;
use crate::record::{member_at, Member, MemberView};
use vstd::prelude::*;

verus! {

#[verifier::external_type_specification]
#[verifier::external_body]
pub struct ExJsonValue(serde_json::Value);

#[verifier::external_type_specification]
#[verifier::external_body]
#[verifier::reject_recursive_types(K)]
#[verifier::reject_recursive_types(V)]
pub struct ExJsonMap<K, V>(serde_json::Map<K, V>);

#[verifier::external_type_specification]
#[verifier::external_body]
pub struct ExJsonError(serde_json::Error);

/// The JSON string literal that serde_json writes for `s`: quotes, with
/// escapes inside.
pub uninterp spec fn json_quoted(s: Seq<char>) -> Seq<char>;

/// The members of the JSON object that serde_json reads from `text`, or
/// `None` where `text` is not one JSON object.
pub uninterp spec fn parsed_members(text: Seq<char>) -> Option<Map<Seq<char>, MemberView>>;

/// The members that a serde_json object holds.
pub uninterp spec fn object_members(m: serde_json::Map<String, serde_json::Value>) -> Map<
    Seq<char>,
    MemberView,
>;

/// The canonical text of a record: `{"name": <quoted name>, "id": <digits>}`.
pub open spec fn canonical_text(name: Seq<char>, id: u32) -> Seq<char> {
    "{\"name\": "@ + json_quoted(name) + ", \"id\": "@ + decimal(id as nat) + "}"@
}

/// The members of the canonical text of a record.
pub open spec fn canonical_members(name: Seq<char>, id: u32) -> Map<Seq<char>, MemberView> {
    map!["name"@ => MemberView::Text(name), "id"@ => MemberView::Unsigned(id as u64)]
}

/// Relies on serde_json::to_string on a `str`: it writes the string as a
/// JSON string literal into a `Vec`, which cannot fail.
#[verifier::external_body]
pub(crate) fn quote_json(s: &str) -> (r: Result<String, serde_json::Error>)
    ensures
        r is Ok && r->Ok_0@ == json_quoted(s@),
{
    serde_json::to_string(s)
}

/// Relies on serde_json::from_str into a `serde_json::Map`: it reads exactly
/// one JSON object, surrounded by whitespace only. It reads back a string
/// literal that serde_json::to_string wrote, and a run of decimal digits
/// without leading zeros as that unsigned integer.
#[verifier::external_body]
pub(crate) fn parse_object(text: &str) -> (r: Result<
    serde_json::Map<String, serde_json::Value>,
    serde_json::Error,
>)
    ensures
        parsed_members(text@) == (match r {
            Ok(m) => Some(object_members(m)),
            Err(_) => None,
        }),
        forall|name: Seq<char>, id: u32|
            #[trigger] canonical_text(name, id) == text@ ==> (r is Ok && object_members(r->Ok_0)
                == canonical_members(name, id)),
{
    serde_json::from_str(text)
}

/// Relies on serde_json::Map::get to find the member under `key`, and on
/// serde_json::Number::as_u64 to tell the numbers that a `u64` holds.
#[verifier::external_body]
pub(crate) fn member(m: &serde_json::Map<String, serde_json::Value>, key: &str) -> (r: Member)
    ensures
        r@ == member_at(object_members(*m), key@),
{
    match m.get(key) {
        None => Member::Absent,
        Some(serde_json::Value::String(s)) => Member::Text(s.clone()),
        Some(serde_json::Value::Number(n)) => match n.as_u64() {
            Some(k) => Member::Unsigned(k),
            None => Member::Number,
        },
        Some(_) => Member::Other,
    }
}

} // verus!
