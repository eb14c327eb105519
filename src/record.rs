use vstd::prelude::*;

verus! {

/// A named item with a 32-bit unsigned id.
#[derive(Clone, Debug, PartialEq, Eq)]
pub struct Record {
    pub name: String,
    pub id: u32,
}

/// What a `Record` holds, as mathematical values.
pub struct RecordView {
    pub name: Seq<char>,
    pub id: u32,
}

impl View for Record {
    type V = RecordView;

    open spec fn view(&self) -> RecordView {
        RecordView { name: self.name@, id: self.id }
    }
}

/// The two members that a record's text must hold.
#[derive(Clone, Copy, Debug, PartialEq, Eq, Structural)]
pub enum Field {
    Name,
    Id,
}

/// Why a text is not a record.
#[derive(Clone, Copy, Debug, PartialEq, Eq, Structural)]
pub enum Problem {
    /// The text is not a single JSON object.
    Shape,
    /// The object lacks the member.
    Missing(Field),
    /// The member holds a value of the wrong kind.
    WrongKind(Field),
    /// The member holds a number that its field cannot represent.
    OutOfRange(Field),
}

/// The one way in which decoding fails, with the reason.
#[derive(Clone, Copy, Debug, PartialEq, Eq, Structural)]
pub enum DecodeError {
    MalformedInput(Problem),
}

/// What one member of a JSON object holds, as far as a record reads it.
#[derive(Clone, Debug, PartialEq, Eq)]
pub enum Member {
    /// The object has no member of that key.
    Absent,
    /// A JSON string.
    Text(String),
    /// A JSON number that a `u64` holds exactly.
    Unsigned(u64),
    /// Any other JSON number: negative, fractional or too large.
    Number,
    /// `null`, a boolean, an array or an object.
    Other,
}

/// What a `Member` holds, as mathematical values.
pub enum MemberView {
    Absent,
    Text(Seq<char>),
    Unsigned(u64),
    Number,
    Other,
}

impl View for Member {
    type V = MemberView;

    open spec fn view(&self) -> MemberView {
        match self {
            Member::Absent => MemberView::Absent,
            Member::Text(s) => MemberView::Text(s@),
            Member::Unsigned(n) => MemberView::Unsigned(*n),
            Member::Number => MemberView::Number,
            Member::Other => MemberView::Other,
        }
    }
}

/// The member of `members` under `key`, or `Absent`.
pub open spec fn member_at(members: Map<Seq<char>, MemberView>, key: Seq<char>) -> MemberView {
    if members.contains_key(key) {
        members[key]
    } else {
        MemberView::Absent
    }
}

} // verus!
