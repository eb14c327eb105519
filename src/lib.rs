//! A record of a name and a numeric id, exchanged as a small JSON object.
//!
//! `encode` writes the canonical text `{"name": <string>, "id": <digits>}`;
//! `decode` reads any JSON object that holds both members, in any order and
//! beside any others, and reports every other input as malformed.

mod codec;
mod decimal;
mod json;
mod record;

pub use decimal::{decimal, digit_char};
pub use json::{canonical_members, canonical_text, json_quoted, object_members, parsed_members};
pub use record::{member_at, DecodeError, Field, Member, MemberView, Problem, Record, RecordView};
pub use codec::{
    decode, decoded, encode, encoding, lemma_canonical_decodes, lemma_extra_member_ignored,
    lemma_missing_member_rejected, lemma_non_numeric_id_rejected, record_from_members, record_of,
    result_view,
};
