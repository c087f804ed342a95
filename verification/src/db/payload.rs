//! Tool-invocation payloads: opaque JSON records that ride along with a
//! message. The store never looks inside one; it only turns a sequence of
//! them into text on the way in and back on the way out. Both directions are
//! `serde_json`'s and are given names.

use vstd::prelude::*;
use crate::db::row::text_view;

verus! {

#[verifier::external_type_specification]
#[verifier::external_body]
pub struct ExJsonValue(serde_json::Value);

/// The JSON text that `serde_json` writes for a sequence of records, or
/// `None` where it reports an error.
pub uninterp spec fn json_text(records: Seq<serde_json::Value>) -> Option<Seq<char>>;

/// The sequence of records that `serde_json` reads from `text`, or `None`
/// where the text is not a JSON array.
pub uninterp spec fn json_records(text: Seq<char>) -> Option<Seq<serde_json::Value>>;

/// `serde_json::Value`'s `Clone`: the copy is the same value.
pub assume_specification[ <serde_json::Value as Clone>::clone ](v: &serde_json::Value) -> (r:
    serde_json::Value)
    ensures
        r == *v,
;

/// `serde_json::to_string` on a vector of records. Assumed: the result is
/// the named text.
#[verifier::external_body]
pub(crate) fn to_json(records: &Vec<serde_json::Value>) -> (r: Option<String>)
    ensures
        match r {
            Some(s) => json_text(records@) == Some(s@),
            None => json_text(records@) is None,
        },
{
    serde_json::to_string(records).ok()
}

/// `serde_json::from_str` for a vector of records. Assumed: the result is
/// the named sequence.
#[verifier::external_body]
pub(crate) fn from_json(text: &str) -> (r: Option<Vec<serde_json::Value>>)
    ensures
        match r {
            Some(v) => json_records(text@) == Some(v@),
            None => json_records(text@) is None,
        },
{
    serde_json::from_str::<Vec<serde_json::Value>>(text).ok()
}

/// A payload as contracts see it: absent, or the sequence of its records.
pub open spec fn payload_view(payload: Option<Vec<serde_json::Value>>) -> Option<
    Seq<serde_json::Value>,
> {
    match payload {
        Some(v) => Some(v@),
        None => None,
    }
}

/// The text stored for a payload: nothing for an absent payload; otherwise
/// its JSON text, or the empty text where it has none.
pub open spec fn stored_text(payload: Option<Seq<serde_json::Value>>) -> Option<Seq<char>> {
    match payload {
        Some(records) => Some(
            match json_text(records) {
                Some(text) => text,
                None => Seq::<char>::empty(),
            },
        ),
        None => None,
    }
}

/// The payload read back from a stored column: absent where the column is
/// empty, and also where its text does not parse.
pub open spec fn loaded_payload(column: Option<Seq<char>>) -> Option<Seq<serde_json::Value>> {
    match column {
        Some(text) => json_records(text),
        None => None,
    }
}

/// The JSON codec reads this payload back as it wrote it. Nothing here
/// assumes that of any payload: whether it holds is the codec's business.
pub open spec fn codec_keeps(payload: Option<Seq<serde_json::Value>>) -> bool {
    match payload {
        Some(records) => json_text(records) matches Some(text) && json_records(text) == Some(
            records,
        ),
        None => true,
    }
}

/// Storing a payload and loading what was stored gives the payload back,
/// for every payload that the JSON codec reads back as it wrote it.
pub proof fn stored_payload_loads_back(payload: Option<Seq<serde_json::Value>>)
    requires
        codec_keeps(payload),
    ensures
        loaded_payload(stored_text(payload)) == payload,
{
}

/// The column value under which a payload is stored.
pub fn encode(payload: &Option<Vec<serde_json::Value>>) -> (r: Option<String>)
    ensures
        text_view(r) == stored_text(payload_view(*payload)),
{
    match payload {
        Some(records) => match to_json(records) {
            Some(text) => Some(text),
            None => Some(String::new()),
        },
        None => None,
    }
}

/// The payload held in a stored column. A column that does not parse
/// degrades to an absent payload rather than an error.
pub fn decode(column: &Option<String>) -> (r: Option<Vec<serde_json::Value>>)
    ensures
        payload_view(r) == loaded_payload(text_view(*column)),
{
    match column {
        Some(text) => from_json(text.as_str()),
        None => None,
    }
}

/// A copy of a payload, record for record.
pub fn copy(payload: &Option<Vec<serde_json::Value>>) -> (r: Option<Vec<serde_json::Value>>)
    ensures
        payload_view(r) == payload_view(*payload),
{
    match payload {
        Some(records) => {
            let out = records.clone();
            assert(out@ =~= records@);
            Some(out)
        },
        None => None,
    }
}

} // verus!
