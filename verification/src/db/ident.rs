//! Fresh identifiers for threads and messages.

use vstd::prelude::*;

verus! {

/// The length of an identifier's text: 32 hexadecimal digits in five groups,
/// with a hyphen between groups.
pub open spec fn id_len() -> nat {
    36
}

/// `uuid::Uuid::new_v4` written out with `to_string`: a random 128-bit
/// identifier in hyphenated form. Assumed: only the length of that form; the
/// value itself is chance.
#[verifier::external_body]
pub(crate) fn fresh_id() -> (r: String)
    ensures
        r@.len() == id_len(),
{
    uuid::Uuid::new_v4().to_string()
}

} // verus!
