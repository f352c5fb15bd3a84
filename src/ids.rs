use vstd::prelude::*;

verus! {

pub open spec fn is_uuid_char(c: char) -> bool {
    ('0' <= c && c <= '9') || ('a' <= c && c <= 'f') || c == '-'
}

/// Relies on uuid::Uuid::new_v4 and its `Display`: a random identifier
/// written in the hyphenated form, 36 lower-case hex digits and hyphens.
#[verifier::external_body]
pub(crate) fn new_id() -> (r: String)
    ensures
        r@.len() == 36,
        forall|i: int| 0 <= i < r@.len() ==> is_uuid_char(#[trigger] r@[i]),
{
    uuid::Uuid::new_v4().to_string()
}

} // verus!
