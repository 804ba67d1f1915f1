use vstd::prelude::*;

verus! {

/// Relies on uuid::Uuid::new_v4 and its hyphenated `Display`: a fresh random
/// id, always 36 characters long.
#[verifier::external_body]
pub(crate) fn fresh_id() -> (r: String)
    ensures
        r@.len() == 36,
{
    uuid::Uuid::new_v4().to_string()
}

/// Relies on chrono::Utc::now and DateTime::to_rfc3339: the current time as an
/// ISO-8601 string.
#[verifier::external_body]
pub(crate) fn now_rfc3339() -> (r: String) {
    chrono::Utc::now().to_rfc3339()
}

/// The id a new row is stored under: the caller's id where one was given,
/// else a freshly generated one.
pub fn resolve_id(given: &String) -> (r: String)
    ensures
        given@.len() > 0 ==> r@ == given@,
        given@.len() == 0 ==> r@.len() == 36,
{
    if given.as_str().is_empty() {
        fresh_id()
    } else {
        given.clone()
    }
}

} // verus!
