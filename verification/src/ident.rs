//! Fresh identifiers for messages, artifacts and tasks.

use vstd::prelude::*;

verus! {

/// `Uuid::new_v4` of `uuid`, written in its hyphenated form: a random
/// identifier of 36 characters.
#[verifier::external_body]
pub(crate) fn fresh_id() -> (id: String)
    ensures
        id@.len() == 36,
{
    uuid::Uuid::new_v4().to_string()
}

} // verus!
