//! Block identifiers: each block instance gets a fresh, process-unique
//! identifier at construction, used to correlate wake signals and click
//! events back to the instance.

use vstd::prelude::*;

verus! {

/// Relies on `uuid::Uuid::new_v4` and the `Simple` display format: a
/// random version-4 identifier rendered as exactly 32 hexadecimal digits.
/// The value is random, so nothing beyond its shape is stated.
#[verifier::external_body]
pub(crate) fn new_block_id() -> (r: String)
    ensures
        r@.len() == 32,
{
    uuid::Uuid::new_v4().simple().to_string()
}

} // verus!
