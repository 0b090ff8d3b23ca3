//! What every call gets anew: an identifier and the time.

use vstd::prelude::*;

verus! {

/// A random identifier from `uuid::Uuid::new_v4`, in its hyphenated form.
/// Trusted; nothing is claimed of the text, which differs from call to
/// call.
#[verifier::external_body]
pub(crate) fn fresh_id() -> (r: String) {
    uuid::Uuid::new_v4().to_string()
}

/// The time of the call from `chrono::Utc::now`, written by `to_rfc3339`.
/// Trusted; nothing is claimed of the text.
#[verifier::external_body]
pub(crate) fn timestamp() -> (r: String) {
    chrono::Utc::now().to_rfc3339()
}

} // verus!
