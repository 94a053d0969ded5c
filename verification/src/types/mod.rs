//! The parameter and response types of the API resources.

use vstd::prelude::*;

pub mod admin;
pub mod files;

verus! {

/// The `OffsetDateTime` of time: a moment as a response gives it, carried
/// through unopened.
#[verifier::external_type_specification]
#[verifier::external_body]
pub struct ExOffsetDateTime(time::OffsetDateTime);

} // verus!
