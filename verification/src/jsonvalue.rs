//! Declaration of the open-ended JSON value type.
//!
//! Node and edge records carry a free-form data bag whose entries the
//! store never interprets, only preserves. The values are
//! `serde_json::Value`, declared here so they can sit in fields and be
//! carried through unchanged; the store makes no claim about their
//! contents.

use vstd::prelude::*;

verus! {

#[verifier::external_type_specification]
#[verifier::external_body]
pub struct ExJsonValue(serde_json::Value);

} // verus!
