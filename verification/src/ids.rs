//! Identifier generation.
//!
//! Fresh identifiers come from the `uuid` crate; nothing is promised about
//! their value beyond shape, since they are drawn at random.

use vstd::prelude::*;
use vstd::string::*;
use crate::strutil::push_char;

verus! {

/// Relies on `uuid::Uuid::new_v4` and its `Display` impl: the hyphenated
/// lowercase form is always 36 ASCII characters.
#[verifier::external_body]
pub fn generate_uuid() -> (r: String)
    ensures
        r@.len() == 36,
{
    uuid::Uuid::new_v4().to_string()
}

/// Relies on `uuid::Uuid::new_v4` and its `Display` impl: the hyphenated
/// form is 36 ASCII characters, of which the first eight are hex digits.
#[verifier::external_body]
pub fn generate_short_id() -> (r: String)
    ensures
        r@.len() == 8,
{
    let id = uuid::Uuid::new_v4().to_string();
    id[..8].to_string()
}

/// Builds an id of the form `<prefix>_<short id>`.
pub fn generate_prefixed_id(prefix: &str) -> (r: String)
    ensures
        r@.len() == prefix@.len() + 9,
        r@.subrange(0, prefix@.len() as int) == prefix@,
        r@[prefix@.len() as int] == '_',
{
    let short = generate_short_id();
    let mut s = prefix.to_owned();
    push_char(&mut s, '_');
    s.append(short.as_str());
    proof {
        assert(s@.subrange(0, prefix@.len() as int) =~= prefix@);
    }
    s
}

} // verus!
