//! A success-flagged result record handed to callers.

use vstd::prelude::*;
use vstd::string::*;

verus! {

/// Outcome of a metadata operation: a flag, a message, and the data on
/// success.
#[derive(Debug)]
pub struct MetaResult<T> {
    pub success: bool,
    pub message: String,
    pub data: Option<T>,
}

impl<T> MetaResult<T> {
    pub fn ok(data: T, message: &str) -> (r: Self)
        ensures
            r.success,
            r.message@ == message@,
            r.data == Some(data),
    {
        MetaResult { success: true, message: message.to_owned(), data: Some(data) }
    }

    pub fn err(message: &str) -> (r: Self)
        ensures
            !r.success,
            r.message@ == message@,
            r.data is None,
    {
        MetaResult { success: false, message: message.to_owned(), data: None }
    }
}

} // verus!
