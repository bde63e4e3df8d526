//! The error that a tool answers with: a numeric code in the manner of an
//! HTTP status, and a message for the caller.
use vstd::prelude::*;

verus! {

/// A refused tool call.
pub struct ToolError {
    pub code: i32,
    pub message: String,
}

/// The code of a request that the caller got wrong.
pub const BAD_REQUEST: i32 = 400;

/// The code of something asked for that does not exist.
pub const NOT_FOUND: i32 = 404;

/// The code of a failure on the server's side or upstream.
pub const INTERNAL_ERROR: i32 = 500;

} // verus!
