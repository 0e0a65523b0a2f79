//! Serving the client's files: what is sent for a path that names no file.

use vstd::prelude::*;

verus! {

/// The status of a response for a path that names no file.
pub const NOT_FOUND: u16 = 404;

/// The path of the entry page.
pub const INDEX_PATH: &'static str = "/";

/// Whether the entry page is sent in place of a response with the status
/// `status`: the client routes paths of its own, so a path that names no
/// file gets the entry page, and every other response is sent as it is.
pub fn falls_back_to_index(status: u16) -> (fallback: bool)
    ensures
        fallback == (status == NOT_FOUND),
{
    status == NOT_FOUND
}

} // verus!
