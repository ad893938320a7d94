//! The dashboard page: the bytes of the template as read, or a server error.

use vstd::prelude::*;

verus! {

/// The status that answers a request whose template could not be read.
pub const INTERNAL_SERVER_ERROR: u16 = 500;

/// The answer to a request for the dashboard: the bytes of the template
/// exactly as they were read for this request, or the server-error status
/// where it could not be read.
pub fn root_page(template: Option<Vec<u8>>) -> (page: Result<Vec<u8>, u16>)
    ensures
        match template {
            Some(content) => page matches Ok(body) && body@ == content@,
            None => page == Err::<Vec<u8>, u16>(INTERNAL_SERVER_ERROR),
        },
{
    match template {
        Some(content) => Ok(content),
        None => Err(INTERNAL_SERVER_ERROR),
    }
}

} // verus!
