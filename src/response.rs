//! The shape of every answer of the account API.

use crate::status::{spec_status_of, Status};
use vstd::prelude::*;

verus! {

/// A status code, with the fields that come beside it on success.
#[derive(Debug, Clone)]
pub struct TalkStatusResponse<T> {
    pub status: Status,
    pub data: Option<T>,
}

impl<T> TalkStatusResponse<T> {
    /// The answer for a decoded status code and payload; nothing where the
    /// code is unknown.
    pub fn from_status_code(code: i64, data: Option<T>) -> (r: Option<Self>)
        ensures
            r is None <==> spec_status_of(code as int) is None,
            r matches Some(resp) ==> {
                &&& spec_status_of(code as int) == Some(resp.status)
                &&& resp.data == data
            },
    {
        match Status::from_code(code) {
            Some(status) => Some(TalkStatusResponse { status, data }),
            None => None,
        }
    }
}

} // verus!
