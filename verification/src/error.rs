use vstd::prelude::*;

use crate::models::response::ResponseBody;

verus! {

/// A failed request: the HTTP status to answer with and a body whose message
/// says why, with empty data.
#[derive(Debug)]
pub struct ServiceError {
    pub body: ResponseBody<String>,
    pub http_status: u16,
}

impl ServiceError {
    pub fn new(http_status: u16, message: String) -> (res: ServiceError)
        ensures
            res.is(http_status, message@),
    {
        ServiceError { http_status, body: ResponseBody { message, data: String::new() } }
    }

    /// This error has the given status and message, and empty data.
    pub open spec fn is(self, http_status: u16, message: Seq<char>) -> bool {
        &&& self.http_status == http_status
        &&& self.body.message@ == message
        &&& self.body.data@ == Seq::<char>::empty()
    }
}

} // verus!
