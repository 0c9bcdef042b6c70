use vstd::prelude::*;

verus! {

/// The JSON envelope of every answer: a message and a payload.
#[derive(Debug)]
pub struct ResponseBody<T> {
    pub message: String,
    pub data: T,
}

impl<T> ResponseBody<T> {
    pub fn new(message: &str, data: T) -> (res: ResponseBody<T>)
        ensures
            res.message@ == message@,
            res.data == data,
    {
        ResponseBody { message: message.to_owned(), data }
    }
}

} // verus!
