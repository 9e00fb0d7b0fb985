//! The envelope of every response that reports success.

use vstd::prelude::*;

verus! {

#[derive(Debug)]
pub struct ApiSuccess<T> {
    pub success: bool,
    pub data: T,
    pub message: Option<String>,
}

impl<T> ApiSuccess<T> {
    /// The envelope of `data`, without a message.
    pub fn new(data: T) -> (r: ApiSuccess<T>)
        ensures
            r.success,
            r.data == data,
            r.message is None,
    {
        ApiSuccess { success: true, data, message: None }
    }

    /// The envelope of `data`, with a message.
    pub fn with_message(data: T, message: String) -> (r: ApiSuccess<T>)
        ensures
            r.success,
            r.data == data,
            r.message == Some(message),
    {
        ApiSuccess { success: true, data, message: Some(message) }
    }
}

} // verus!
