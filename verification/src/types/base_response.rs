//! The bodies of API responses: a payload with a message, or an error message.
use vstd::prelude::*;

verus! {

/// A successful response body: the payload and a message.
#[derive(Debug)]
pub struct BaseResponse<T> {
    pub data: T,
    pub message: String,
}

impl<T> BaseResponse<T> {
    /// Wraps `data` with the message "Success".
    pub fn from(data: T) -> (response: Self)
        ensures
            response.data == data,
            response.message@ == "Success"@,
    {
        BaseResponse { data, message: String::from_str("Success") }
    }
}

/// An error response body.
#[derive(Debug, Clone, PartialEq, Eq)]
pub struct ErrorResponse {
    pub message: String,
}

impl ErrorResponse {
    /// An error body carrying `message`.
    pub fn from(message: String) -> (response: Self)
        ensures
            response.message == message,
    {
        ErrorResponse { message }
    }
}

/// The message of an optional override, or the default text.
pub open spec fn message_or(message: Option<String>, default: Seq<char>) -> Seq<char> {
    match message {
        Some(m) => m@,
        None => default,
    }
}

} // verus!
