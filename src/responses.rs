use vstd::prelude::*;

use crate::time::now_text;

verus! {

/// Body of a 400 answer.
pub struct BadRequest {
    pub message: String,
    pub timestamp: String,
    pub error_code: u16,
}

impl BadRequest {
    /// A 400 answer with `message`, stamped with the current time.
    pub fn new(message: &str) -> (r: Self)
        ensures
            r.message@ == message@,
            r.error_code == 400,
    {
        Self { message: message.to_owned(), timestamp: now_text(), error_code: 400 }
    }
}

/// Body of a 500 answer.
pub struct InternalServerError {
    pub message: String,
    pub timestamp: String,
    pub error_code: u16,
}

impl InternalServerError {
    /// A 500 answer with `message`, stamped with the current time.
    pub fn new(message: &str) -> (r: InternalServerError)
        ensures
            r.message@ == message@,
            r.error_code == 500,
    {
        InternalServerError { message: message.to_owned(), timestamp: now_text(), error_code: 500 }
    }
}

/// Body of the health probe's answer.
pub struct HealthResponse {
    pub status: String,
}

impl HealthResponse {
    pub fn new(status: &str) -> (r: Self)
        ensures
            r.status@ == status@,
    {
        Self { status: status.to_owned() }
    }
}

} // verus!
