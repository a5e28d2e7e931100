//! From a decoded query to the answer: a status, and a body to go with it.

use vstd::prelude::*;

use crate::params::{HelloParams, MISSING_NAME};
use crate::response::{greeting, HelloWorldResponse};

verus! {

/// The two ways a request ends.
#[derive(Debug, Clone, Copy, PartialEq, Eq, Structural)]
pub enum Status {
    /// The greeting is in the body.
    Success,
    /// The query named nobody.
    BadRequest,
}

impl Status {
    /// The status as HTTP numbers it.
    pub open spec fn spec_code(&self) -> u16 {
        match self {
            Status::Success => 200,
            Status::BadRequest => 400,
        }
    }

    /// The number that goes on the status line: 200 or 400.
    #[verifier::when_used_as_spec(spec_code)]
    pub fn code(&self) -> (number: u16)
        ensures
            number == self.spec_code(),
    {
        match self {
            Status::Success => 200,
            Status::BadRequest => 400,
        }
    }
}

/// Answers one request. A query that names somebody is greeted, with
/// [`Status::Success`]; any other is refused with [`Status::BadRequest`] and a line
/// of plain text that says what is missing.
pub fn root(params: HelloParams) -> (answer: Result<
    (Status, HelloWorldResponse),
    (Status, &'static str),
>)
    ensures
        answer is Ok <==> params.has_name(),
        answer matches Ok((status, body)) ==> status == Status::Success && body@ == greeting(
            params@->0,
        ),
        answer matches Err((status, text)) ==> status == Status::BadRequest && text@
            == MISSING_NAME@,
{
    match params.validate() {
        Ok(name) => Ok((Status::Success, HelloWorldResponse::greet(name.as_str()))),
        Err(error) => Err((Status::BadRequest, error.message())),
    }
}

} // verus!
