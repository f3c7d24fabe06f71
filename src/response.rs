//! Responses: a status and a body, written out as one piece of text.

use vstd::prelude::*;
use crate::constants::{BAD_REQUEST, INTERNAL_ERROR, NOT_FOUND, NO_CONTENT, OK_RESPONSE, UNAUTHORIZED};

verus! {

#[derive(PartialEq, Eq, Structural, Clone, Copy, Debug)]
pub enum Status {
    Success,
    NoContent,
    BadRequest,
    Unauthorized,
    NotFound,
    InternalError,
}

pub open spec fn status_line(s: Status) -> Seq<char> {
    match s {
        Status::Success => OK_RESPONSE@,
        Status::NoContent => NO_CONTENT@,
        Status::BadRequest => BAD_REQUEST@,
        Status::Unauthorized => UNAUTHORIZED@,
        Status::NotFound => NOT_FOUND@,
        Status::InternalError => INTERNAL_ERROR@,
    }
}

impl Status {
    pub fn line(&self) -> (r: &'static str)
        ensures
            r@ == status_line(*self),
    {
        match self {
            Status::Success => OK_RESPONSE,
            Status::NoContent => NO_CONTENT,
            Status::BadRequest => BAD_REQUEST,
            Status::Unauthorized => UNAUTHORIZED,
            Status::NotFound => NOT_FOUND,
            Status::InternalError => INTERNAL_ERROR,
        }
    }
}

pub struct Response {
    pub status: Status,
    pub body: String,
}

impl Response {
    pub fn new(status: Status, body: &str) -> (r: Response)
        ensures
            r.status == status,
            r.body@ == body@,
    {
        Response { status, body: String::from_str(body) }
    }

    /// A response with an empty body.
    pub fn empty(status: Status) -> (r: Response)
        ensures
            r.status == status,
            r.body@ == Seq::<char>::empty(),
    {
        Response { status, body: String::new() }
    }

    /// The text written to the connection: the status line, then the body.
    pub fn text(&self) -> (r: String)
        ensures
            r@ == status_line(self.status) + self.body@,
    {
        let mut out = String::from_str(self.status.line());
        out.append(self.body.as_str());
        out
    }
}

} // verus!
