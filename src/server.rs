//! What a connection handler does with the text of one request before any
//! outside work: decode it, answer what needs no store or token check, and
//! say which operation is left to run.

use vstd::prelude::*;
use crate::request::{decode_error_text, request_model, Request};
use crate::response::{Response, Status};
use crate::service::{
    bad_request, not_found, request_bearer, responds, route, route_of, AuthService, Route,
    UNKNOWN_ROUTE,
};

verus! {

/// The next step for one request.
pub enum Dispatch {
    /// Write this response.
    Reply(Response),
    /// Decode the body as credentials and log in.
    Login(String),
    /// Decode the body as credentials and register.
    Register(String),
    /// Check this bearer token's signature, then validate its claims.
    Validate(String),
}

/// Decodes `raw` and picks the next step: 400 with the reason for a request
/// that does not decode, 404 for an unknown route, 401 for a validation
/// without a bearer token.
pub fn dispatch(raw: &str) -> (r: Dispatch)
    ensures
        match request_model(raw@) {
            Err(e) => r is Reply && responds(r->Reply_0, Status::BadRequest, decode_error_text(e)),
            Ok(v) => match route_of(v) {
                Route::Login => r is Login && r->Login_0@ == v.body,
                Route::Register => r is Register && r->Register_0@ == v.body,
                Route::Validate => match request_bearer(v) {
                    Some(t) => r is Validate && r->Validate_0@ == t,
                    None => r is Reply && responds(r->Reply_0, Status::Unauthorized, Seq::empty()),
                },
                Route::Unknown => r is Reply && responds(
                    r->Reply_0,
                    Status::NotFound,
                    UNKNOWN_ROUTE@,
                ),
            },
        },
{
    let request = match Request::new(raw) {
        Ok(q) => q,
        Err(e) => {
            return Dispatch::Reply(bad_request(e.message()));
        },
    };
    match route(&request) {
        Route::Login => Dispatch::Login(request.body),
        Route::Register => Dispatch::Register(request.body),
        Route::Validate => match AuthService::bearer(&request) {
            Ok(token) => Dispatch::Validate(token),
            Err(refused) => Dispatch::Reply(refused),
        },
        Route::Unknown => Dispatch::Reply(not_found()),
    }
}

} // verus!
