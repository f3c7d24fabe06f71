//! Status lines of the responses.

use vstd::prelude::*;

verus! {

pub const OK_RESPONSE: &'static str = "HTTP/1.1 200 OK\r\nContent-Type: application/json\r\n\r\n";

pub const NO_CONTENT: &'static str = "HTTP/1.1 204 No Content\r\n\r\n";

pub const BAD_REQUEST: &'static str = "HTTP/1.1 400 Bad Request\r\n\r\n";

pub const UNAUTHORIZED: &'static str = "HTTP/1.1 401 Unauthorized\r\n\r\n";

pub const NOT_FOUND: &'static str = "HTTP/1.1 404 NOT FOUND\r\n\r\n";

pub const INTERNAL_ERROR: &'static str = "HTTP/1.1 500 INTERNAL ERROR\r\n\r\n";

} // verus!
