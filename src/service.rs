//! The authentication service: routing and the login, register and validate
//! decisions. Each operation is a short pipeline with early exits; no state
//! is kept between calls.

use vstd::prelude::*;
use crate::credential::{compare, encrypt, password_matches};
use crate::error::CustomError;
use crate::model::{Login, User};
use crate::repository::{AuthRepository, DbConnection};
use crate::request::{Method, Request, RequestView};
use crate::response::{Response, Status};
use crate::token::{
    bearer_token, bearer_value, check_claims, is_token_text, verify_claims, verify_jwt, Claims,
    TokenIssuer,
};

verus! {

/// Body of every refused login, whether the name is unknown or the password wrong.
pub const INCORRECT_CREDENTIALS: &'static str = "Username or password is incorrect";

/// Body of the 404 answer to a login whose body could not be decoded.
pub const BODY_NOT_VALID: &'static str = "body not valid";

/// Body of a response to a registration whose body could not be decoded.
pub const INVALID_BODY: &'static str = "invalid body";

/// Body of a response to registering a name that is taken.
pub const ALREADY_REGISTERED: &'static str = "User already registered";

/// Body of a response to an unknown route.
pub const UNKNOWN_ROUTE: &'static str = "404 Not Found";

/// `r` has status `s` and body `body`.
pub open spec fn responds(r: Response, s: Status, body: Seq<char>) -> bool {
    r.status == s && r.body@ == body
}

/// The one response to refused credentials.
pub open spec fn refused(r: Response) -> bool {
    responds(r, Status::Unauthorized, INCORRECT_CREDENTIALS@)
}

/// An internal error, with no detail.
pub open spec fn internal(r: Response) -> bool {
    responds(r, Status::InternalError, Seq::empty())
}

/// The body of a successful login: `{"token":"<t>"}`.
pub open spec fn token_body(t: Seq<char>) -> Seq<char> {
    seq!['{', '"', 't', 'o', 'k', 'e', 'n', '"', ':', '"'] + t + seq!['"', '}']
}

/// A successful login: status 200 with a signed token in the body.
pub open spec fn issued(r: Response) -> bool {
    r.status == Status::Success && exists|t: Seq<char>| is_token_text(t) && r.body@ == token_body(t)
}

#[derive(PartialEq, Eq, Structural, Clone, Copy, Debug)]
pub enum Route {
    Login,
    Register,
    Validate,
    Unknown,
}

pub open spec fn route_of(v: RequestView) -> Route {
    if v.method == Method::POST && v.path == "/login"@ {
        Route::Login
    } else if v.method == Method::POST && v.path == "/register"@ {
        Route::Register
    } else if v.method == Method::GET && v.path == "/validate"@ {
        Route::Validate
    } else {
        Route::Unknown
    }
}

/// Picks the operation for a request by its method and path.
pub fn route(request: &Request) -> (r: Route)
    ensures
        r == route_of(request@),
{
    let login = String::from_str("/login");
    let register = String::from_str("/register");
    let validate = String::from_str("/validate");
    match request.method {
        Method::POST => {
            if request.path == login {
                Route::Login
            } else if request.path == register {
                Route::Register
            } else {
                Route::Unknown
            }
        },
        Method::GET => {
            if request.path == validate {
                Route::Validate
            } else {
                Route::Unknown
            }
        },
    }
}

/// The answer to a route that no operation serves.
pub fn not_found() -> (r: Response)
    ensures
        responds(r, Status::NotFound, UNKNOWN_ROUTE@),
{
    Response::new(Status::NotFound, UNKNOWN_ROUTE)
}

/// The answer to a request that could not be decoded: status 400 and the reason.
pub fn bad_request(reason: &str) -> (r: Response)
    ensures
        responds(r, Status::BadRequest, reason@),
{
    Response::new(Status::BadRequest, reason)
}

/// The token carried by a request's `Authorization` header, if any.
pub open spec fn request_bearer(v: RequestView) -> Option<Seq<char>> {
    if v.headers.contains_key("authorization"@) {
        bearer_token(v.headers["authorization"@])
    } else {
        None
    }
}

pub struct AuthService {
    pub issuer: TokenIssuer,
    /// bcrypt cost used when hashing new passwords.
    pub hash_cost: u32,
}

impl AuthService {
    pub fn new(issuer: TokenIssuer, hash_cost: u32) -> (r: Self)
        ensures
            r.issuer == issuer,
            r.hash_cost == hash_cost,
    {
        AuthService { issuer, hash_cost }
    }

    /// The answer once signing is done: 200 with the token, or an internal error.
    pub fn token_response(signed: Result<String, CustomError>) -> (r: Response)
        ensures
            match signed {
                Ok(t) => responds(r, Status::Success, token_body(t@)),
                Err(_) => internal(r),
            },
    {
        match signed {
            Ok(t) => {
                let mut body = String::from_str("{\"token\":\"");
                body.append(t.as_str());
                body.append("\"}");
                proof {
                    reveal_strlit("{\"token\":\"");
                    reveal_strlit("\"}");
                }
                assert(body@ =~= token_body(t@));
                Response { status: Status::Success, body }
            },
            Err(_) => Response::empty(Status::InternalError),
        }
    }

    /// The login decision once the user has been looked up: an unknown name
    /// and a wrong password get the same answer; a match gets a signed token.
    pub fn login_checked(&self, creds: &Login, stored: Result<User, CustomError>, now: u64) -> (r:
        Response)
        ensures
            match stored {
                Err(CustomError::UserNotFound) => refused(r),
                Err(_) => internal(r),
                Ok(u) => if !password_matches(creds.password@, u.password@) {
                    refused(r)
                } else if self.issuer.signing_key is None || now + self.issuer.ttl > u64::MAX {
                    internal(r)
                } else {
                    issued(r) || internal(r)
                },
            },
    {
        let user = match stored {
            Ok(u) => u,
            Err(CustomError::UserNotFound) => {
                return Response::new(Status::Unauthorized, INCORRECT_CREDENTIALS);
            },
            Err(_) => {
                return Response::empty(Status::InternalError);
            },
        };
        if !compare(creds.password.as_str(), user.password.as_str()) {
            return Response::new(Status::Unauthorized, INCORRECT_CREDENTIALS);
        }
        let signed = self.issuer.create_jwt(&user, now);
        let r = Self::token_response(signed);
        proof {
            if signed is Ok {
                assert(is_token_text(signed->Ok_0@));
            }
        }
        r
    }

    /// Login: credentials that could not be decoded get 404 `body not valid`
    /// (no detail of what failed, no lookup); otherwise the user is looked up
    /// and `login_checked` decides.
    pub fn login<DB: DbConnection>(
        &self,
        repository: &AuthRepository<DB>,
        creds: Option<Login>,
        now: u64,
    ) -> (r: Response)
        ensures
            creds is None ==> responds(r, Status::NotFound, BODY_NOT_VALID@),
            creds is Some ==> refused(r) || internal(r) || issued(r),
    {
        match creds {
            None => Response::new(Status::NotFound, BODY_NOT_VALID),
            Some(c) => {
                let stored = repository.query_user(c.username.as_str());
                self.login_checked(&c, stored, now)
            },
        }
    }

    /// The user to store for `creds`: the name as given, the password hashed,
    /// no id yet, created at `now`.
    pub fn new_user(&self, creds: &Login, now: u64) -> (r: Result<User, CustomError>)
        ensures
            match r {
                Ok(u) => u.user_id is None && u.username@ == creds.username@
                    && u.password@.len() == 60 && password_matches(creds.password@, u.password@)
                    && u.created_at == now,
                Err(e) => e == CustomError::HashError,
            },
            !(4 <= self.hash_cost <= 31) ==> r is Err,
    {
        match encrypt(creds.password.as_str(), self.hash_cost) {
            Ok(hashed) => Ok(
                User {
                    user_id: None,
                    username: creds.username.clone(),
                    password: hashed,
                    created_at: now,
                },
            ),
            Err(e) => Err(e),
        }
    }

    /// The answer once the insertion is done: 204, 400 for a taken name, or an internal error.
    pub fn register_outcome(inserted: Result<i32, CustomError>) -> (r: Response)
        ensures
            match inserted {
                Ok(_) => responds(r, Status::NoContent, Seq::empty()),
                Err(CustomError::UsernameExists) => responds(
                    r,
                    Status::BadRequest,
                    ALREADY_REGISTERED@,
                ),
                Err(_) => internal(r),
            },
    {
        match inserted {
            Ok(_) => Response::empty(Status::NoContent),
            Err(CustomError::UsernameExists) => Response::new(
                Status::BadRequest,
                ALREADY_REGISTERED,
            ),
            Err(_) => Response::empty(Status::InternalError),
        }
    }

    /// Register: credentials that could not be decoded get 400; otherwise the
    /// password is hashed, the user stored, and `register_outcome` answers.
    pub fn register<DB: DbConnection>(
        &self,
        repository: &mut AuthRepository<DB>,
        creds: Option<Login>,
        now: u64,
    ) -> (r: Response)
        ensures
            creds is None ==> responds(r, Status::BadRequest, INVALID_BODY@) && *final(repository)
                == *old(repository),
            creds is Some ==> responds(r, Status::NoContent, Seq::empty()) || responds(
                r,
                Status::BadRequest,
                ALREADY_REGISTERED@,
            ) || internal(r),
            creds is Some && !(4 <= self.hash_cost <= 31) ==> internal(r),
    {
        match creds {
            None => Response::new(Status::BadRequest, INVALID_BODY),
            Some(c) => match self.new_user(&c, now) {
                Err(_) => Response::empty(Status::InternalError),
                Ok(user) => Self::register_outcome(repository.insert_user(&user)),
            },
        }
    }

    /// The bearer token of a request, or the 401 answer when there is none.
    pub fn bearer(request: &Request) -> (r: Result<String, Response>)
        ensures
            match request_bearer(request@) {
                Some(t) => r is Ok && r->Ok_0@ == t,
                None => r is Err && responds(r->Err_0, Status::Unauthorized, Seq::empty()),
            },
    {
        match request.header("authorization") {
            Some(v) => match bearer_value(v.as_str()) {
                Some(t) => Ok(t),
                None => Err(Response::empty(Status::Unauthorized)),
            },
            None => Err(Response::empty(Status::Unauthorized)),
        }
    }

    /// Validate a bearer token: 200 when its signature checks against `key`
    /// and its claims hold at `now`, 401 otherwise; both with an empty body.
    pub fn validate_token(token: &str, key: &jsonwebtoken::DecodingKey, now: u64) -> (r: Response)
        ensures
            responds(r, Status::Success, Seq::empty()) || responds(
                r,
                Status::Unauthorized,
                Seq::empty(),
            ),
    {
        match verify_jwt(token, key, now) {
            Ok(_) => Response::empty(Status::Success),
            Err(_) => Response::empty(Status::Unauthorized),
        }
    }

    /// Validate, once the token's signature has been checked and its claims
    /// decoded (`None` where that failed): 200 while the claims hold at `now`,
    /// 401 otherwise.
    pub fn validate(decoded: Option<Claims>, now: u64) -> (r: Response)
        ensures
            match decoded {
                Some(c) => match check_claims(c@, now) {
                    Ok(_) => responds(r, Status::Success, Seq::empty()),
                    Err(_) => responds(r, Status::Unauthorized, Seq::empty()),
                },
                None => responds(r, Status::Unauthorized, Seq::empty()),
            },
    {
        match verify_claims(decoded, now) {
            Ok(_) => Response::empty(Status::Success),
            Err(_) => Response::empty(Status::Unauthorized),
        }
    }
}

} // verus!
