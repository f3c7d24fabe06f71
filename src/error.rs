//! The failures that the library reports.

use vstd::prelude::*;

verus! {

/// A configuration value that must be present.
#[derive(PartialEq, Eq, Structural, Clone, Copy, Debug)]
pub enum EnvVar {
    JwtPrivateKey,
    JwtPublicKey,
    DatabaseUrl,
}

/// The environment variable that holds each value.
pub open spec fn env_var_name(v: EnvVar) -> Seq<char> {
    match v {
        EnvVar::JwtPrivateKey => "JWT_PRIVATE_KEY"@,
        EnvVar::JwtPublicKey => "JWT_PUBLIC_KEY"@,
        EnvVar::DatabaseUrl => "DATABASE_URL"@,
    }
}

impl EnvVar {
    pub fn name(&self) -> (r: &'static str)
        ensures
            r@ == env_var_name(*self),
    {
        match self {
            EnvVar::JwtPrivateKey => "JWT_PRIVATE_KEY",
            EnvVar::JwtPublicKey => "JWT_PUBLIC_KEY",
            EnvVar::DatabaseUrl => "DATABASE_URL",
        }
    }
}

#[derive(PartialEq, Eq, Structural, Clone, Copy, Debug)]
pub enum CustomError {
    /// A configuration value is missing.
    EnvError(EnvVar),
    /// Hashing a password failed.
    HashError,
    /// The private key is absent or malformed.
    KeyLoadError,
    /// Signing the claims failed.
    EncodeError,
    /// Bad signature or malformed token.
    InvalidToken,
    /// The token's expiration has passed.
    ExpiredToken,
    /// No user has the requested name.
    UserNotFound,
    /// The name is taken.
    UsernameExists,
    /// The user already has an account.
    AccountExists,
    /// The store failed.
    DBError,
}

/// The short, detail-free text of each failure.
pub open spec fn error_text(e: CustomError) -> Seq<char> {
    match e {
        CustomError::EnvError(_) => "Missing configuration value"@,
        CustomError::HashError => "Error hashing password"@,
        CustomError::KeyLoadError => "Error loading private key"@,
        CustomError::EncodeError => "Error encoding token"@,
        CustomError::InvalidToken => "Invalid token"@,
        CustomError::ExpiredToken => "Expired token"@,
        CustomError::UserNotFound => "User not found"@,
        CustomError::UsernameExists => "Username already exists"@,
        CustomError::AccountExists => "Account already exists"@,
        CustomError::DBError => "Database error"@,
    }
}

impl CustomError {
    pub fn message(&self) -> (r: &'static str)
        ensures
            r@ == error_text(*self),
    {
        match self {
            CustomError::EnvError(_) => "Missing configuration value",
            CustomError::HashError => "Error hashing password",
            CustomError::KeyLoadError => "Error loading private key",
            CustomError::EncodeError => "Error encoding token",
            CustomError::InvalidToken => "Invalid token",
            CustomError::ExpiredToken => "Expired token",
            CustomError::UserNotFound => "User not found",
            CustomError::UsernameExists => "Username already exists",
            CustomError::AccountExists => "Account already exists",
            CustomError::DBError => "Database error",
        }
    }
}

} // verus!
