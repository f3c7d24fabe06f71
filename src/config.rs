//! The service's configuration, assembled from values read at startup.

use vstd::prelude::*;
use crate::error::{CustomError, EnvVar};

verus! {

pub struct Config {
    /// PEM text of the RSA private key; line breaks may be written as `\n`.
    pub jwt_private_key: String,
    /// PEM text of the matching RSA public key.
    pub jwt_public_key: String,
    pub database_url: String,
}

/// Builds the configuration; the first missing value, in the order of the
/// parameters, is reported.
pub fn init_config(
    jwt_private_key: Option<String>,
    jwt_public_key: Option<String>,
    database_url: Option<String>,
) -> (r: Result<Config, CustomError>)
    ensures
        jwt_private_key is None ==> r == Err::<Config, CustomError>(
            CustomError::EnvError(EnvVar::JwtPrivateKey),
        ),
        jwt_private_key is Some && jwt_public_key is None ==> r == Err::<Config, CustomError>(
            CustomError::EnvError(EnvVar::JwtPublicKey),
        ),
        jwt_private_key is Some && jwt_public_key is Some && database_url is None ==> r == Err::<
            Config,
            CustomError,
        >(CustomError::EnvError(EnvVar::DatabaseUrl)),
        r is Ok ==> jwt_private_key == Some(r->Ok_0.jwt_private_key) && jwt_public_key == Some(
            r->Ok_0.jwt_public_key,
        ) && database_url == Some(r->Ok_0.database_url),
        jwt_private_key is Some && jwt_public_key is Some && database_url is Some ==> r is Ok,
{
    let jwt_private_key = match jwt_private_key {
        Some(v) => v,
        None => {
            return Err(CustomError::EnvError(EnvVar::JwtPrivateKey));
        },
    };
    let jwt_public_key = match jwt_public_key {
        Some(v) => v,
        None => {
            return Err(CustomError::EnvError(EnvVar::JwtPublicKey));
        },
    };
    let database_url = match database_url {
        Some(v) => v,
        None => {
            return Err(CustomError::EnvError(EnvVar::DatabaseUrl));
        },
    };
    Ok(Config { jwt_private_key, jwt_public_key, database_url })
}

} // verus!
