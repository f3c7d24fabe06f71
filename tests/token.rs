use rand::rngs::StdRng;
use rand::SeedableRng;
use rsa::pkcs1::{EncodeRsaPrivateKey, EncodeRsaPublicKey, LineEnding};
use rsa::RsaPrivateKey;
use stockbit_auth::error::CustomError;
use stockbit_auth::model::User;
use stockbit_auth::text::normalize_newlines;
use stockbit_auth::token::{
    bearer_value, extract_token, load_decoding_key, verify_claims, verify_jwt, Claims, TokenIssuer,
};

/// An RSA key pair generated from a fixed seed: the private key written on one line with escaped
/// line breaks (as an environment variable holds it), the public key as PEM.
fn key_pair() -> (String, String) {
    let mut rng = StdRng::seed_from_u64(5);
    let key = RsaPrivateKey::new(&mut rng, 2048).unwrap();
    let private = key.to_pkcs1_pem(LineEnding::LF).unwrap().to_string();
    let public = key.to_public_key().to_pkcs1_pem(LineEnding::LF).unwrap();
    (private.replace('\n', "\\n"), public)
}

const NOW: u64 = 1_700_000_000;

fn user(name: &str) -> User {
    User { user_id: Some(1), username: name.to_string(), password: String::new(), created_at: NOW }
}

#[test]
fn issued_token_verifies_to_its_subject() {
    let (private, public) = key_pair();
    let issuer = TokenIssuer::new(&private, 86_400);
    let token = issuer.create_jwt(&user("alice"), NOW).unwrap();
    assert_eq!(token.split('.').count(), 3);
    let key = load_decoding_key(&public).unwrap();
    assert_eq!(verify_jwt(&token, &key, NOW), Ok("alice".to_string()));
    assert_eq!(verify_jwt(&token, &key, NOW + 86_399), Ok("alice".to_string()));
    assert_eq!(verify_jwt(&token, &key, NOW + 86_400), Err(CustomError::ExpiredToken));
}

#[test]
fn token_with_zero_ttl_is_expired() {
    let (private, public) = key_pair();
    let issuer = TokenIssuer::new(&private, 0);
    let token = issuer.create_jwt(&user("alice"), NOW).unwrap();
    let key = load_decoding_key(&public).unwrap();
    assert_eq!(verify_jwt(&token, &key, NOW), Err(CustomError::ExpiredToken));
}

#[test]
fn token_checked_after_expiry_is_expired() {
    let c = Claims { sub: "alice".to_string(), exp: NOW };
    assert_eq!(verify_claims(Some(c), NOW + 1), Err(CustomError::ExpiredToken));
    let c = Claims { sub: "alice".to_string(), exp: NOW + 1 };
    assert_eq!(verify_claims(Some(c), NOW), Ok("alice".to_string()));
}

#[test]
fn undecodable_token_is_invalid() {
    assert_eq!(verify_claims(None, NOW), Err(CustomError::InvalidToken));
}

#[test]
fn tampered_signature_does_not_decode() {
    let (private, public) = key_pair();
    let issuer = TokenIssuer::new(&private, 86_400);
    let token = issuer.create_jwt(&user("alice"), NOW).unwrap();
    let last = token.len() - 5;
    let mut chars: Vec<char> = token.chars().collect();
    chars[last] = if chars[last] == 'A' { 'B' } else { 'A' };
    let tampered: String = chars.into_iter().collect();
    let key = load_decoding_key(&public).unwrap();
    assert_eq!(verify_jwt(&token, &key, NOW), Ok("alice".to_string()));
    assert_eq!(verify_jwt(&tampered, &key, NOW), Err(CustomError::InvalidToken));
    assert_eq!(verify_jwt("not.a.token", &key, NOW), Err(CustomError::InvalidToken));
    assert_eq!(verify_jwt("", &key, NOW), Err(CustomError::InvalidToken));
}

#[test]
fn missing_or_malformed_key_is_a_key_load_error() {
    let issuer = TokenIssuer::new("", 60);
    assert!(issuer.signing_key.is_none());
    assert_eq!(issuer.create_jwt(&user("alice"), NOW), Err(CustomError::KeyLoadError));
    let issuer = TokenIssuer::new("not a key", 60);
    assert_eq!(issuer.create_jwt(&user("alice"), NOW), Err(CustomError::KeyLoadError));
    assert!(load_decoding_key("garbage").is_err());
}

#[test]
fn expiration_overflow_is_an_encode_error() {
    let (private, _) = key_pair();
    let issuer = TokenIssuer::new(&private, 10);
    assert_eq!(issuer.create_jwt(&user("alice"), u64::MAX - 5), Err(CustomError::EncodeError));
    assert!(Claims::issued(&user("alice"), u64::MAX - 5, 10).is_none());
    let c = Claims::issued(&user("alice"), u64::MAX - 10, 10).unwrap();
    assert_eq!(c.exp, u64::MAX);
}

#[test]
fn bearer_token_extraction() {
    assert_eq!(bearer_value("Bearer abc.def.ghi"), Some("abc.def.ghi".to_string()));
    assert_eq!(bearer_value("Bearer "), None);
    assert_eq!(bearer_value("Bearer a b"), None);
    assert_eq!(bearer_value("bearer abc"), None);
    assert_eq!(bearer_value("Basic abc"), None);
    assert_eq!(bearer_value(""), None);
}

#[test]
fn extract_token_finds_the_authorization_line() {
    let r = "GET /validate HTTP/1.1\r\nAuthorization: Bearer abc.def.ghi\r\n\r\n";
    assert_eq!(extract_token(r), Some("abc.def.ghi".to_string()));
    assert_eq!(extract_token("authorization: Bearer t"), Some("t".to_string()));
    assert_eq!(extract_token("Host: x\n  AUTHORIZATION :  Bearer t2  \nAuthorization: Bearer t3"), Some("t2".to_string()));
    assert_eq!(extract_token("AuThOrIzAtIoN: Bearer t"), Some("t".to_string()));
}

#[test]
fn extract_token_without_authorization_line() {
    assert_eq!(extract_token("Bearer abc"), None);
    assert_eq!(extract_token("GET / HTTP/1.1\r\nAuthorization: Basic abc\r\n\r\n"), None);
    assert_eq!(extract_token("X-Authorization: Bearer abc"), None);
    assert_eq!(extract_token("Authorization Bearer abc"), None);
    assert_eq!(extract_token(""), None);
    assert_eq!(extract_token("Authorization: Basic a\nAuthorization: Bearer b"), Some("b".to_string()));
}

#[test]
fn escaped_newlines_are_normalized() {
    assert_eq!(normalize_newlines("a\\nb"), "a\nb");
    assert_eq!(normalize_newlines("\\n\\n"), "\n\n");
    assert_eq!(normalize_newlines("no escapes\n"), "no escapes\n");
    assert_eq!(normalize_newlines("\\\\n"), "\\\n");
    assert_eq!(normalize_newlines("end\\"), "end\\");
    assert_eq!(normalize_newlines(""), "");
}
