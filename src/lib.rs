//! A small credential-issuance service: request decoding, password hashing,
//! signed bearer tokens and the login / register / validate decisions.

pub mod account;
pub mod config;
pub mod constants;
pub mod credential;
pub mod error;
pub mod model;
pub mod repository;
pub mod request;
pub mod response;
pub mod server;
pub mod service;
pub mod text;
pub mod token;
