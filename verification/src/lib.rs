//! Unofficial client library for the Toss Securities Open API.
//!
//! The library holds the parts of the client that decide and compute: the domain
//! models, the request that each endpoint sends (method, path, query, account
//! scope), the mapping of error responses to [`error::SdkError`], and the cache
//! that keeps the OAuth2 access token until shortly before it expires.
#![allow(non_snake_case)]

pub mod adapter;
pub mod domain;
pub mod error;
pub mod json;
pub mod text;
