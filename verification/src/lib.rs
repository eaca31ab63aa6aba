//! A gateway adapter for the Wave payment provider: status mapping, request
//! building, response interpretation, error classification and the
//! aggregated-merchant resolution engine, with machine-checked contracts.

pub mod auth;
pub mod canonical;
pub mod classifier;
pub mod connector;
pub mod decode;
pub mod errors;
pub mod http;
pub mod json;
pub mod merchant;
pub mod requests;
pub mod resolver;
pub mod responses;
pub mod service;
pub mod status;
pub mod text;
pub mod validation;
