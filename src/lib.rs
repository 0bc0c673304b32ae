//! The logic of a small blog / message-board API.
//!
//! - `bearer`, `claims`, `jwt`, `token`: minting signed, time-bounded identity
//!   tokens and verifying them from a request's authorization header.
//! - `password`: password hashing and the log-in decision.
//! - `validation`, `numbers`, `config`: request-payload rules, numeric
//!   fields given as text, and process settings.
//! - `errors`, `models`: failure reporting and the records the API serves,
//!   with pagination of listings.
//! - `wallet`, `abi`, `transfer`: wallet generation, contract-call parameter
//!   conversion, and the tally of a batch of transfers.

pub mod abi;
pub mod bearer;
pub mod claims;
pub mod config;
pub mod errors;
pub mod hex_text;
pub mod jwt;
pub mod models;
pub mod numbers;
pub mod password;
pub mod token;
pub mod transfer;
pub mod validation;
pub mod wallet;
