//! Client library for the PayRex payment-processing HTTP API.
//!
//! The verified core of the library is the request-execution engine:
//! construction of the authentication header, recursive flattening of nested
//! request parameters into the flat key/value wire form, the bounded
//! retry/backoff policy with its retryability classification, and the mapping
//! from HTTP responses to the error taxonomy. Network I/O itself is left to
//! the embedding application; every decision the engine makes is a function
//! from plain values to plain values and carries a contract.

use vstd::prelude::*;

pub mod config;
pub mod error;
pub mod form;
pub mod http;
pub mod resources;
pub mod retry;
pub mod types;
mod strutil;

pub use config::Config;
pub use config::ConfigBuilder;

pub use error::Error;
pub use error::ErrorKind;

pub use strutil::parse_u64_str;
pub use strutil::str_eq;
pub use strutil::str_starts_with;
pub use strutil::u64_to_string;

verus! {

/// Version of this library, reported in the default user-agent string.
pub const VERSION: &'static str = "0.1.0";

/// Base URL of the production API.
pub const API_BASE_URL: &'static str = "https://api.payrexhq.com";

} // verus!
