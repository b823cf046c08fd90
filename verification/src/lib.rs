//! Request building and response handling for the Neshan mapping service.
//!
//! The crate holds the rules of the client: which query parameters a request
//! carries, which API keys can be sent as a header, and how a response's
//! status decides what its body is taken for. Sending the request and
//! decoding JSON are left to the caller.

pub mod address;
pub mod client;
pub mod decimal;
pub mod error;
pub mod header;
pub mod point;
pub mod request;
pub mod response;
pub mod routes;
pub mod vehicle;

pub use address::PostalAddress;
pub use client::{Client, ConfigurationError};
pub use error::{Error, Failure};
pub use point::Point;
pub use request::{
    Pair, Request, API_KEY_HEADER, DIRECTION_URL, REVERSE_URL, USER_AGENT, USER_AGENT_HEADER,
};
pub use response::{expected_body, is_success, refusal_outcome, success_outcome, Expected};
pub use routes::{Distance, Duration, Leg, Route, Routes};
pub use vehicle::Type;
