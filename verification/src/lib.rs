//! The request and response layer of a client of the Arch User Repository RPC service.
//!
//! The crate builds request URLs, interprets the service's JSON envelope and
//! maps JSON objects to package records. It performs no I/O: a host hands it
//! the status and body of a response and gets a typed result back.

pub mod aur;
pub mod envelope;
pub mod error;
pub mod json;
pub mod package;
pub mod query;
pub mod scan;
pub mod timestamp;

pub use aur::Aur;
pub use envelope::Response;
pub use error::Error;
pub use json::Value;
pub use package::Package;
pub use rustc_serialize::json::ErrorCode as ParseError;
pub use timestamp::Timestamp;
