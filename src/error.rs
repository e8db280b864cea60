//! Error types for the audit system.
use vstd::prelude::*;
use crate::fmt::{decimal, decimal_text};
use vstd::string::*;

verus! {

/// Main error type for audit operations.
#[derive(Clone, Debug)]
pub enum AuditError {
    /// Failed to parse project metadata, a response or a timestamp.
    ParseError(String),
    /// A transport failure.
    NetworkError(String),
    /// A non-success answer from a service.
    ApiError { service: String, message: String },
    /// Invalid configuration.
    ConfigError(String),
    /// Invalid dependency.
    InvalidDependency(String),
    /// The service kept signalling its rate limit; `retry_after_secs` is its hint, if any.
    RateLimitExceeded { service: String, retry_after_secs: Option<u64> },
    /// The service does not know the requested item.
    DependencyNotFound(String),
}

impl AuditError {
    /// Create a parse error.
    pub fn parse(msg: &str) -> (r: AuditError)
        ensures
            r matches AuditError::ParseError(m) && m@ == msg@,
    {
        AuditError::ParseError(msg.to_owned())
    }

    /// Create a network error.
    pub fn network(msg: &str) -> (r: AuditError)
        ensures
            r matches AuditError::NetworkError(m) && m@ == msg@,
    {
        AuditError::NetworkError(msg.to_owned())
    }

    /// Create an API error.
    pub fn api(service: &str, message: &str) -> (r: AuditError)
        ensures
            r matches AuditError::ApiError { service: s, message: m } && s@ == service@ && m@
                == message@,
    {
        AuditError::ApiError {
            service: service.to_owned(),
            message: message.to_owned(),
        }
    }

    /// Create a configuration error.
    pub fn config(msg: &str) -> (r: AuditError)
        ensures
            r matches AuditError::ConfigError(m) && m@ == msg@,
    {
        AuditError::ConfigError(msg.to_owned())
    }
}

/// The text that describes an error.
pub open spec fn error_text(e: AuditError) -> Seq<char> {
    match e {
        AuditError::ParseError(m) => "Failed to parse project metadata: "@ + m@,
        AuditError::NetworkError(m) => "Network error: "@ + m@,
        AuditError::ApiError { service, message } => "API error from "@ + service@ + ": "@
            + message@,
        AuditError::ConfigError(m) => "Configuration error: "@ + m@,
        AuditError::InvalidDependency(m) => "Invalid dependency: "@ + m@,
        AuditError::RateLimitExceeded { service, retry_after_secs } => "Rate limit exceeded for "@
            + service@ + ". Retry after: "@ + match retry_after_secs {
            Some(n) => decimal_text(n as nat) + "s"@,
            None => "unknown"@,
        },
        AuditError::DependencyNotFound(m) => "Dependency not found: "@ + m@,
    }
}

fn text(s: &str) -> (r: String)
    ensures
        r@ == s@,
{
    s.to_owned()
}

impl AuditError {
    /// Describe the error in words.
    pub fn describe(&self) -> (r: String)
        ensures
            r@ == error_text(*self),
    {
        match self {
            AuditError::ParseError(m) => text("Failed to parse project metadata: ").concat(m.as_str()),
            AuditError::NetworkError(m) => text("Network error: ").concat(m.as_str()),
            AuditError::ApiError { service, message } => text("API error from ").concat(
                service.as_str(),
            ).concat(": ").concat(message.as_str()),
            AuditError::ConfigError(m) => text("Configuration error: ").concat(m.as_str()),
            AuditError::InvalidDependency(m) => text("Invalid dependency: ").concat(m.as_str()),
            AuditError::RateLimitExceeded { service, retry_after_secs } => {
                let head = text("Rate limit exceeded for ").concat(service.as_str()).concat(
                    ". Retry after: ",
                );
                match retry_after_secs {
                    Some(n) => head.concat(decimal(*n).as_str()).concat("s"),
                    None => head.concat("unknown"),
                }
            },
            AuditError::DependencyNotFound(m) => text("Dependency not found: ").concat(m.as_str()),
        }
    }
}

} // verus!
