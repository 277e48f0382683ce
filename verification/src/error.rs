//! The failure taxonomy of one scrape, the exact status-code
//! classification, and the JSON-shaped messages surfaced to callers.

use vstd::prelude::*;
use vstd::string::StringExecFns;

verus! {

/// Why a scrape failed. Every kind is terminal for the current scrape;
/// nothing is retried. Transport failures (connection, timeout, TLS,
/// truncation) carry the underlying cause as text, as do payload
/// decode failures; both are distinct from every HTTP-status-derived
/// kind.
pub enum Error {
    Unauthorized,
    Forbidden,
    NotFound,
    UnknownStatus(u16),
    Transport(String),
    DecodeFailure(String),
}

/// The outcome class of one HTTP status code: 200 proceeds to
/// decoding, 401 / 403 / 404 map to their own kinds, and any other
/// code is an unknown-status failure carrying the code.
pub open spec fn classified(status: u16) -> Result<(), Error> {
    if status == 200 {
        Ok(())
    } else if status == 401 {
        Err(Error::Unauthorized)
    } else if status == 403 {
        Err(Error::Forbidden)
    } else if status == 404 {
        Err(Error::NotFound)
    } else {
        Err(Error::UnknownStatus(status))
    }
}

/// Classifies the status code of a fetch response.
///
/// For a non-200 code the caller stops; a diagnostic body attached to
/// an unknown status may still be decoded and logged by the caller,
/// but that never changes the returned kind.
pub fn classify_status(status: u16) -> (r: Result<(), Error>)
    ensures
        r == classified(status),
{
    if status == 200 {
        Ok(())
    } else if status == 401 {
        Err(Error::Unauthorized)
    } else if status == 403 {
        Err(Error::Forbidden)
    } else if status == 404 {
        Err(Error::NotFound)
    } else {
        Err(Error::UnknownStatus(status))
    }
}

impl Error {
    /// The JSON-shaped message of this failure kind.
    pub open spec fn rendered(self) -> Seq<char> {
        match self {
            Error::Unauthorized => "{\"error\": \"Cannot get config: Unauthorized\"}"@,
            Error::Forbidden => "{\"error\": \"Cannot get config: Forbidden\"}"@,
            Error::NotFound => "{\"error\": \"Cannot get config: Not found\"}"@,
            Error::UnknownStatus(_) => "{\"error\": \"Caught bad status code\"}"@,
            Error::Transport(cause) => "{\"error\": \""@ + cause@ + "\"}"@,
            Error::DecodeFailure(cause) => "{\"error\": \""@ + cause@ + "\"}"@,
        }
    }

    /// Renders the message of this failure kind.
    pub fn message(&self) -> (r: String)
        ensures
            r@ == self.rendered(),
    {
        match self {
            Error::Unauthorized => String::from_str(
                "{\"error\": \"Cannot get config: Unauthorized\"}",
            ),
            Error::Forbidden => String::from_str("{\"error\": \"Cannot get config: Forbidden\"}"),
            Error::NotFound => String::from_str("{\"error\": \"Cannot get config: Not found\"}"),
            Error::UnknownStatus(_) => String::from_str("{\"error\": \"Caught bad status code\"}"),
            Error::Transport(cause) => String::from_str("{\"error\": \"").concat(
                cause.as_str(),
            ).concat("\"}"),
            Error::DecodeFailure(cause) => String::from_str("{\"error\": \"").concat(
                cause.as_str(),
            ).concat("\"}"),
        }
    }
}

/// Why a configuration was rejected before any client was built.
pub enum ConfigError {
    EmptyUrl,
    NoCredentials,
    ConflictingCredentials,
    CostOutOfRange,
}

impl ConfigError {
    /// The message of this configuration failure.
    pub open spec fn rendered(self) -> Seq<char> {
        match self {
            ConfigError::EmptyUrl => "base URL must not be empty"@,
            ConfigError::NoCredentials => "either an API key or a username and password must be configured"@,
            ConfigError::ConflictingCredentials => "an API key excludes username and password"@,
            ConfigError::CostOutOfRange => "unit cost is too large"@,
        }
    }

    /// Renders the message of this configuration failure.
    pub fn message(&self) -> (r: String)
        ensures
            r@ == self.rendered(),
    {
        match self {
            ConfigError::EmptyUrl => String::from_str("base URL must not be empty"),
            ConfigError::NoCredentials => String::from_str(
                "either an API key or a username and password must be configured",
            ),
            ConfigError::ConflictingCredentials => String::from_str(
                "an API key excludes username and password",
            ),
            ConfigError::CostOutOfRange => String::from_str("unit cost is too large"),
        }
    }
}

} // verus!
