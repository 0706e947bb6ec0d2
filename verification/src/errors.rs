//! The library's error taxonomy: transport, authentication, serialization,
//! remote-command, filesystem, text-decoding, configuration-file and generic
//! textual failures. Each variant carries the captured message.
use vstd::prelude::*;

verus! {

/// One failure of a library-level operation. Callers decide locally whether a
/// failure is recoverable; the orchestrator boundary treats most as fatal.
#[derive(Debug, Clone, PartialEq, Eq)]
pub enum Exception {
    /// An HTTP transport failure, with the transport's message.
    RequestException(String),
    /// A JSON (de)serialization failure.
    SerdeException(String),
    /// The identity endpoint's response carried no token header.
    AuthenticationException,
    /// A secure-shell transport failure.
    SSHException(String),
    /// A filesystem or channel I/O failure.
    IOException(String),
    /// Captured bytes were not valid text.
    FromUtf8Exception(String),
    /// A configuration file could not be parsed.
    IniException(String),
    /// A generic textual failure, such as an unexpected HTTP response body.
    Error(String),
}

impl Exception {
    /// The human-readable message of this failure.
    pub fn message(&self) -> (r: String)
        ensures
            (self matches Exception::RequestException(m) ==> r@ == m@),
            (self matches Exception::SerdeException(m) ==> r@ == m@),
            (self matches Exception::AuthenticationException ==> r@ == "authentication error"@),
            (self matches Exception::SSHException(m) ==> r@ == m@),
            (self matches Exception::IOException(m) ==> r@ == m@),
            (self matches Exception::FromUtf8Exception(m) ==> r@ == m@),
            (self matches Exception::IniException(m) ==> r@ == m@),
            (self matches Exception::Error(m) ==> r@ == m@),
    {
        match self {
            Exception::RequestException(m) => m.clone(),
            Exception::SerdeException(m) => m.clone(),
            Exception::AuthenticationException => String::from_str("authentication error"),
            Exception::SSHException(m) => m.clone(),
            Exception::IOException(m) => m.clone(),
            Exception::FromUtf8Exception(m) => m.clone(),
            Exception::IniException(m) => m.clone(),
            Exception::Error(m) => m.clone(),
        }
    }
}

} // verus!
