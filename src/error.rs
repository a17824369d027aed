use vstd::prelude::*;
use crate::upload::{network_message, NetworkError};

verus! {

/// Every failure of an export run.
pub enum AnalyzerError {
    /// The user's home directory could not be resolved.
    Configuration,
    /// A message or contact store could not be opened or queried.
    LocalStorage { message: String },
    /// The compressed statistics could not be encrypted.
    Crypto,
    /// The upload failed.
    Network(NetworkError),
}

pub open spec fn analyzer_message(e: AnalyzerError) -> Seq<char> {
    match e {
        AnalyzerError::Configuration => "Could not resolve the home directory"@,
        AnalyzerError::LocalStorage { message } => message@,
        AnalyzerError::Crypto => "Encryption failed"@,
        AnalyzerError::Network(n) => network_message(n),
    }
}

/// The name of the kind of failure.
pub open spec fn analyzer_kind(e: AnalyzerError) -> Seq<char> {
    match e {
        AnalyzerError::Configuration => "ConfigurationError"@,
        AnalyzerError::LocalStorage { .. } => "LocalStorageError"@,
        AnalyzerError::Crypto => "CryptoError"@,
        AnalyzerError::Network(n) => match n {
            NetworkError::Timeout { .. } => "NetworkError::Timeout"@,
            NetworkError::ConnectionFailed { .. } => "NetworkError::ConnectionFailed"@,
            NetworkError::Transport { .. } => "NetworkError::Transport"@,
            NetworkError::HttpStatus { .. } => "NetworkError::HttpStatus"@,
            NetworkError::MalformedResponse => "NetworkError::MalformedResponse"@,
        },
    }
}

impl AnalyzerError {
    /// A sentence for the user; see `analyzer_message`.
    pub fn message(&self) -> (r: String)
        ensures
            r@ == analyzer_message(*self),
    {
        match self {
            AnalyzerError::Configuration => "Could not resolve the home directory".to_owned(),
            AnalyzerError::LocalStorage { message } => message.clone(),
            AnalyzerError::Crypto => "Encryption failed".to_owned(),
            AnalyzerError::Network(n) => n.message(),
        }
    }

    /// The kind of failure followed by its message, for diagnostics.
    pub fn full_description(&self) -> (r: String)
        ensures
            r@ == analyzer_kind(*self) + ": "@ + analyzer_message(*self),
    {
        let mut r = match self {
            AnalyzerError::Configuration => "ConfigurationError".to_owned(),
            AnalyzerError::LocalStorage { .. } => "LocalStorageError".to_owned(),
            AnalyzerError::Crypto => "CryptoError".to_owned(),
            AnalyzerError::Network(n) => match n {
                NetworkError::Timeout { .. } => "NetworkError::Timeout".to_owned(),
                NetworkError::ConnectionFailed { .. } => "NetworkError::ConnectionFailed".to_owned(),
                NetworkError::Transport { .. } => "NetworkError::Transport".to_owned(),
                NetworkError::HttpStatus { .. } => "NetworkError::HttpStatus".to_owned(),
                NetworkError::MalformedResponse => "NetworkError::MalformedResponse".to_owned(),
            },
        };
        r.append(": ");
        let m = self.message();
        r.append(m.as_str());
        r
    }
}

} // verus!
