//! The failures that the collection engine reports.

use vstd::prelude::*;

verus! {

/// A failure of a fetch or of one of the checks that precede it. Each variant
/// that carries text holds a message for the caller.
#[derive(Debug, Clone)]
pub enum GitHubFetchError {
    /// A transport or forge-side failure on a call.
    ApiError(String),
    /// The credential is missing or was refused.
    AuthError(String),
    /// The forge reported that the request budget is spent.
    RateLimitExceeded,
    /// A repository reference or URL is malformed.
    InvalidRepository(String),
    /// The requested record or discussion does not exist.
    NotFound(String),
    /// The transport failed below the forge's API.
    NetworkError(String),
    /// The forge client library failed.
    OctocrabError(String),
    /// A payload was not valid JSON.
    JsonError(String),
    /// The configuration cannot be used.
    ConfigError(String),
    /// Reading or writing failed.
    IoError(String),
    /// Any other failure.
    Other(String),
}

/// The kind of a failure, without its message.
#[derive(Debug, Clone, Copy, PartialEq, Eq, Structural)]
pub enum ErrorKind {
    Api,
    Auth,
    RateLimit,
    InvalidRepository,
    NotFound,
    Network,
    Octocrab,
    Json,
    Config,
    Io,
    Other,
}

impl GitHubFetchError {
    /// The kind of this failure.
    pub open spec fn spec_kind(&self) -> ErrorKind {
        match self {
            GitHubFetchError::ApiError(_) => ErrorKind::Api,
            GitHubFetchError::AuthError(_) => ErrorKind::Auth,
            GitHubFetchError::RateLimitExceeded => ErrorKind::RateLimit,
            GitHubFetchError::InvalidRepository(_) => ErrorKind::InvalidRepository,
            GitHubFetchError::NotFound(_) => ErrorKind::NotFound,
            GitHubFetchError::NetworkError(_) => ErrorKind::Network,
            GitHubFetchError::OctocrabError(_) => ErrorKind::Octocrab,
            GitHubFetchError::JsonError(_) => ErrorKind::Json,
            GitHubFetchError::ConfigError(_) => ErrorKind::Config,
            GitHubFetchError::IoError(_) => ErrorKind::Io,
            GitHubFetchError::Other(_) => ErrorKind::Other,
        }
    }

    /// The message carried by this failure; empty where the variant has none.
    pub open spec fn spec_message(&self) -> Seq<char> {
        match self {
            GitHubFetchError::ApiError(m) => m@,
            GitHubFetchError::AuthError(m) => m@,
            GitHubFetchError::RateLimitExceeded => Seq::<char>::empty(),
            GitHubFetchError::InvalidRepository(m) => m@,
            GitHubFetchError::NotFound(m) => m@,
            GitHubFetchError::NetworkError(m) => m@,
            GitHubFetchError::OctocrabError(m) => m@,
            GitHubFetchError::JsonError(m) => m@,
            GitHubFetchError::ConfigError(m) => m@,
            GitHubFetchError::IoError(m) => m@,
            GitHubFetchError::Other(m) => m@,
        }
    }

    /// Returns the kind of this failure.
    #[verifier::when_used_as_spec(spec_kind)]
    pub fn kind(&self) -> (k: ErrorKind)
        ensures
            k == self.spec_kind(),
    {
        match self {
            GitHubFetchError::ApiError(_) => ErrorKind::Api,
            GitHubFetchError::AuthError(_) => ErrorKind::Auth,
            GitHubFetchError::RateLimitExceeded => ErrorKind::RateLimit,
            GitHubFetchError::InvalidRepository(_) => ErrorKind::InvalidRepository,
            GitHubFetchError::NotFound(_) => ErrorKind::NotFound,
            GitHubFetchError::NetworkError(_) => ErrorKind::Network,
            GitHubFetchError::OctocrabError(_) => ErrorKind::Octocrab,
            GitHubFetchError::JsonError(_) => ErrorKind::Json,
            GitHubFetchError::ConfigError(_) => ErrorKind::Config,
            GitHubFetchError::IoError(_) => ErrorKind::Io,
            GitHubFetchError::Other(_) => ErrorKind::Other,
        }
    }

    /// Returns the message carried by this failure.
    pub fn message(&self) -> (m: String)
        ensures
            m@ == self.spec_message(),
    {
        match self {
            GitHubFetchError::ApiError(m) => m.clone(),
            GitHubFetchError::AuthError(m) => m.clone(),
            GitHubFetchError::RateLimitExceeded => String::new(),
            GitHubFetchError::InvalidRepository(m) => m.clone(),
            GitHubFetchError::NotFound(m) => m.clone(),
            GitHubFetchError::NetworkError(m) => m.clone(),
            GitHubFetchError::OctocrabError(m) => m.clone(),
            GitHubFetchError::JsonError(m) => m.clone(),
            GitHubFetchError::ConfigError(m) => m.clone(),
            GitHubFetchError::IoError(m) => m.clone(),
            GitHubFetchError::Other(m) => m.clone(),
        }
    }

    /// The words that introduce the message of a failure of each kind.
    pub open spec fn spec_heading(kind: ErrorKind) -> Seq<char> {
        match kind {
            ErrorKind::Api => "GitHub API error: "@,
            ErrorKind::Auth => "Authentication error: "@,
            ErrorKind::RateLimit => "Rate limit exceeded"@,
            ErrorKind::InvalidRepository => "Invalid repository format: "@,
            ErrorKind::NotFound => "Resource not found: "@,
            ErrorKind::Network => "Network error: "@,
            ErrorKind::Octocrab => "Octocrab error: "@,
            ErrorKind::Json => "JSON parsing error: "@,
            ErrorKind::Config => "Configuration error: "@,
            ErrorKind::Io => "IO error: "@,
            ErrorKind::Other => "Other error: "@,
        }
    }

    /// Renders this failure for a reader: the heading of its kind, then its message.
    pub fn describe(&self) -> (text: String)
        ensures
            text@ == Self::spec_heading(self.spec_kind()) + self.spec_message(),
    {
        let mut text = match self {
            GitHubFetchError::ApiError(_) => "GitHub API error: ".to_owned(),
            GitHubFetchError::AuthError(_) => "Authentication error: ".to_owned(),
            GitHubFetchError::RateLimitExceeded => "Rate limit exceeded".to_owned(),
            GitHubFetchError::InvalidRepository(_) => "Invalid repository format: ".to_owned(),
            GitHubFetchError::NotFound(_) => "Resource not found: ".to_owned(),
            GitHubFetchError::NetworkError(_) => "Network error: ".to_owned(),
            GitHubFetchError::OctocrabError(_) => "Octocrab error: ".to_owned(),
            GitHubFetchError::JsonError(_) => "JSON parsing error: ".to_owned(),
            GitHubFetchError::ConfigError(_) => "Configuration error: ".to_owned(),
            GitHubFetchError::IoError(_) => "IO error: ".to_owned(),
            GitHubFetchError::Other(_) => "Other error: ".to_owned(),
        };
        let message = self.message();
        crate::text::push_text(&mut text, message.as_str());
        text
    }
}

} // verus!
