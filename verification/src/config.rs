//! Client and pacing configuration.

use crate::decimal::{decimal_digits, push_number};
use crate::error::{ErrorKind, GitHubFetchError};
use crate::text::{push_text, str_eq};
use std::time::Duration;
use vstd::prelude::*;

verus! {

/// Milliseconds in one minute: the budget that a requests-per-minute value divides.
pub const MILLIS_PER_MINUTE: u64 = 60_000;

/// The pause between two outbound calls for a given requests-per-minute budget:
/// one minute divided by the budget, rounded down, with a budget of zero
/// counted as one request per minute.
pub open spec fn spec_delay_for_rate(requests_per_minute: u32) -> int {
    if requests_per_minute == 0 {
        60_000
    } else {
        60_000int / (requests_per_minute as int)
    }
}

/// Computes the fixed inter-call delay in milliseconds for a requests-per-minute budget.
pub fn delay_for_rate(requests_per_minute: u32) -> (delay_ms: u64)
    ensures
        delay_ms == spec_delay_for_rate(requests_per_minute),
        delay_ms <= 60_000,
{
    let per_minute: u64 = if requests_per_minute == 0 {
        1
    } else {
        requests_per_minute as u64
    };
    MILLIS_PER_MINUTE / per_minute
}

/// The `Duration` that lasts exactly `ms` milliseconds, no part of a
/// millisecond more: what `Duration::from_millis` returns for `ms`.
pub uninterp spec fn duration_of_millis(ms: u64) -> Duration;

/// `Duration::from_millis`: the duration that lasts exactly `ms` milliseconds.
#[verifier::external_body]
fn duration_from_millis(ms: u64) -> (d: Duration)
    ensures
        d == duration_of_millis(ms),
{
    Duration::from_millis(ms)
}

/// How the forge is reached.
#[derive(Debug, Clone)]
pub struct GitHubConfig {
    pub token_env_var: String,
    pub api_base_url: String,
    pub user_agent: String,
    pub timeout_seconds: u64,
}

/// View of a [`GitHubConfig`].
pub ghost struct GitHubConfigView {
    pub token_env_var: Seq<char>,
    pub api_base_url: Seq<char>,
    pub user_agent: Seq<char>,
    pub timeout_seconds: u64,
}

impl View for GitHubConfig {
    type V = GitHubConfigView;

    open spec fn view(&self) -> GitHubConfigView {
        GitHubConfigView {
            token_env_var: self.token_env_var@,
            api_base_url: self.api_base_url@,
            user_agent: self.user_agent@,
            timeout_seconds: self.timeout_seconds,
        }
    }
}

/// How outbound calls are paced.
#[derive(Debug, Clone, Copy, PartialEq, Eq, Structural)]
pub struct RateLimitConfig {
    pub requests_per_minute: u32,
    pub delay_between_requests_ms: u64,
    pub respect_github_rate_limits: bool,
    pub max_retries: u32,
}

/// The whole configuration of a fetcher.
#[derive(Debug, Clone)]
pub struct FetchConfig {
    pub github: GitHubConfig,
    pub rate_limiting: RateLimitConfig,
}

/// View of a [`FetchConfig`].
pub ghost struct FetchConfigView {
    pub github: GitHubConfigView,
    pub rate_limiting: RateLimitConfig,
}

impl View for FetchConfig {
    type V = FetchConfigView;

    open spec fn view(&self) -> FetchConfigView {
        FetchConfigView { github: self.github@, rate_limiting: self.rate_limiting }
    }
}

/// The usual way to reach the forge.
pub open spec fn default_github_config() -> GitHubConfigView {
    GitHubConfigView {
        token_env_var: "GITHUB_TOKEN"@,
        api_base_url: "https://api.github.com"@,
        user_agent: "github-fetch/0.1.0"@,
        timeout_seconds: 30,
    }
}

/// The usual pacing: sixty requests per minute, one second apart.
pub open spec fn default_rate_limit_config() -> RateLimitConfig {
    RateLimitConfig {
        requests_per_minute: 60,
        delay_between_requests_ms: 1000,
        respect_github_rate_limits: true,
        max_retries: 3,
    }
}

/// The usual configuration.
pub open spec fn default_fetch_config() -> FetchConfigView {
    FetchConfigView { github: default_github_config(), rate_limiting: default_rate_limit_config() }
}

impl Default for GitHubConfig {
    fn default() -> (r: GitHubConfig)
        ensures
            r@ == default_github_config(),
    {
        GitHubConfig {
            token_env_var: "GITHUB_TOKEN".to_owned(),
            api_base_url: "https://api.github.com".to_owned(),
            user_agent: "github-fetch/0.1.0".to_owned(),
            timeout_seconds: 30,
        }
    }
}

impl Default for RateLimitConfig {
    fn default() -> (r: RateLimitConfig)
        ensures
            r == default_rate_limit_config(),
    {
        RateLimitConfig {
            requests_per_minute: 60,
            delay_between_requests_ms: 1000,
            respect_github_rate_limits: true,
            max_retries: 3,
        }
    }
}

impl Default for FetchConfig {
    fn default() -> (r: FetchConfig)
        ensures
            r@ == default_fetch_config(),
    {
        FetchConfig { github: GitHubConfig::default(), rate_limiting: RateLimitConfig::default() }
    }
}

impl RateLimitConfig {
    /// The pause that every outbound call is paced by.
    pub fn delay_duration(&self) -> (d: Duration)
        ensures
            d == duration_of_millis(self.delay_between_requests_ms),
    {
        duration_from_millis(self.delay_between_requests_ms)
    }

    /// This pacing with another budget of requests per minute, and the pause
    /// that follows from it.
    pub fn with_requests_per_minute(self, requests_per_minute: u32) -> (r: RateLimitConfig)
        ensures
            r == (RateLimitConfig {
                requests_per_minute,
                delay_between_requests_ms: spec_delay_for_rate(requests_per_minute) as u64,
                ..self
            }),
    {
        RateLimitConfig {
            requests_per_minute,
            delay_between_requests_ms: delay_for_rate(requests_per_minute),
            respect_github_rate_limits: self.respect_github_rate_limits,
            max_retries: self.max_retries,
        }
    }
}

impl GitHubConfig {
    /// Whether the forge is reached at another place than the usual one: the
    /// base URL is neither empty nor the usual one.
    pub open spec fn spec_has_custom_base_url(&self) -> bool {
        self.api_base_url@.len() > 0 && self.api_base_url@ != "https://api.github.com"@
    }

    /// Tells whether the forge is reached at another place than the usual one.
    pub fn has_custom_base_url(&self) -> (r: bool)
        ensures
            r == self.spec_has_custom_base_url(),
    {
        !self.api_base_url.as_str().is_empty() && !str_eq(
            self.api_base_url.as_str(),
            "https://api.github.com",
        )
    }
}

/// The pacing of outbound calls: one fixed pause before or after each call.
/// The pause does not follow what the forge says of its budget.
#[derive(Debug, Clone, Copy, PartialEq, Eq, Structural)]
pub struct RatePacer {
    pub delay_ms: u64,
}

impl RatePacer {
    /// The pacer that pauses for exactly `delay_ms` milliseconds; zero gives
    /// a pacer that does not pause.
    pub fn from_delay_ms(delay_ms: u64) -> (pacer: RatePacer)
        ensures
            pacer.delay_ms == delay_ms,
    {
        RatePacer { delay_ms }
    }

    /// The pacer for a budget of requests per minute: it pauses for a minute
    /// divided by the budget, rounded down, a budget of zero counted as one.
    pub fn from_requests_per_minute(requests_per_minute: u32) -> (pacer: RatePacer)
        ensures
            pacer.delay_ms == spec_delay_for_rate(requests_per_minute),
    {
        RatePacer { delay_ms: delay_for_rate(requests_per_minute) }
    }

    /// The pacer that a configuration asks for: it pauses for the delay that
    /// the configuration holds.
    pub fn from_config(config: &RateLimitConfig) -> (pacer: RatePacer)
        ensures
            pacer.delay_ms == config.delay_between_requests_ms,
    {
        RatePacer { delay_ms: config.delay_between_requests_ms }
    }

    /// The pause to make at each call.
    pub fn delay(&self) -> (d: Duration)
        ensures
            d == duration_of_millis(self.delay_ms),
    {
        duration_from_millis(self.delay_ms)
    }
}

/// The report of what is left of the forge's request budget.
pub open spec fn rate_limit_text(remaining: u64, limit: u64, reset: u64) -> Seq<char> {
    "Rate limit: "@ + decimal_digits(remaining as nat) + "/"@
        + decimal_digits(limit as nat) + " remaining, resets at "@
        + decimal_digits(reset as nat)
}

/// Renders what is left of the forge's request budget: how many requests
/// remain of how many, and when the budget is renewed.
pub fn describe_rate_limit(remaining: u64, limit: u64, reset: u64) -> (text: String)
    ensures
        text@ == rate_limit_text(remaining, limit, reset),
{
    let mut text = "Rate limit: ".to_owned();
    push_number(&mut text, remaining);
    push_text(&mut text, "/");
    push_number(&mut text, limit);
    push_text(&mut text, " remaining, resets at ");
    push_number(&mut text, reset);
    text
}

/// Checks that the credential was found in the variable that was meant to
/// hold it. A missing credential is an authentication failure that names the
/// variable.
pub fn require_token(var_name: &str, value: Option<String>) -> (r: Result<String, GitHubFetchError>)
    ensures
        match value {
            Some(token) => r == Ok::<String, GitHubFetchError>(token),
            None => {
                &&& r is Err
                &&& r->Err_0.spec_kind() == ErrorKind::Auth
                &&& r->Err_0.spec_message() == var_name@ + " environment variable not set"@
            },
        },
{
    match value {
        Some(token) => Ok(token),
        None => {
            let mut message = var_name.to_owned();
            push_text(&mut message, " environment variable not set");
            Err(GitHubFetchError::AuthError(message))
        },
    }
}

} // verus!
