//! Step-by-step construction of a fetcher's configuration.

use crate::config::{
    default_fetch_config, spec_delay_for_rate, FetchConfig, FetchConfigView, GitHubConfigView,
    RateLimitConfig,
};
use vstd::prelude::*;

verus! {

/// Gathers the configuration of a fetcher, one option at a time. It starts
/// from the usual configuration; each step changes one option and leaves the
/// others as they are.
#[derive(Debug, Clone)]
pub struct GitHubFetcherBuilder {
    config: FetchConfig,
}

impl View for GitHubFetcherBuilder {
    type V = FetchConfigView;

    closed spec fn view(&self) -> FetchConfigView {
        self.config@
    }
}

impl GitHubFetcherBuilder {
    /// Starts from the usual configuration.
    pub fn new() -> (b: GitHubFetcherBuilder)
        ensures
            b@ == default_fetch_config(),
    {
        GitHubFetcherBuilder { config: FetchConfig::default() }
    }

    /// Names the environment variable that holds the credential.
    pub fn token_env_var(self, var_name: &str) -> (b: GitHubFetcherBuilder)
        ensures
            b@ == (FetchConfigView {
                github: GitHubConfigView { token_env_var: var_name@, ..self@.github },
                ..self@
            }),
    {
        let mut config = self.config;
        config.github.token_env_var = var_name.to_owned();
        GitHubFetcherBuilder { config }
    }

    /// Sets the place where the forge is reached.
    pub fn api_base_url(self, url: &str) -> (b: GitHubFetcherBuilder)
        ensures
            b@ == (FetchConfigView {
                github: GitHubConfigView { api_base_url: url@, ..self@.github },
                ..self@
            }),
    {
        let mut config = self.config;
        config.github.api_base_url = url.to_owned();
        GitHubFetcherBuilder { config }
    }

    /// Sets the name that the fetcher gives itself on each call.
    pub fn user_agent(self, agent: &str) -> (b: GitHubFetcherBuilder)
        ensures
            b@ == (FetchConfigView {
                github: GitHubConfigView { user_agent: agent@, ..self@.github },
                ..self@
            }),
    {
        let mut config = self.config;
        config.github.user_agent = agent.to_owned();
        GitHubFetcherBuilder { config }
    }

    /// Sets the time after which a call is given up, in seconds.
    pub fn timeout(self, seconds: u64) -> (b: GitHubFetcherBuilder)
        ensures
            b@ == (FetchConfigView {
                github: GitHubConfigView { timeout_seconds: seconds, ..self@.github },
                ..self@
            }),
    {
        let mut config = self.config;
        config.github.timeout_seconds = seconds;
        GitHubFetcherBuilder { config }
    }

    /// Sets the budget of requests per minute, and with it the pause between
    /// two calls: a minute divided by the budget, rounded down, a budget of
    /// zero counted as one.
    pub fn rate_limit(self, requests_per_minute: u32) -> (b: GitHubFetcherBuilder)
        ensures
            b@ == (FetchConfigView {
                rate_limiting: RateLimitConfig {
                    requests_per_minute,
                    delay_between_requests_ms: spec_delay_for_rate(requests_per_minute) as u64,
                    ..self@.rate_limiting
                },
                ..self@
            }),
    {
        let mut config = self.config;
        config.rate_limiting = config.rate_limiting.with_requests_per_minute(requests_per_minute);
        GitHubFetcherBuilder { config }
    }

    /// Sets how often a failed call may be tried again.
    pub fn max_retries(self, retries: u32) -> (b: GitHubFetcherBuilder)
        ensures
            b@ == (FetchConfigView {
                rate_limiting: RateLimitConfig { max_retries: retries, ..self@.rate_limiting },
                ..self@
            }),
    {
        let mut config = self.config;
        config.rate_limiting.max_retries = retries;
        GitHubFetcherBuilder { config }
    }

    /// Hands over the configuration that was gathered.
    pub fn into_config(self) -> (config: FetchConfig)
        ensures
            config@ == self@,
    {
        self.config
    }
}

impl Default for GitHubFetcherBuilder {
    fn default() -> (b: GitHubFetcherBuilder)
        ensures
            b@ == default_fetch_config(),
    {
        GitHubFetcherBuilder::new()
    }
}

} // verus!
