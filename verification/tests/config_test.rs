use github_fetch::config::{delay_for_rate, describe_rate_limit, require_token};
use github_fetch::{
    ErrorKind, FetchConfig, GitHubConfig, GitHubFetcherBuilder, RateLimitConfig, RatePacer,
};
use std::time::Duration;

#[test]
fn thirty_per_minute_is_two_seconds() {
    assert_eq!(delay_for_rate(30), 2000);
    let config = GitHubFetcherBuilder::new().rate_limit(30).into_config();
    assert_eq!(config.rate_limiting.requests_per_minute, 30);
    assert_eq!(config.rate_limiting.delay_between_requests_ms, 2000);
    assert_eq!(config.rate_limiting.delay_duration(), Duration::from_millis(2000));
}

#[test]
fn zero_per_minute_counts_as_one() {
    assert_eq!(delay_for_rate(0), 60_000);
    let config = GitHubFetcherBuilder::new().rate_limit(0).into_config();
    assert_eq!(config.rate_limiting.requests_per_minute, 0);
    assert_eq!(config.rate_limiting.delay_between_requests_ms, 60_000);
}

#[test]
fn delay_is_rounded_down() {
    assert_eq!(delay_for_rate(1), 60_000);
    assert_eq!(delay_for_rate(7), 8571);
    assert_eq!(delay_for_rate(60), 1000);
    assert_eq!(delay_for_rate(60_000), 1);
    assert_eq!(delay_for_rate(60_001), 0);
    assert_eq!(delay_for_rate(u32::MAX), 0);
}

#[test]
fn default_configuration() {
    let config = FetchConfig::default();
    assert_eq!(config.github.token_env_var, "GITHUB_TOKEN");
    assert_eq!(config.github.api_base_url, "https://api.github.com");
    assert_eq!(config.github.user_agent, "github-fetch/0.1.0");
    assert_eq!(config.github.timeout_seconds, 30);
    assert_eq!(config.rate_limiting.requests_per_minute, 60);
    assert_eq!(config.rate_limiting.delay_between_requests_ms, 1000);
    assert!(config.rate_limiting.respect_github_rate_limits);
    assert_eq!(config.rate_limiting.max_retries, 3);
    assert_eq!(RateLimitConfig::default().delay_duration(), Duration::from_millis(1000));
}

#[test]
fn builder_changes_one_option_at_a_time() {
    let config = GitHubFetcherBuilder::new()
        .token_env_var("MY_TOKEN")
        .api_base_url("https://forge.example/api")
        .user_agent("agent/2")
        .timeout(5)
        .max_retries(9)
        .into_config();
    assert_eq!(config.github.token_env_var, "MY_TOKEN");
    assert_eq!(config.github.api_base_url, "https://forge.example/api");
    assert_eq!(config.github.user_agent, "agent/2");
    assert_eq!(config.github.timeout_seconds, 5);
    assert_eq!(config.rate_limiting.max_retries, 9);
    assert_eq!(config.rate_limiting.requests_per_minute, 60);
    assert_eq!(config.rate_limiting.delay_between_requests_ms, 1000);
    let config = GitHubFetcherBuilder::default().into_config();
    assert_eq!(config.github.user_agent, "github-fetch/0.1.0");
}

#[test]
fn custom_base_url() {
    let mut config = GitHubConfig::default();
    assert!(!config.has_custom_base_url());
    config.api_base_url = String::new();
    assert!(!config.has_custom_base_url());
    config.api_base_url = "https://forge.example".to_string();
    assert!(config.has_custom_base_url());
}

#[test]
fn rate_limit_report() {
    assert_eq!(
        describe_rate_limit(4999, 5000, 1_705_314_600),
        "Rate limit: 4999/5000 remaining, resets at 1705314600"
    );
    assert_eq!(describe_rate_limit(0, 0, 0), "Rate limit: 0/0 remaining, resets at 0");
    assert_eq!(
        describe_rate_limit(u64::MAX, 10, 1),
        "Rate limit: 18446744073709551615/10 remaining, resets at 1"
    );
}

#[test]
fn missing_token_is_an_authentication_failure() {
    assert_eq!(require_token("GITHUB_TOKEN", Some("t0ken".to_string())).unwrap(), "t0ken");
    let err = require_token("GITHUB_TOKEN", None).unwrap_err();
    assert_eq!(err.kind(), ErrorKind::Auth);
    assert_eq!(err.message(), "GITHUB_TOKEN environment variable not set");
    assert_eq!(
        err.describe(),
        "Authentication error: GITHUB_TOKEN environment variable not set"
    );
}

#[test]
fn pacer_holds_a_fixed_delay() {
    assert_eq!(RatePacer::from_requests_per_minute(30).delay_ms, 2000);
    assert_eq!(RatePacer::from_requests_per_minute(30).delay(), Duration::from_millis(2000));
    assert_eq!(RatePacer::from_requests_per_minute(0).delay_ms, 60_000);
    assert_eq!(RatePacer::from_delay_ms(0).delay(), Duration::ZERO);
    assert_eq!(RatePacer::from_delay_ms(u64::MAX).delay(), Duration::from_millis(u64::MAX));
    let mut config = RateLimitConfig::default();
    config.delay_between_requests_ms = 250;
    assert_eq!(RatePacer::from_config(&config), RatePacer { delay_ms: 250 });
    assert_eq!(RatePacer::from_config(&config).delay(), Duration::from_millis(250));
}
