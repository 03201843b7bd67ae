//! Collection engine for forge activity records: paced pagination, declarative
//! filtering and normalisation of wire data into one canonical model.

pub mod builder;
pub mod codeblocks;
pub mod collector;
pub mod config;
pub mod decimal;
pub mod discussion;
pub mod error;
pub mod filters;
pub mod json;
pub mod normalize;
pub mod patterns;
pub mod repository;
pub mod review;
pub mod text;
pub mod time;
pub mod types;

pub use builder::GitHubFetcherBuilder;
pub use codeblocks::has_code_blocks;
pub use collector::{CollectionResult, PageAction, PageCursor, Paginator};
pub use config::{FetchConfig, GitHubConfig, RateLimitConfig, RatePacer};
pub use error::{ErrorKind, GitHubFetchError};
pub use filters::{
    extract_error_codes, has_rust_error_codes, DateRange, IssueFilters, IssueState,
};
pub use json::{JsonNumber, JsonValue};
pub use repository::Repository;
pub use time::Timestamp;
pub use types::{
    Discussion, DiscussionComment, GitHubComment, GitHubIssue, GitHubLabel, GitHubUser, PrFile,
    PrReview, PrReviewComment,
};
