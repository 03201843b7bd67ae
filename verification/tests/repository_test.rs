use github_fetch::{ErrorKind, Repository};

#[test]
fn test_parse_pr_url() {
    // Full URL format
    let url = "https://github.com/tokio-rs/axum/pull/2865";
    let parts: Vec<&str> = url.trim_start_matches("https://github.com/")
        .split('/')
        .collect();

    assert_eq!(parts.len(), 4);
    assert_eq!(parts[0], "tokio-rs"); // owner
    assert_eq!(parts[1], "axum");     // repo
    assert_eq!(parts[2], "pull");
    assert_eq!(parts[3], "2865");     // PR number
}

#[test]
fn test_parse_short_pr_reference() {
    // Short format: owner/repo#123
    let reference = "tokio-rs/axum#2865";

    let parts: Vec<&str> = reference.split('#').collect();
    assert_eq!(parts.len(), 2);

    let repo_parts: Vec<&str> = parts[0].split('/').collect();
    assert_eq!(repo_parts[0], "tokio-rs");
    assert_eq!(repo_parts[1], "axum");
    assert_eq!(parts[1], "2865");
}

#[test]
fn new_joins_owner_and_name() {
    let repo = Repository::new("tokio-rs", "axum");
    assert_eq!(repo.owner, "tokio-rs");
    assert_eq!(repo.name, "axum");
    assert_eq!(repo.full_name, "tokio-rs/axum");
    let odd = Repository::new("", "a/b");
    assert_eq!(odd.full_name, "/a/b");
}

#[test]
fn copy_of_keeps_every_part() {
    let repo = Repository::new("rust-lang", "rust");
    let copy = repo.copy_of();
    assert_eq!(copy.owner, "rust-lang");
    assert_eq!(copy.name, "rust");
    assert_eq!(copy.full_name, "rust-lang/rust");
}

#[test]
fn full_name_round_trips() {
    for text in ["tokio-rs/axum", "a/b", "o/n.with.dots", "\u{00E9}/\u{4E2D}"] {
        let repo = Repository::from_full_name(text).unwrap();
        assert_eq!(repo.full_name, text);
        assert_eq!(format!("{}/{}", repo.owner, repo.name), text);
        let again = Repository::new(&repo.owner, &repo.name);
        assert_eq!(again.full_name, text);
    }
    let repo = Repository::from_full_name("tokio-rs/axum").unwrap();
    assert_eq!(repo.owner, "tokio-rs");
    assert_eq!(repo.name, "axum");
}

#[test]
fn malformed_full_names_are_refused() {
    for text in ["", "noslash", "a/b/c", "/name", "owner/", "/", "//", "a//b"] {
        let err = Repository::from_full_name(text).unwrap_err();
        assert_eq!(err.kind(), ErrorKind::InvalidRepository);
    }
    let err = Repository::from_full_name("a/b/c").unwrap_err();
    assert_eq!(
        err.message(),
        "Invalid repository full name format. Expected 'owner/name', got: a/b/c"
    );
}

#[test]
fn url_gives_the_last_two_segments() {
    let repo = Repository::from_url("https://github.com/tokio-rs/axum").unwrap();
    assert_eq!(repo.owner, "tokio-rs");
    assert_eq!(repo.name, "axum");
    assert_eq!(repo.full_name, "tokio-rs/axum");
    let repo = Repository::from_url("https://api.github.com/repos/rust-lang/rust///").unwrap();
    assert_eq!(repo.full_name, "rust-lang/rust");
    let repo = Repository::from_url("owner/name").unwrap();
    assert_eq!(repo.full_name, "owner/name");
    let repo = Repository::from_url("/name").unwrap();
    assert_eq!(repo.owner, "");
    assert_eq!(repo.name, "name");
    let repo = Repository::from_url("a//b/").unwrap();
    assert_eq!(repo.owner, "");
    assert_eq!(repo.name, "b");
}

#[test]
fn url_without_two_segments_is_refused() {
    for text in ["", "name", "name/", "///", "/"] {
        let err = Repository::from_url(text).unwrap_err();
        assert_eq!(err.kind(), ErrorKind::InvalidRepository);
    }
    let err = Repository::from_url("name/").unwrap_err();
    assert_eq!(err.message(), "Invalid repository URL: name/");
}
