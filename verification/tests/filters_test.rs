use github_fetch::filters::{describe_filters, distinct_codes, LoweredTexts};
use github_fetch::{
    extract_error_codes, has_code_blocks, has_rust_error_codes, DateRange, GitHubIssue,
    GitHubLabel, GitHubUser, IssueFilters, IssueState, Timestamp,
};

fn label(name: &str) -> GitHubLabel {
    GitHubLabel { id: 1, name: name.to_string(), color: "ffffff".to_string(), description: None }
}

fn issue(title: &str, body: Option<&str>) -> GitHubIssue {
    GitHubIssue {
        id: 1,
        number: 7,
        title: title.to_string(),
        body: body.map(|b| b.to_string()),
        state: "Open".to_string(),
        labels: vec![],
        user: GitHubUser { id: 3, login: "ferris".to_string(), avatar_url: "".to_string() },
        assignees: vec![],
        created_at: Timestamp::new(1_705_314_600, 0),
        updated_at: Timestamp::new(1_705_314_600, 0),
        closed_at: None,
        merged_at: None,
        html_url: "https://example.org/7".to_string(),
        is_pull_request: false,
        comments: 2,
    }
}

fn accept_all() -> IssueFilters {
    IssueFilters {
        state: IssueState::All,
        include_labels: vec![],
        exclude_labels: vec![],
        rust_errors_only: false,
        code_blocks_only: false,
        min_body_length: None,
        date_range: None,
        include_pull_requests: true,
        min_comments: None,
        required_keywords: vec![],
        excluded_keywords: vec![],
    }
}

#[test]
fn test_rust_error_detection() {
    assert!(has_rust_error_codes("Error E0382: use of moved value"));
    assert!(has_rust_error_codes("Getting E0502 and E0499 errors"));
    assert!(!has_rust_error_codes("No errors here"));

    let codes = extract_error_codes("E0382 and E0502 errors occurred");
    assert_eq!(codes.len(), 2);
    assert!(codes.contains(&"E0382".to_string()));
    assert!(codes.contains(&"E0502".to_string()));
}

#[test]
fn test_code_block_detection() {
    assert!(has_code_blocks("```rust\nfn main() {}\n```"));
    assert!(has_code_blocks("    let x = 5;\n    println!(\"{}\", x);"));
    assert!(!has_code_blocks("Just regular text without code"));
}

#[test]
fn code_blocks_fence_plain_and_indented() {
    assert!(has_code_blocks("```\nfn f(){}\n```"));
    assert!(!has_code_blocks("plain text"));
    assert!(has_code_blocks("    indented line"));
}

#[test]
fn code_blocks_edge_cases() {
    assert!(!has_code_blocks(""));
    assert!(!has_code_blocks("   three spaces"));
    assert!(!has_code_blocks("    "));
    assert!(!has_code_blocks("    \n    \t \n"));
    assert!(!has_code_blocks("\tlet x = 1;"));
    assert!(!has_code_blocks("text    with gaps"));
    assert!(has_code_blocks("first\n     five spaces"));
    assert!(has_code_blocks("first\r\n    code\r\n"));
    assert!(!has_code_blocks("first\r\n    \r\nlast"));
    assert!(!has_code_blocks("``"));
    assert!(has_code_blocks("a ``` b"));
    assert!(!has_code_blocks("    \u{00A0}\u{3000}"));
    assert!(has_code_blocks("    \u{00A0}x"));
}

#[test]
fn error_codes_are_deduplicated() {
    let codes = extract_error_codes("E0382 and E0502 and E0382");
    assert_eq!(codes, vec!["E0382".to_string(), "E0502".to_string()]);
}

#[test]
fn error_codes_take_three_or_four_digits() {
    assert_eq!(extract_error_codes("E012"), Vec::<String>::new());
    assert_eq!(extract_error_codes("E0123"), vec!["E0123".to_string()]);
    assert_eq!(extract_error_codes("E01234"), vec!["E01234".to_string()]);
    assert_eq!(extract_error_codes("E012345"), vec!["E01234".to_string()]);
    assert_eq!(extract_error_codes("e0382"), Vec::<String>::new());
    assert!(!has_rust_error_codes("E1382"));
    assert!(!has_rust_error_codes(""));
}

#[test]
fn distinct_codes_keeps_first_occurrences() {
    let found = vec!["b".to_string(), "a".to_string(), "b".to_string(), "c".to_string(), "a".to_string()];
    assert_eq!(distinct_codes(found), vec!["b".to_string(), "a".to_string(), "c".to_string()]);
    assert_eq!(distinct_codes(vec![]), Vec::<String>::new());
}

#[test]
fn label_matching_ignores_case() {
    let mut filters = accept_all();
    filters.include_labels = vec!["bug".to_string()];
    let mut record = issue("title", None);
    record.labels = vec![label("Bug")];
    assert!(filters.matches(&record));
    record.labels = vec![label("feature")];
    assert!(!filters.matches(&record));
    record.labels = vec![];
    assert!(!filters.matches(&record));
}

#[test]
fn excluded_label_rejects() {
    let mut filters = accept_all();
    filters.exclude_labels = vec!["WONTFIX".to_string()];
    let mut record = issue("title", None);
    assert!(filters.matches(&record));
    record.labels = vec![label("help"), label("wontfix")];
    assert!(!filters.matches(&record));
}

#[test]
fn state_is_compared_exactly() {
    let mut filters = accept_all();
    filters.state = IssueState::Open;
    let mut record = issue("title", None);
    assert!(filters.matches(&record));
    record.state = "open".to_string();
    assert!(!filters.matches(&record));
    record.state = "Closed".to_string();
    assert!(!filters.matches(&record));
    filters.state = IssueState::Closed;
    assert!(filters.matches(&record));
    filters.state = IssueState::All;
    record.state = "anything".to_string();
    assert!(filters.matches(&record));
}

#[test]
fn pull_requests_are_left_out_unless_included() {
    let mut filters = accept_all();
    let mut record = issue("title", None);
    record.is_pull_request = true;
    assert!(filters.matches(&record));
    filters.include_pull_requests = false;
    assert!(!filters.matches(&record));
    record.is_pull_request = false;
    assert!(filters.matches(&record));
}

#[test]
fn body_length_is_counted_in_bytes() {
    let mut filters = accept_all();
    filters.min_body_length = Some(4);
    assert!(!filters.matches(&issue("title", None)));
    assert!(!filters.matches(&issue("title", Some("abc"))));
    assert!(filters.matches(&issue("title", Some("abcd"))));
    assert!(filters.matches(&issue("title", Some("\u{00E9}\u{00E9}"))));
    filters.min_body_length = Some(0);
    assert!(filters.matches(&issue("title", None)));
}

#[test]
fn comment_count_has_a_floor() {
    let mut filters = accept_all();
    filters.min_comments = Some(3);
    let mut record = issue("title", None);
    assert!(!filters.matches(&record));
    record.comments = 3;
    assert!(filters.matches(&record));
}

#[test]
fn date_range_is_inclusive() {
    let mut filters = accept_all();
    let created = Timestamp::new(1_705_314_600, 500);
    let mut record = issue("title", None);
    record.created_at = created;
    filters.date_range = Some(DateRange { start: Some(created), end: Some(created) });
    assert!(filters.matches(&record));
    filters.date_range = Some(DateRange { start: Some(Timestamp::new(1_705_314_600, 501)), end: None });
    assert!(!filters.matches(&record));
    filters.date_range = Some(DateRange { start: None, end: Some(Timestamp::new(1_705_314_600, 499)) });
    assert!(!filters.matches(&record));
    filters.date_range = Some(DateRange { start: None, end: Some(Timestamp::new(1_705_314_601, 0)) });
    assert!(filters.matches(&record));
    filters.date_range = Some(DateRange { start: None, end: None });
    assert!(filters.matches(&record));
}

#[test]
fn date_range_contains() {
    let range = DateRange { start: Some(Timestamp::new(10, 0)), end: Some(Timestamp::new(20, 5)) };
    assert!(range.contains(Timestamp::new(10, 0)));
    assert!(range.contains(Timestamp::new(20, 5)));
    assert!(!range.contains(Timestamp::new(9, 999_999_999)));
    assert!(!range.contains(Timestamp::new(20, 6)));
}

#[test]
fn keywords_are_looked_for_in_lowercase() {
    let mut filters = accept_all();
    filters.required_keywords = vec!["Borrow".to_string(), "lifetime".to_string()];
    assert!(filters.matches(&issue("BORROW checker", None)));
    assert!(filters.matches(&issue("title", Some("a LifeTime problem"))));
    assert!(!filters.matches(&issue("title", Some("nothing of the kind"))));
    filters.required_keywords = vec![];
    filters.excluded_keywords = vec!["RFC".to_string()];
    assert!(!filters.matches(&issue("an rfc", None)));
    assert!(filters.matches(&issue("a bug", None)));
}

#[test]
fn keyword_may_span_title_and_body() {
    let mut filters = accept_all();
    filters.required_keywords = vec!["end start".to_string()];
    assert!(filters.matches(&issue("the end", Some("start of it"))));
}

#[test]
fn error_codes_are_looked_for_in_the_text_as_written() {
    let mut filters = accept_all();
    filters.rust_errors_only = true;
    assert!(filters.matches(&issue("Error E0382", Some("use of moved value"))));
    assert!(filters.matches(&issue("A problem", Some("the compiler says E0502"))));
    assert!(filters.matches(&issue("E01234", None)));
    assert!(!filters.matches(&issue("error e0382", Some("lowercase is no code"))));
    assert!(!filters.matches(&issue("no code", None)));
    assert!(!filters.matches(&issue("E03", Some("82"))));
    filters.rust_errors_only = false;
    assert!(filters.matches(&issue("no code", None)));
}

#[test]
fn error_code_list_is_empty_exactly_where_none_is_found() {
    for text in ["", "E0382", "e0382", "E03 82", "see E0502 and E0499", "E0", "xE01234x"] {
        assert_eq!(has_rust_error_codes(text), !extract_error_codes(text).is_empty(), "{}", text);
    }
}

fn lowered(labels: &[&str], wanted: &[&str], unwanted: &[&str], content: &str) -> LoweredTexts {
    let list = |texts: &[&str]| texts.iter().map(|t| t.to_string()).collect::<Vec<String>>();
    LoweredTexts {
        labels: list(labels),
        include_labels: list(wanted),
        exclude_labels: list(unwanted),
        content: content.to_string(),
        required_keywords: vec![],
        excluded_keywords: vec![],
    }
}

#[test]
fn prepared_texts_are_compared_as_they_stand() {
    let filters = accept_all();
    let record = issue("title", None);
    assert!(filters.matches_prepared(&record, &lowered(&[], &[], &[], ""), false));
    assert!(filters.matches_prepared(&record, &lowered(&["bug"], &["bug"], &[], ""), false));
    assert!(!filters.matches_prepared(&record, &lowered(&["Bug"], &["bug"], &[], ""), false));
    assert!(!filters.matches_prepared(&record, &lowered(&[], &["bug"], &[], ""), false));
    assert!(filters.matches_prepared(&record, &lowered(&["a", "b"], &["c", "b"], &[], ""), false));
    assert!(!filters.matches_prepared(&record, &lowered(&["a", "b"], &[], &["b"], ""), false));
    assert!(filters.matches_prepared(&record, &lowered(&["a", "b"], &[], &["c"], ""), false));

    let mut texts = lowered(&[], &[], &[], "a borrow problem");
    texts.required_keywords = vec!["lifetime".to_string(), "borrow".to_string()];
    assert!(filters.matches_prepared(&record, &texts, false));
    texts.required_keywords = vec!["Borrow".to_string()];
    assert!(!filters.matches_prepared(&record, &texts, false));
    texts.required_keywords = vec![];
    texts.excluded_keywords = vec!["problem".to_string()];
    assert!(!filters.matches_prepared(&record, &texts, false));
    texts.excluded_keywords = vec!["rfc".to_string()];
    assert!(filters.matches_prepared(&record, &texts, false));

    let mut strict = accept_all();
    strict.rust_errors_only = true;
    assert!(strict.matches_prepared(&record, &lowered(&[], &[], &[], ""), true));
    assert!(!strict.matches_prepared(&record, &lowered(&[], &[], &[], ""), false));
    strict.state = IssueState::Closed;
    assert!(!strict.matches_prepared(&record, &lowered(&[], &[], &[], ""), true));
}

#[test]
fn code_block_toggle_reads_the_body() {
    let mut filters = accept_all();
    filters.code_blocks_only = true;
    assert!(filters.matches(&issue("title", Some("see\n```\ncode\n```"))));
    assert!(filters.matches(&issue("title", Some("    let x = 1;"))));
    assert!(!filters.matches(&issue("    title", Some("plain"))));
    assert!(!filters.matches(&issue("```", None)));
}

#[test]
fn default_filters_hold_the_documented_values() {
    let filters = IssueFilters::default();
    assert_eq!(filters.state, IssueState::All);
    assert!(filters.include_labels.is_empty());
    assert_eq!(
        filters.exclude_labels,
        vec!["duplicate".to_string(), "invalid".to_string(), "wontfix".to_string(), "question".to_string()]
    );
    assert!(!filters.rust_errors_only);
    assert!(!filters.code_blocks_only);
    assert_eq!(filters.min_body_length, Some(50));
    assert_eq!(filters.date_range, None);
    assert!(!filters.include_pull_requests);
    assert_eq!(filters.min_comments, None);
    assert!(filters.required_keywords.is_empty());
    assert_eq!(
        filters.excluded_keywords,
        vec!["discussion".to_string(), "RFC".to_string(), "tracking".to_string()]
    );
}

#[test]
fn rust_error_focused_narrows_the_default() {
    let filters = IssueFilters::rust_error_focused();
    assert_eq!(
        filters.include_labels,
        vec![
            "E-help-wanted".to_string(),
            "A-diagnostics".to_string(),
            "A-borrowck".to_string(),
            "E-easy".to_string(),
            "E-medium".to_string()
        ]
    );
    assert!(filters.rust_errors_only);
    assert!(filters.code_blocks_only);
    assert_eq!(filters.min_body_length, Some(100));
    assert_eq!(filters.state, IssueState::All);
    assert_eq!(filters.exclude_labels.len(), 4);
    assert_eq!(filters.excluded_keywords.len(), 3);
    assert!(!filters.include_pull_requests);
}

#[test]
fn trace_of_the_default_filter_is_empty() {
    assert_eq!(describe_filters(&IssueFilters::default()), Vec::<String>::new());
}

#[test]
fn trace_names_each_option_that_differs_from_the_default() {
    let mut filters = IssueFilters::default();
    filters.state = IssueState::Open;
    assert_eq!(describe_filters(&filters), vec!["state: Open".to_string()]);

    let mut filters = IssueFilters::default();
    filters.state = IssueState::Closed;
    filters.date_range = Some(DateRange { start: Some(Timestamp::new(-5, 7)), end: None });
    filters.required_keywords = vec!["borrow".to_string()];
    assert_eq!(
        describe_filters(&filters),
        vec![
            "state: Closed".to_string(),
            "date_range: -5s+7ns to open".to_string(),
            "required_keywords: [\"borrow\"]".to_string(),
        ]
    );

    let mut filters = IssueFilters::default();
    filters.exclude_labels = vec![];
    filters.min_body_length = None;
    filters.excluded_keywords.push("more".to_string());
    assert_eq!(
        describe_filters(&filters),
        vec![
            "exclude_labels: []".to_string(),
            "min_body_length: none".to_string(),
            "excluded_keywords: [\"discussion\", \"RFC\", \"tracking\", \"more\"]".to_string(),
        ]
    );

    let mut filters = IssueFilters::default();
    filters.exclude_labels.swap(0, 1);
    filters.min_body_length = Some(50);
    assert_eq!(
        describe_filters(&filters),
        vec!["exclude_labels: [\"invalid\", \"duplicate\", \"wontfix\", \"question\"]".to_string()]
    );
}

#[test]
fn trace_lists_every_option_in_order() {
    let filters = IssueFilters {
        state: IssueState::Open,
        include_labels: vec!["a \"b\"".to_string()],
        exclude_labels: vec!["x".to_string()],
        rust_errors_only: true,
        code_blocks_only: true,
        min_body_length: Some(100),
        date_range: Some(DateRange {
            start: Some(Timestamp::new(1_705_314_600, 0)),
            end: Some(Timestamp::new(i64::MIN, 999_999_999)),
        }),
        include_pull_requests: true,
        min_comments: Some(0),
        required_keywords: vec!["k".to_string()],
        excluded_keywords: vec![],
    };
    assert_eq!(
        describe_filters(&filters),
        vec![
            "state: Open".to_string(),
            "include_labels: [\"a \\\"b\\\"\"]".to_string(),
            "exclude_labels: [\"x\"]".to_string(),
            "rust_errors_only: true".to_string(),
            "code_blocks_only: true".to_string(),
            "min_body_length: 100".to_string(),
            "date_range: 1705314600s+0ns to -9223372036854775808s+999999999ns".to_string(),
            "include_pull_requests: true".to_string(),
            "min_comments: 0".to_string(),
            "required_keywords: [\"k\"]".to_string(),
            "excluded_keywords: []".to_string(),
        ]
    );
}

#[test]
fn trace_of_the_error_focused_filter() {
    assert_eq!(
        describe_filters(&IssueFilters::rust_error_focused()),
        vec![
            "include_labels: [\"E-help-wanted\", \"A-diagnostics\", \"A-borrowck\", \"E-easy\", \"E-medium\"]".to_string(),
            "rust_errors_only: true".to_string(),
            "code_blocks_only: true".to_string(),
            "min_body_length: 100".to_string(),
        ]
    );
}
