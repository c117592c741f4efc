use killallgit::error::CleanError;
use killallgit::pattern::{filter_names, PatternFilter};

fn names(items: &[&str]) -> Vec<String> {
    items.iter().map(|s| s.to_string()).collect()
}

#[test]
fn bare_literal_matches_anywhere() {
    let all = names(&["feature/x", "my-feature", "main", "feat"]);
    assert_eq!(filter_names("feature", &all), Ok(names(&["feature/x", "my-feature"])));
}

#[test]
fn anchors_are_honoured() {
    let all = names(&["feature/x", "my-feature", "feature"]);
    assert_eq!(filter_names("^feature$", &all), Ok(names(&["feature"])));
    assert_eq!(filter_names("^feature", &all), Ok(names(&["feature/x", "feature"])));
}

#[test]
fn filter_keeps_the_order_of_the_listing() {
    let all = names(&["zeta/1", "alpha/2", "zeta/0", "beta", "alpha/1"]);
    assert_eq!(
        filter_names("(zeta|alpha)/", &all),
        Ok(names(&["zeta/1", "alpha/2", "zeta/0", "alpha/1"]))
    );
}

#[test]
fn empty_pattern_matches_everything() {
    let all = names(&["a", "", "b"]);
    assert_eq!(filter_names("", &all), Ok(all.clone()));
}

#[test]
fn invalid_pattern_is_reported() {
    let all = names(&["a"]);
    match filter_names("feature/(", &all) {
        Err(CleanError::InvalidPattern(message)) => {
            assert!(message.starts_with("Invalid regex pattern: "));
            assert!(message.len() > "Invalid regex pattern: ".len());
            assert!(message.contains("unclosed group"));
        }
        other => panic!("expected an invalid pattern error, got {:?}", other),
    }
    assert!(matches!(filter_names("[", &Vec::new()), Err(CleanError::InvalidPattern(_))));
    assert!(matches!(filter_names("a{2,1}", &all), Err(CleanError::InvalidPattern(_))));
}

#[test]
fn compiled_filter_tests_single_names() {
    let filter = match PatternFilter::new("feat(ure)?/.*") {
        Ok(filter) => filter,
        Err(e) => panic!("pattern should compile: {:?}", e),
    };
    assert!(filter.is_match("feature/a"));
    assert!(filter.is_match("feat/a"));
    assert!(filter.is_match("x/feat/"));
    assert!(!filter.is_match("feature"));
    assert!(!filter.is_match(""));
    assert_eq!(
        filter.filter(&names(&["feature/a", "main", "feat/b"])),
        names(&["feature/a", "feat/b"])
    );
}

#[test]
fn invalid_pattern_fails_to_compile() {
    assert!(PatternFilter::new("(").is_err());
    assert!(PatternFilter::new("\\").is_err());
    assert!(PatternFilter::new(".*").is_ok());
}
