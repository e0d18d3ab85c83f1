use tcfetch::filter::name_matches_filters;
use tcfetch::filter::TaskFilter;
use tcfetch::Error;

fn evaluate(pattern: &str, name: &str) -> bool {
    match TaskFilter::new(pattern) {
        Ok(f) => f.is_match(name),
        Err(_) => panic!("pattern `{}` should compile", pattern),
    }
}

const NAMES: [&str; 7] = [
    "foo",
    "xx-foo-yy",
    "bar",
    "abcd",
    "zabc",
    "",
    "wpt-chrome-dev-stability",
];

#[test]
fn uninverted_pattern_matches_like_anchored_contains() {
    let cases = [
        ("foo", "^.*(?:foo)"),
        ("-chrome-|-firefox-", "^.*(?:-chrome-|-firefox-)"),
        ("^abc", "^abc"),
    ];
    for (pattern, wrapped) in cases {
        let raw = regex::Regex::new(wrapped).unwrap();
        for name in NAMES {
            assert_eq!(
                evaluate(pattern, name),
                raw.is_match(name),
                "pattern `{}` on `{}`",
                pattern,
                name
            );
        }
    }
}

#[test]
fn unanchored_pattern_matches_anywhere() {
    assert!(evaluate("foo", "xx-foo-yy"));
    assert!(evaluate("foo", "foo"));
    assert!(!evaluate("foo", "bar"));
}

#[test]
fn anchored_pattern_matches_only_at_start() {
    assert!(evaluate("^abc", "abcd"));
    assert!(!evaluate("^abc", "zabc"));
}

#[test]
fn leading_bang_negates_evaluation() {
    for pattern in ["foo", "^abc", "-chrome-|-firefox-"] {
        let inverted = format!("!{}", pattern);
        for name in NAMES {
            assert_eq!(
                evaluate(&inverted, name),
                !evaluate(pattern, name),
                "pattern `{}` on `{}`",
                pattern,
                name
            );
        }
    }
}

#[test]
fn filter_list_is_an_and_combination() {
    let f1 = TaskFilter::new("foo").unwrap();
    let f2 = TaskFilter::new("!bar").unwrap();
    let filters = vec![f1, f2];
    // accepted: contains foo, does not contain bar
    assert!(name_matches_filters("xx-foo-yy", &filters));
    // rejected by f1
    assert!(!name_matches_filters("xx-yy", &filters));
    // rejected by f2
    assert!(!name_matches_filters("foo-bar", &filters));
    for name in NAMES {
        assert_eq!(
            name_matches_filters(name, &filters),
            evaluate("foo", name) && evaluate("!bar", name),
            "list on `{}`",
            name
        );
    }
}

#[test]
fn empty_filter_list_accepts_everything() {
    let filters: Vec<TaskFilter> = vec![];
    for name in NAMES {
        assert!(name_matches_filters(name, &filters));
    }
}

#[test]
fn invalid_pattern_is_rejected() {
    assert!(matches!(TaskFilter::new("["), Err(Error::InvalidFilter)));
    assert!(matches!(TaskFilter::new("!["), Err(Error::InvalidFilter)));
    assert!(matches!(TaskFilter::new("^("), Err(Error::InvalidFilter)));
}
