use fakos::filter::FilterError;
use fakos::EnvVarsFilter;

#[test]
fn plain_pattern_matches_anywhere() {
    let f = EnvVarsFilter::parse("app").ok().unwrap();
    assert!(!f.is_inverted());
    assert_eq!(f.pattern(), "app");
    assert!(f.matches("my-app-1"));
    assert!(!f.matches("db"));
}

#[test]
fn leading_bang_inverts() {
    let f = EnvVarsFilter::parse("!app").ok().unwrap();
    assert!(f.is_inverted());
    assert_eq!(f.pattern(), "app");
    assert!(!f.matches("my-app-1"));
    assert!(f.matches("db"));
}

#[test]
fn negated_pattern_is_opposite() {
    let p = EnvVarsFilter::parse("^side").ok().unwrap();
    let n = EnvVarsFilter::parse("!^side").ok().unwrap();
    for s in ["sidecar", "main", "", "a-side"] {
        assert_eq!(n.matches(s), !p.matches(s));
    }
}

#[test]
fn invalid_pattern_is_refused() {
    match EnvVarsFilter::parse("(") {
        Err(FilterError::InvalidPattern(m)) => {
            assert_eq!(m, regex::Regex::new("(").unwrap_err().to_string());
            assert!(!m.is_empty());
        }
        Ok(_) => panic!("an unclosed group compiled"),
    }
    assert!(EnvVarsFilter::parse("!(").is_err());
}

#[test]
fn from_str_reads_filters() {
    let f: EnvVarsFilter = "!x".parse().unwrap();
    assert!(f.is_inverted());
    assert!("[".parse::<EnvVarsFilter>().is_err());
    match "!(".parse::<EnvVarsFilter>() {
        Err(m) => assert_eq!(m, regex::Regex::new("(").unwrap_err().to_string()),
        Ok(_) => panic!("an unclosed group compiled"),
    }
    let g: EnvVarsFilter = "a|b".parse().unwrap();
    assert!(!g.is_inverted());
    assert_eq!(g.pattern(), "a|b");
}

#[test]
fn error_message_is_the_regex_message() {
    match EnvVarsFilter::parse("!a[") {
        Err(e) => assert_eq!(e.message(), regex::Regex::new("a[").unwrap_err().to_string()),
        Ok(_) => panic!("an unclosed class compiled"),
    }
}

#[test]
fn cloned_filter_keeps_pattern() {
    let f = EnvVarsFilter::parse("!^db-").ok().unwrap();
    let g = f.clone();
    assert_eq!(g.pattern(), "^db-");
    assert!(g.is_inverted());
    assert!(g.matches("web"));
    assert!(!g.matches("db-1"));
}
