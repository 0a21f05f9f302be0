use meta_fetcher::check_policy;
use meta_fetcher::resolve_robots_url;
use meta_fetcher::FetchError;

#[test]
fn test_invalid_url() {
    let result = resolve_robots_url("hi there");
    assert!(result.is_err());
}

#[test]
fn test_empty_url() {
    let result = resolve_robots_url("");
    assert!(result.is_err());
}

#[test]
fn test_invalid_url_error_kind() {
    assert_eq!(resolve_robots_url("no-scheme.example/path"), Err(FetchError::InvalidUrl));
    assert_eq!(resolve_robots_url("ftp://example.com/file"), Err(FetchError::InvalidUrl));
}

#[test]
fn test_resolve_robots_url_origin() {
    let resolved = resolve_robots_url("https://example.com/abc/file.html").unwrap();
    assert_eq!(resolved, "https://example.com/robots.txt".to_string());
    let resolved = resolve_robots_url("http://example.com").unwrap();
    assert_eq!(resolved, "http://example.com/robots.txt".to_string());
}

#[test]
fn test_policy_denies_all() {
    let policy = "User-agent: *\nDisallow: /";
    let result = check_policy("http://example.com/page", Some(policy));
    assert_eq!(result, Err(FetchError::RobotsDisallowed));
}

#[test]
fn test_policy_unavailable_allows() {
    let result = check_policy("http://example.com/page", None);
    assert_eq!(result, Ok(()));
}

#[test]
fn test_policy_allows_unmatched_path() {
    let policy = "User-agent: *\nDisallow: /private";
    assert_eq!(check_policy("http://example.com/public/page", Some(policy)), Ok(()));
    assert_eq!(
        check_policy("http://example.com/private/page", Some(policy)),
        Err(FetchError::RobotsDisallowed)
    );
}

#[test]
fn test_empty_policy_allows() {
    assert_eq!(check_policy("http://example.com/anything", Some("")), Ok(()));
}

#[test]
fn test_agent_specific_rule_overrides_wildcard() {
    let policy = "User-agent: *\nDisallow: /\n\nUser-agent: MetaFetcher/1.0\nAllow: /";
    assert_eq!(check_policy("http://example.com/page", Some(policy)), Ok(()));

    let policy = "User-agent: *\nAllow: /\n\nUser-agent: MetaFetcher/1.0\nDisallow: /";
    assert_eq!(
        check_policy("http://example.com/page", Some(policy)),
        Err(FetchError::RobotsDisallowed)
    );
}
