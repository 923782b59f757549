use llmproxify::errors::AppError;
use llmproxify::registry::ProviderTable;
use llmproxify::resolver::{append_query, build, get_upstream_url, join_remainder};

#[test]
fn join_appends_to_a_base_with_trailing_slash() {
    assert_eq!(
        build("https://api.openai.com/", "v1/chat/completions", None).unwrap(),
        "https://api.openai.com/v1/chat/completions"
    );
    assert_eq!(
        build("https://example.com/api/", "v1/models", None).unwrap(),
        "https://example.com/api/v1/models"
    );
}

#[test]
fn join_replaces_the_last_segment_without_trailing_slash() {
    assert_eq!(
        build("https://example.com/api", "v1/models", None).unwrap(),
        "https://example.com/v1/models"
    );
}

#[test]
fn join_on_a_bare_host_appends() {
    assert_eq!(
        build("https://api.openai.com", "v1/chat/completions", None).unwrap(),
        "https://api.openai.com/v1/chat/completions"
    );
}

#[test]
fn join_normalizes_the_base() {
    assert_eq!(
        join_remainder("HTTPS://API.OpenAI.com", "v1").unwrap(),
        "https://api.openai.com/v1"
    );
}

#[test]
fn join_collapses_parent_segments() {
    assert_eq!(
        build("https://example.com/a/b/", "../c", None).unwrap(),
        "https://example.com/a/c"
    );
}

#[test]
fn empty_remainder_gives_the_base() {
    assert_eq!(
        build("https://api.openai.com/", "", None).unwrap(),
        "https://api.openai.com/"
    );
}

#[test]
fn query_is_appended_verbatim() {
    assert_eq!(
        build("https://api.openai.com/", "v1/models", Some("limit=5")).unwrap(),
        "https://api.openai.com/v1/models?limit=5"
    );
    assert_eq!(
        build("https://api.openai.com/", "v1/models", Some("q=a b&x=%20")).unwrap(),
        "https://api.openai.com/v1/models?q=a b&x=%20"
    );
    assert_eq!(
        build("https://api.openai.com/", "v1/models", Some("")).unwrap(),
        "https://api.openai.com/v1/models?"
    );
}

#[test]
fn append_query_without_query_returns_the_url() {
    assert_eq!(append_query("https://a.example/x".to_string(), None), "https://a.example/x");
    assert_eq!(
        append_query("https://a.example/x".to_string(), Some("k=v")),
        "https://a.example/x?k=v"
    );
}

#[test]
fn malformed_base_is_a_parse_error() {
    match build("not a url", "v1", None) {
        Err(AppError::UrlParseError(error)) => {
            assert_eq!(error, url::ParseError::RelativeUrlWithoutBase);
        }
        other => panic!("unexpected: {:?}", other),
    }
    match build("https://", "v1", Some("a=b")) {
        Err(AppError::UrlParseError(error)) => assert_eq!(error, url::ParseError::EmptyHost),
        other => panic!("unexpected: {:?}", other),
    }
}

#[test]
fn failing_join_is_a_parse_error() {
    match build("https://api.openai.com/", "https://:bad", None) {
        Err(AppError::UrlParseError(_)) => {}
        other => panic!("unexpected: {:?}", other),
    }
}

#[test]
fn upstream_url_of_a_known_provider() {
    let table = ProviderTable::with_defaults();
    assert_eq!(
        get_upstream_url(&table, "openai", "v1/models", Some("limit=5")).unwrap(),
        "https://api.openai.com/v1/models?limit=5"
    );
    assert_eq!(
        get_upstream_url(&table, "anthropic", "v1/messages", None).unwrap(),
        "https://api.anthropic.com/v1/messages"
    );
}

#[test]
fn upstream_url_of_an_unknown_provider() {
    let table = ProviderTable::with_defaults();
    match get_upstream_url(&table, "nope", "v1/models", Some("limit=5")) {
        Err(AppError::ProviderNotFound(name)) => assert_eq!(name, "nope"),
        other => panic!("unexpected: {:?}", other),
    }
}

#[test]
fn upstream_url_of_a_provider_with_a_bad_base() {
    let mut table = ProviderTable::new();
    table.insert("broken".to_string(), "::::".to_string());
    assert!(matches!(
        get_upstream_url(&table, "broken", "v1", None),
        Err(AppError::UrlParseError(_))
    ));
}
