use llmproxify::errors::AppError;
use llmproxify::overrides::{parse_overrides, OverrideEntry, Overrides};
use llmproxify::registry::{load_env_providers, ProviderTable};

fn url_of(table: &ProviderTable, name: &str) -> Option<String> {
    table.resolve(name).ok()
}

#[test]
fn defaults_resolve_to_their_base_urls() {
    let table = ProviderTable::with_defaults();
    assert_eq!(table.len(), 6);
    assert_eq!(table.resolve("openai").unwrap(), "https://api.openai.com/");
    assert_eq!(table.resolve("groq").unwrap(), "https://api.groq.com/");
    assert_eq!(table.resolve("cerebras").unwrap(), "https://api.cerebras.ai/");
    assert_eq!(
        table.resolve("gemini").unwrap(),
        "https://generativelanguage.googleapis.com/"
    );
    assert_eq!(table.resolve("sambanova").unwrap(), "https://api.sambanova.ai/");
    assert_eq!(table.resolve("anthropic").unwrap(), "https://api.anthropic.com/");
}

#[test]
fn unknown_provider_is_not_found() {
    let table = ProviderTable::with_defaults();
    match table.resolve("nope") {
        Err(AppError::ProviderNotFound(name)) => assert_eq!(name, "nope"),
        other => panic!("unexpected: {:?}", other),
    }
}

#[test]
fn provider_names_are_case_sensitive() {
    let table = ProviderTable::with_defaults();
    assert!(matches!(
        table.resolve("OpenAI"),
        Err(AppError::ProviderNotFound(_))
    ));
}

#[test]
fn empty_table_resolves_nothing() {
    let table = ProviderTable::new();
    assert_eq!(table.len(), 0);
    assert!(matches!(
        table.resolve("openai"),
        Err(AppError::ProviderNotFound(_))
    ));
}

#[test]
fn insert_adds_and_replaces() {
    let mut table = ProviderTable::new();
    table.insert("a".to_string(), "https://a.example/".to_string());
    table.insert("b".to_string(), "https://b.example/".to_string());
    assert_eq!(table.len(), 2);
    table.insert("a".to_string(), "https://other.example/".to_string());
    assert_eq!(table.len(), 2);
    assert_eq!(url_of(&table, "a").unwrap(), "https://other.example/");
    assert_eq!(url_of(&table, "b").unwrap(), "https://b.example/");
}

#[test]
fn merge_applies_string_members_in_order() {
    let mut table = ProviderTable::with_defaults();
    let document = Overrides::Object(vec![
        OverrideEntry {
            name: "groq".to_string(),
            url: Some("https://first.example/".to_string()),
        },
        OverrideEntry {
            name: "openai".to_string(),
            url: None,
        },
        OverrideEntry {
            name: "groq".to_string(),
            url: Some("https://second.example/".to_string()),
        },
    ]);
    table.merge(&document);
    assert_eq!(table.len(), 6);
    assert_eq!(url_of(&table, "groq").unwrap(), "https://second.example/");
    assert_eq!(url_of(&table, "openai").unwrap(), "https://api.openai.com/");
}

#[test]
fn merge_of_a_non_object_changes_nothing() {
    let mut table = ProviderTable::with_defaults();
    table.merge(&Overrides::NotObject);
    assert_eq!(table.len(), 6);
    assert_eq!(url_of(&table, "openai").unwrap(), "https://api.openai.com/");
}

#[test]
fn load_without_overrides_gives_the_defaults() {
    let table = load_env_providers(None);
    assert_eq!(table.len(), 6);
    assert_eq!(url_of(&table, "anthropic").unwrap(), "https://api.anthropic.com/");
}

#[test]
fn load_applies_overrides_and_skips_non_strings() {
    let text = "{\"openai\":\"https://mirror.example/\",\"local\":\"http://localhost:11434/\",\"groq\":5,\"extra\":null}";
    let table = load_env_providers(Some(text));
    assert_eq!(table.len(), 7);
    assert_eq!(url_of(&table, "openai").unwrap(), "https://mirror.example/");
    assert_eq!(url_of(&table, "local").unwrap(), "http://localhost:11434/");
    assert_eq!(url_of(&table, "groq").unwrap(), "https://api.groq.com/");
    assert!(url_of(&table, "extra").is_none());
}

#[test]
fn malformed_overrides_leave_the_defaults() {
    let table = load_env_providers(Some("{\"openai\": "));
    assert_eq!(table.len(), 6);
    assert_eq!(url_of(&table, "openai").unwrap(), "https://api.openai.com/");
}

#[test]
fn overrides_that_are_no_object_leave_the_defaults() {
    let table = load_env_providers(Some("[\"https://mirror.example/\"]"));
    assert_eq!(table.len(), 6);
    assert_eq!(url_of(&table, "openai").unwrap(), "https://api.openai.com/");
    let table = load_env_providers(Some("\"openai\""));
    assert_eq!(table.len(), 6);
}

#[test]
fn parse_overrides_reads_the_members() {
    match parse_overrides("{\"b\":\"https://b.example/\",\"a\":[1]}").unwrap() {
        Overrides::Object(members) => {
            assert_eq!(members.len(), 2);
            let a = members.iter().find(|m| m.name == "a").unwrap();
            let b = members.iter().find(|m| m.name == "b").unwrap();
            assert_eq!(a.url, None);
            assert_eq!(b.url, Some("https://b.example/".to_string()));
        }
        Overrides::NotObject => panic!("an object was expected"),
    }
    assert!(matches!(parse_overrides("17").unwrap(), Overrides::NotObject));
}

#[test]
fn parse_overrides_reports_malformed_json() {
    match parse_overrides("not json") {
        Err(AppError::SerdeJsonError(error)) => {
            assert_eq!(error.to_string(), "expected ident at line 1 column 2");
        }
        other => panic!("unexpected: {:?}", other),
    }
}
