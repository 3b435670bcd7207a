use sourcepin::registry::Registry;
use sourcepin::{Error, Source};

fn sample(url: &str) -> Source {
    Source::new(url.to_string())
}

#[test]
fn add_then_get_returns_the_source() {
    let mut registry = Registry::new();
    registry
        .add("foo".to_string(), sample("https://example.com/a"))
        .unwrap();
    assert_eq!(registry.get("foo").unwrap().url, "https://example.com/a");
    assert!(registry.contains("foo"));
    assert_eq!(registry.len(), 1);
}

#[test]
fn add_duplicate_fails_without_mutating() {
    let mut registry = Registry::new();
    registry
        .add("foo".to_string(), sample("https://example.com/a"))
        .unwrap();
    let err = registry
        .add("foo".to_string(), sample("https://example.com/b"))
        .unwrap_err();
    assert!(matches!(err, Error::DuplicateName(ref n) if n == "foo"));
    assert_eq!(err.message(), "source foo already exists");
    assert_eq!(registry.len(), 1);
    assert_eq!(registry.get("foo").unwrap().url, "https://example.com/a");
}

#[test]
fn remove_missing_fails_without_mutating() {
    let mut registry = Registry::new();
    registry
        .add("foo".to_string(), sample("https://example.com/a"))
        .unwrap();
    let err = registry.remove("bar").unwrap_err();
    assert!(matches!(err, Error::UnknownName(ref n) if n == "bar"));
    assert_eq!(err.message(), "source bar does not exist");
    assert_eq!(registry.len(), 1);
    assert!(registry.contains("foo"));
}

#[test]
fn set_missing_fails_without_mutating() {
    let mut registry = Registry::new();
    registry
        .add("foo".to_string(), sample("https://example.com/a"))
        .unwrap();
    let err = registry
        .set("bar", sample("https://example.com/b"))
        .unwrap_err();
    assert!(matches!(err, Error::UnknownName(ref n) if n == "bar"));
    assert_eq!(registry.len(), 1);
    assert_eq!(registry.get("foo").unwrap().url, "https://example.com/a");
}

#[test]
fn set_replaces_existing_entry() {
    let mut registry = Registry::new();
    registry
        .add("foo".to_string(), sample("https://example.com/a"))
        .unwrap();
    registry
        .set("foo", sample("https://example.com/b"))
        .unwrap();
    assert_eq!(registry.len(), 1);
    assert_eq!(registry.get("foo").unwrap().url, "https://example.com/b");
}

#[test]
fn remove_deletes_the_entry() {
    let mut registry = Registry::new();
    registry
        .add("foo".to_string(), sample("https://example.com/a"))
        .unwrap();
    registry
        .add("bar".to_string(), sample("https://example.com/b"))
        .unwrap();
    registry.remove("foo").unwrap();
    assert_eq!(registry.len(), 1);
    assert!(!registry.contains("foo"));
    assert!(registry.contains("bar"));
}

#[test]
fn names_keep_insertion_order() {
    let mut registry = Registry::new();
    registry
        .add("foo".to_string(), sample("https://example.com/a"))
        .unwrap();
    registry
        .add("bar".to_string(), sample("https://example.com/b"))
        .unwrap();
    registry
        .add("baz".to_string(), sample("https://example.com/c"))
        .unwrap();
    assert_eq!(registry.names(), vec!["foo", "bar", "baz"]);
}

#[test]
fn empty_registry_has_nothing() {
    let registry = Registry::new();
    assert_eq!(registry.len(), 0);
    assert!(!registry.contains("foo"));
    assert!(registry.get("foo").is_none());
    assert!(registry.names().is_empty());
}
