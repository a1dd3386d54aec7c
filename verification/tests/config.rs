use bad_email::config::{Config, UNWANTED_DOMAINS_FIELD};
use bad_email::Config as RootConfig;

#[test]
fn from_toml_reads_the_listed_domains() {
    let config = Config::from_toml(
        "unwanted_domains = [\"quackquack.com\", \"throwawayemailaddress.com\"]",
    )
    .unwrap();
    assert!(!config.unwanted_domains.is_empty());
    let expected_domains = vec!["quackquack.com", "throwawayemailaddress.com"];
    for domain in expected_domains {
        assert!(config.unwanted_domains.contains(&domain.to_string()));
    }
    assert_eq!(config.unwanted_domains.len(), 2);
    assert_eq!(config.len(), 2);
}

#[test]
fn from_toml_keeps_order_and_repetitions() {
    let config = Config::from_toml("unwanted_domains = ['b.org', 'a.org', 'b.org']").unwrap();
    assert_eq!(config.unwanted_domains, vec!["b.org", "a.org", "b.org"]);
    assert_eq!(config.len(), 3);
}

#[test]
fn from_toml_does_not_hand_the_text_back() {
    let text = "unwanted_domains = [\"a.org\"]";
    let config = Config::from_toml(text).unwrap();
    assert_eq!(config.unwanted_domains, vec!["a.org".to_string()]);
    assert!(!config.contains(text));
}

#[test]
fn from_toml_accepts_an_empty_list() {
    let config = Config::from_toml("unwanted_domains = []").unwrap();
    assert_eq!(config.len(), 0);
    assert!(!config.contains(""));
}

#[test]
fn from_toml_ignores_other_keys() {
    let text = "title = 'list'\nunwanted_domains = ['a.org']\n\n[owner]\nname = 'x'\n";
    let config = Config::from_toml(text).unwrap();
    assert_eq!(config.unwanted_domains, vec!["a.org"]);
}

#[test]
fn from_toml_keeps_entries_as_written() {
    let config = Config::from_toml("unwanted_domains = [' A.org ', 'b.ORG.']").unwrap();
    assert_eq!(config.unwanted_domains, vec![" A.org ", "b.ORG."]);
}

#[test]
fn from_toml_rejects_what_is_not_toml() {
    assert!(Config::from_toml("unwanted_domains = [").is_none());
    assert!(Config::from_toml("this is not a document").is_none());
    assert!(Config::from_toml("unwanted_domains = ['a']\nunwanted_domains = ['b']").is_none());
}

#[test]
fn from_toml_rejects_a_missing_field() {
    assert!(Config::from_toml("").is_none());
    assert!(Config::from_toml("domains = ['a.org']").is_none());
    assert!(Config::from_toml("[unwanted]\nunwanted_domains = ['a.org']").is_none());
}

#[test]
fn from_toml_rejects_a_field_that_is_no_array() {
    assert!(Config::from_toml("unwanted_domains = 'a.org'").is_none());
    assert!(Config::from_toml("unwanted_domains = 3").is_none());
    assert!(Config::from_toml("[unwanted_domains]\na = 'a.org'").is_none());
}

#[test]
fn from_toml_rejects_entries_that_are_no_strings() {
    assert!(Config::from_toml("unwanted_domains = ['a.org', 3]").is_none());
    assert!(Config::from_toml("unwanted_domains = [['a.org']]").is_none());
    assert!(Config::from_toml("unwanted_domains = [true]").is_none());
    assert!(Config::from_toml("unwanted_domains = [1979-05-27]").is_none());
}

#[test]
fn field_name_is_unwanted_domains() {
    assert_eq!(UNWANTED_DOMAINS_FIELD, "unwanted_domains");
}

#[test]
fn new_keeps_the_entries() {
    let config = Config::new(vec!["a.org".to_string(), "b.org".to_string()]);
    assert_eq!(config.unwanted_domains, vec!["a.org", "b.org"]);
    assert_eq!(config.len(), 2);
}

#[test]
fn contains_is_exact() {
    let config = Config::new(vec!["mostlysunny.com".to_string()]);
    assert!(config.contains("mostlysunny.com"));
    assert!(!config.contains("mostlysunny.co"));
    assert!(!config.contains("mostlysunny.com."));
    assert!(!config.contains("Mostlysunny.com"));
    assert!(!config.contains("sunny.com"));
    assert!(!config.contains(""));
}

#[test]
fn contains_finds_any_position() {
    let config = Config::new(vec!["a".to_string(), "b".to_string(), "c".to_string()]);
    assert!(config.contains("a"));
    assert!(config.contains("b"));
    assert!(config.contains("c"));
    assert!(!config.contains("d"));
}

#[test]
fn config_is_exported_at_the_root() {
    let config = RootConfig::new(Vec::new());
    assert_eq!(config.len(), 0);
}
