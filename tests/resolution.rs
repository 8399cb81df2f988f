use mosura::settings::{generate_token, merge_layers, ConfigError, ConfigLayer, Settings};

fn layer(api: Option<&str>, token: Option<&str>) -> ConfigLayer {
    ConfigLayer { api: api.map(|s| s.to_string()), token: token.map(|s| s.to_string()) }
}

#[test]
fn placeholder_token_value() {
    assert_eq!(generate_token(), "xxx-fakeauth");
}

#[test]
fn environment_wins_over_file_over_default() {
    let s = Settings::resolve(
        layer(Some("http://file:1"), Some("file-token")),
        layer(Some("http://env:2"), Some("env-token")),
    );
    assert_eq!(s.api, "http://env:2");
    assert_eq!(s.token, "env-token");
}

#[test]
fn file_wins_over_default() {
    let s = Settings::resolve(layer(Some("http://file:1"), Some("file-token")), layer(None, None));
    assert_eq!(s.api, "http://file:1");
    assert_eq!(s.token, "file-token");
}

#[test]
fn precedence_is_per_field() {
    let s = Settings::resolve(layer(Some("http://file:1"), None), layer(None, Some("env-token")));
    assert_eq!(s.api, "http://file:1");
    assert_eq!(s.token, "env-token");
    let s = Settings::resolve(layer(None, Some("file-token")), layer(Some("http://env:2"), None));
    assert_eq!(s.api, "http://env:2");
    assert_eq!(s.token, "file-token");
}

#[test]
fn no_sources_give_defaults_and_placeholder() {
    let s = Settings::resolve(layer(None, None), layer(None, None));
    assert_eq!(s.api, "http://localhost:8080");
    assert_eq!(s.token, "xxx-fakeauth");
    assert!(!s.token.is_empty());
}

#[test]
fn resolution_is_repeatable() {
    let a = Settings::resolve(layer(Some("http://file:1"), None), layer(None, Some("t")));
    let b = Settings::resolve(layer(Some("http://file:1"), None), layer(None, Some("t")));
    assert_eq!(a.api, b.api);
    assert_eq!(a.token, b.token);
    let c = Settings::resolve(layer(None, None), layer(None, None));
    let d = Settings::resolve(layer(None, None), layer(None, None));
    assert_eq!(c.token, d.token);
}

#[test]
fn merge_layers_later_wins() {
    let merged = merge_layers(&vec![
        layer(Some("a"), Some("x")),
        layer(None, Some("y")),
        layer(Some("c"), None),
    ]);
    assert_eq!(merged.api, Some("c".to_string()));
    assert_eq!(merged.token, Some("y".to_string()));
    let none = merge_layers(&vec![]);
    assert_eq!(none.api, None);
    assert_eq!(none.token, None);
}

#[test]
fn overlay_replaces_only_set_fields() {
    let mut low = layer(Some("a"), Some("x"));
    low.overlay(&layer(None, Some("y")));
    assert_eq!(low.api, Some("a".to_string()));
    assert_eq!(low.token, Some("y".to_string()));
}

#[test]
fn new_reports_file_failure_first() {
    let r = Settings::new(
        Err(ConfigError::Malformed("bad yaml".to_string())),
        Err(ConfigError::InvalidEnv("bad env".to_string())),
    );
    assert!(matches!(r, Err(ConfigError::Malformed(ref c)) if c == "bad yaml"));
}

#[test]
fn new_reports_unwritable() {
    let r = Settings::new(Err(ConfigError::Unwritable("denied".to_string())), Ok(layer(None, None)));
    assert!(matches!(r, Err(ConfigError::Unwritable(_))));
}

#[test]
fn new_reports_environment_failure() {
    let r = Settings::new(Ok(layer(None, None)), Err(ConfigError::InvalidEnv("bad env".to_string())));
    assert!(matches!(r, Err(ConfigError::InvalidEnv(_))));
}

#[test]
fn new_resolves_when_both_read() {
    let s = Settings::new(Ok(layer(Some("http://file:1"), None)), Ok(layer(None, None))).ok().unwrap();
    assert_eq!(s.api, "http://file:1");
    assert_eq!(s.token, "xxx-fakeauth");
}
