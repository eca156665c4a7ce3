use sfkit::config::{apply, directory, location, Config, ConfigError, Location};

fn s(v: &str) -> Option<String> {
    Some(v.to_string())
}

fn with_org(org: &str) -> Config {
    let mut c = Config::new(false);
    c.target_org = s(org);
    c
}

#[test]
fn new_record_is_empty() {
    let c = Config::new(true);
    assert!(c.global);
    assert_eq!(c.target_org, None);
    assert_eq!(c.org_custom_metadata_templates, None);
}

#[test]
fn merge_prefers_present_values_of_self() {
    let mut a = Config::new(true);
    a.target_org = s("alice@example.com");
    a.disable_telemetry = s("true");
    let mut b = Config::new(false);
    b.target_org = s("bob@example.com");
    b.org_api_version = s("58.0");
    b.org_max_query_limit = s("10000");
    let m = a.merge(&b);
    assert_eq!(m.target_org, s("alice@example.com"));
    assert_eq!(m.disable_telemetry, s("true"));
    assert_eq!(m.org_api_version, s("58.0"));
    assert_eq!(m.org_max_query_limit, s("10000"));
    assert_eq!(m.target_dev_hub, None);
    assert!(m.global);
}

#[test]
fn merge_keeps_empty_string_as_present() {
    let mut a = Config::new(false);
    a.org_instance_url = s("");
    let mut b = Config::new(false);
    b.org_instance_url = s("https://example.my.site");
    assert_eq!(a.merge(&b).org_instance_url, s(""));
}

#[test]
fn absence_fallback() {
    let new_values = with_org("alice@example.com");
    let mut existing = with_org("bob@example.com");
    existing.org_api_version = s("58.0");
    let r = apply(&new_values, Ok(existing)).unwrap();
    let mut expected = with_org("alice@example.com");
    expected.org_api_version = s("58.0");
    assert_eq!(r, expected);
}

#[test]
fn apply_twice_layers_the_second_over_the_first() {
    let mut r1 = with_org("alice@example.com");
    r1.org_api_version = s("58.0");
    let mut r2 = Config::new(false);
    r2.org_api_version = s("59.0");
    r2.target_dev_hub = s("hub@example.com");
    let first = apply(&r1, Err(ConfigError::NotFound)).unwrap();
    let second = apply(&r2, Ok(first)).unwrap();
    assert_eq!(second.target_org, s("alice@example.com"));
    assert_eq!(second.org_api_version, s("59.0"));
    assert_eq!(second.target_dev_hub, s("hub@example.com"));
    assert_eq!(second.disable_telemetry, None);
}

#[test]
fn apply_is_idempotent() {
    let r = with_org("alice@example.com");
    let mut existing = Config::new(false);
    existing.org_instance_url = s("https://example.my.site");
    let once = apply(&r, Ok(existing)).unwrap();
    let twice = apply(&r, Ok(once.clone())).unwrap();
    assert_eq!(once, twice);
}

#[test]
fn missing_file_counts_as_empty_record() {
    let new_values = with_org("alice@example.com");
    let r = apply(&new_values, Err(ConfigError::NotFound)).unwrap();
    assert_eq!(r, new_values);
}

#[test]
fn other_load_failures_are_handed_back() {
    let new_values = with_org("alice@example.com");
    assert_eq!(apply(&new_values, Err(ConfigError::Parse)), Err(ConfigError::Parse));
    assert_eq!(
        apply(&new_values, Err(ConfigError::Environment)),
        Err(ConfigError::Environment)
    );
    assert_eq!(apply(&new_values, Err(ConfigError::Io)), Err(ConfigError::Io));
}

#[test]
fn scope_paths() {
    assert_eq!(location(&true), Location::Global);
    assert_eq!(location(&false), Location::Project);
    let d = directory(&false);
    assert_eq!(d.base, Location::Project);
    assert_eq!(d.relative, vec![".sfdx".to_string()]);
    let f = sfkit::config::file(&true);
    assert_eq!(f.base, Location::Global);
    assert_eq!(
        f.relative,
        vec![".sfdx".to_string(), "sfdx-config.json".to_string()]
    );
}
