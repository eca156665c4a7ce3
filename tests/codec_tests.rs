use sfkit::codec::{frame, from_members, parse};
use sfkit::config::{Config, ConfigError};

fn s(v: &str) -> Option<String> {
    Some(v.to_string())
}

#[test]
fn render_writes_present_settings_in_order() {
    let mut c = Config::new(false);
    c.org_api_version = s("58.0");
    c.target_org = s("alice@example.com");
    assert_eq!(
        c.render(),
        "{\"target-org\":\"alice@example.com\",\"org-api-version\":\"58.0\"}\n"
    );
}

#[test]
fn render_empty_record() {
    assert_eq!(Config::new(true).render(), "{}\n");
}

#[test]
fn render_escapes_values() {
    let mut c = Config::new(false);
    c.org_custom_metadata_templates = s("dir\\with \"quotes\"");
    assert_eq!(
        c.render(),
        "{\"org-custom-metadata-templates\":\"dir\\\\with \\\"quotes\\\"\"}\n"
    );
}

#[test]
fn render_escapes_control_characters() {
    let mut c = Config::new(false);
    c.org_instance_url = s("a\tb\u{1}\n");
    assert_eq!(
        c.render(),
        "{\"org-instance-url\":\"a\\tb\\u0001\\n\"}\n"
    );
}

#[test]
fn frame_lays_out_given_values() {
    let quoted = vec![None, s("\"hub\""), None, None, s("\"false\""), None, None, None];
    assert_eq!(
        frame(&quoted),
        "{\"target-dev-hub\":\"hub\",\"disable-telemetry\":\"false\"}\n"
    );
}

#[test]
fn round_trip() {
    let mut c = Config::new(false);
    c.target_org = s("alice@example.com");
    c.target_dev_hub = s("hub@example.com");
    c.org_api_version = s("58.0");
    c.org_metadata_rest_deploy = s("true");
    c.org_instance_url = s("https://example.my.site");
    c.org_max_query_limit = s("50000");
    c.org_custom_metadata_templates = s("tmpl/\"x\"");
    let text = c.render();
    assert_eq!(parse(&text), Ok(c));
}

#[test]
fn round_trip_keeps_absent_fields_absent() {
    let mut c = Config::new(false);
    c.disable_telemetry = s("false");
    let back = parse(&c.render()).unwrap();
    assert_eq!(back.disable_telemetry, s("false"));
    assert_eq!(back.target_org, None);
    assert_eq!(back, c);
}

#[test]
fn legacy_alias_acceptance() {
    let c = parse("{\"defaultusername\": \"carol@example.com\"}").unwrap();
    assert_eq!(c.target_org, s("carol@example.com"));
    assert_eq!(c.target_dev_hub, None);
}

#[test]
fn every_alias_is_read() {
    let text = "{\"defaultdevhubusername\":\"a\",\"apiVersion\":\"b\",\"restDeploy\":\"c\",\
                \"disableTelemetry\":\"d\",\"instanceUrl\":\"e\",\"maxQueryLimit\":\"f\",\
                \"customOrgMetadataTemplates\":\"g\"}";
    let c = parse(text).unwrap();
    assert_eq!(c.target_dev_hub, s("a"));
    assert_eq!(c.org_api_version, s("b"));
    assert_eq!(c.org_metadata_rest_deploy, s("c"));
    assert_eq!(c.disable_telemetry, s("d"));
    assert_eq!(c.org_instance_url, s("e"));
    assert_eq!(c.org_max_query_limit, s("f"));
    assert_eq!(c.org_custom_metadata_templates, s("g"));
}

#[test]
fn unknown_members_are_ignored_and_null_is_absent() {
    let c = parse("{\"target-org\":null,\"other\":[1,2],\"org-api-version\":\"60.0\"}").unwrap();
    assert_eq!(c.target_org, None);
    assert_eq!(c.org_api_version, s("60.0"));
    assert!(!c.global);
}

#[test]
fn parse_rejects_what_is_not_an_object() {
    assert_eq!(parse("[1, 2]"), Err(ConfigError::Parse));
    assert_eq!(parse("not json"), Err(ConfigError::Parse));
    assert_eq!(parse(""), Err(ConfigError::Parse));
}

#[test]
fn parse_rejects_a_setting_that_is_not_a_string() {
    assert_eq!(parse("{\"org-max-query-limit\": 10}"), Err(ConfigError::Parse));
}

#[test]
fn parse_rejects_key_and_alias_together() {
    assert_eq!(
        parse("{\"target-org\":\"a\",\"defaultusername\":\"b\"}"),
        Err(ConfigError::Parse)
    );
}

#[test]
fn from_members_reads_given_members() {
    let ms = vec![
        ("apiVersion".to_string(), Some(s("57.0"))),
        ("target-dev-hub".to_string(), Some(None)),
        ("other".to_string(), None),
    ];
    let c = from_members(&ms).unwrap();
    assert_eq!(c.org_api_version, s("57.0"));
    assert_eq!(c.target_dev_hub, None);
    let bad = vec![("restDeploy".to_string(), None)];
    assert_eq!(from_members(&bad), Err(ConfigError::Parse));
}
