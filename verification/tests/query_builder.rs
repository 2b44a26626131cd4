use loki_harvester::config::LokiConfig;
use loki_harvester::harvest::labels_command;
use loki_harvester::query::LokiQueryBuilder;
use loki_harvester::time::{TimeFormat, Timestamp};

fn test_creds() -> LokiConfig {
    LokiConfig {
        login: "admin".to_string(),
        password: "123".to_string(),
        log_from: Some(Timestamp { year: 2023, month: 1, day: 1, hour: 0, minute: 0, second: 0 }),
        log_to: Some(Timestamp { year: 2023, month: 1, day: 2, hour: 0, minute: 0, second: 0 }),
        since: String::new(),
        time_zone: String::new(),
        tenant_id: String::new(),
    }
}

const HEAD: &str = "/opt/logcli --username=\"admin\" --password=\"123\" \
    --addr=\"http://loki.ptaf-infra.svc.cluster.local:3100\" \
    --org-id=\"3jqM2DLOMbbQzdodO3cO\" -q";

fn head() -> String {
    HEAD.to_string()
}

#[test]
fn test_query_builder() {}

#[test]
fn full_query_matches_grammar() {
    let creds = test_creds();
    let result = LokiQueryBuilder::new(TimeFormat::Protocol, &creds)
        .add_query("app", "svc", None, None)
        .add_batch(5000)
        .add_from()
        .add_to()
        .add_forward()
        .add_limit(2000000000)
        .add_raw()
        .get_query();
    let expected = format!(
        "{} query '{{app=\"svc\"}}' --batch=5000 --from='2023-01-01T00:00:00Z' \
         --to='2023-01-02T00:00:00Z' --forward --limit 2000000000 -o raw",
        head()
    );
    assert_eq!(result, expected);
}

#[test]
fn instance_selector_conjoins_predicates() {
    let creds = test_creds();
    let result = LokiQueryBuilder::new(TimeFormat::Protocol, &creds)
        .add_query("app", "svc", Some("instance"), Some("svc-abc123"))
        .get_query();
    let expected = format!("{} query '{{app=\"svc\", instance=\"svc-abc123\"}}'", head());
    assert_eq!(result, expected);
}

#[test]
fn instance_pair_needs_both_parts() {
    let creds = test_creds();
    let result = LokiQueryBuilder::new(TimeFormat::Protocol, &creds)
        .add_query("app", "svc", Some("instance"), None)
        .get_query();
    let expected = format!("{} query '{{app=\"svc\"}}'", head());
    assert_eq!(result, expected);
}

#[test]
fn auth_header_first_whatever_the_call_order() {
    let creds = test_creds();
    let result = LokiQueryBuilder::new(TimeFormat::Protocol, &creds)
        .add_batch(5000)
        .add_forward()
        .add_query("unit", "u1", None, None)
        .get_query();
    assert!(result.starts_with(&head()));
    let expected = format!("{} --batch=5000 --forward query '{{unit=\"u1\"}}'", head());
    assert_eq!(result, expected);
}

#[test]
fn builder_is_deterministic() {
    let creds = test_creds();
    let one = LokiQueryBuilder::new(TimeFormat::Protocol, &creds)
        .add_query("app", "svc", None, None)
        .add_from()
        .add_to()
        .get_query();
    let two = LokiQueryBuilder::new(TimeFormat::Protocol, &creds)
        .add_query("app", "svc", None, None)
        .add_from()
        .add_to()
        .get_query();
    assert_eq!(one, two);
}

#[test]
fn time_range_respects_format_parameter() {
    let creds = test_creds();
    let result = LokiQueryBuilder::new(TimeFormat::FileName, &creds).add_from().get_query();
    let expected = format!("{} --from='2023-01-01_00-00-00'", head());
    assert_eq!(result, expected);
}

#[test]
fn add_instance_emits_bare_predicate() {
    let creds = test_creds();
    let result = LokiQueryBuilder::new(TimeFormat::Protocol, &creds)
        .add_instance("svc-abc123")
        .get_query();
    let expected = format!("{} instance=\"svc-abc123\"", head());
    assert_eq!(result, expected);
}

#[test]
fn script_head_alone() {
    let creds = test_creds();
    let builder = LokiQueryBuilder::new(TimeFormat::Protocol, &creds);
    assert_eq!(builder.script_head(), head());
}

#[test]
fn labels_enumeration_command() {
    let creds = test_creds();
    let result = labels_command(&creds, "instance");
    assert_eq!(result, format!("{} labels instance", head()));
}
