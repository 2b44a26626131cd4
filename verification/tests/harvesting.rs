use loki_harvester::config::{Artifacts, Config, Labels, LabelType, LokiConfig, Param, SshConfig};
use loki_harvester::errors::HarvestError;
use loki_harvester::harvest::{dead_pods, dest_path, drive_task, ensure_window, log_file_name,
    plan_with_pods, plan_without_pods, HarvestTask, PodAwarePlan, BACKOFF_SECS,
    DEFAULT_RETRY_BUDGET, QUERY_BATCH};
use loki_harvester::k8s::PodRecord;
use loki_harvester::time::{format_timestamp, TimeFormat, Timestamp};

fn from_ts() -> Timestamp {
    Timestamp { year: 2023, month: 1, day: 1, hour: 0, minute: 0, second: 0 }
}

fn to_ts() -> Timestamp {
    Timestamp { year: 2023, month: 1, day: 2, hour: 0, minute: 0, second: 0 }
}

fn loki_config() -> LokiConfig {
    LokiConfig {
        login: "admin".to_string(),
        password: "123".to_string(),
        log_from: Some(from_ts()),
        log_to: Some(to_ts()),
        since: String::new(),
        time_zone: String::new(),
        tenant_id: String::new(),
    }
}

#[test]
fn reconciliation_reports_exactly_the_dead() {
    let logged = vec!["A".to_string(), "B".to_string(), "C".to_string()];
    let live = vec!["A".to_string(), "C".to_string()];
    let dead = dead_pods(&logged, &live);
    assert_eq!(dead, vec!["B".to_string()]);
}

#[test]
fn pod_aware_plan_schedules_live_and_reports_dead() {
    let logged = vec![
        "svc-A".to_string(),
        "svc-B".to_string(),
        "svc-C".to_string(),
        "other-1".to_string(),
    ];
    let cluster = vec![
        PodRecord { name: "svc-A".to_string(), namespace: "default".to_string() },
        PodRecord { name: "zzz-1".to_string(), namespace: "default".to_string() },
        PodRecord { name: "svc-C".to_string(), namespace: "default".to_string() },
    ];
    let loki = loki_config();
    let PodAwarePlan { tasks, dead_pods } = plan_with_pods(&loki, "svc", "app", &logged, &cluster);
    let targets: Vec<&str> = tasks.iter().map(|t| t.target.as_str()).collect();
    assert_eq!(targets, vec!["svc-A", "svc-C"]);
    assert_eq!(dead_pods, vec!["svc-B".to_string()]);
    assert!(tasks[0].command.contains("query '{app=\"svc\", instance=\"svc-A\"}'"));
    assert_eq!(tasks[0].file_name, "svc-A-2023-01-01_00-00-00__2023-01-02_00-00-00.log");
}

#[test]
fn empty_inputs_plan_nothing() {
    let loki = loki_config();
    let plan = plan_with_pods(&loki, "svc", "app", &Vec::new(), &Vec::new());
    assert!(plan.tasks.is_empty());
    assert!(plan.dead_pods.is_empty());
    assert!(dead_pods(&Vec::new(), &Vec::new()).is_empty());
}

#[test]
fn pod_unaware_task_selects_the_whole_service() {
    let loki = loki_config();
    let task: HarvestTask = plan_without_pods(&loki, "svc", "unit");
    assert_eq!(task.target, "svc");
    assert_eq!(task.label_name, "unit");
    assert!(task.command.contains("query '{unit=\"svc\"}'"));
    assert!(task.command.contains("--batch=5000"));
    assert!(task.command.contains("--from='2023-01-01T00:00:00Z'"));
    assert!(task.command.contains("--to='2023-01-02T00:00:00Z'"));
    assert!(task.command.contains("--forward"));
    assert!(task.command.contains("--limit 2000000000"));
    assert!(task.command.ends_with("-o raw"));
    assert_eq!(task.file_name, "svc-2023-01-01_00-00-00__2023-01-02_00-00-00.log");
}

#[test]
fn file_name_uses_the_filesystem_format() {
    let name = log_file_name("svc", &from_ts(), &to_ts());
    assert_eq!(name, "svc-2023-01-01_00-00-00__2023-01-02_00-00-00.log");
    assert_eq!(dest_path("/home", &name), format!("/home/{}", name));
}

#[test]
fn timestamps_are_zero_padded() {
    let ts = Timestamp { year: 987, month: 6, day: 3, hour: 4, minute: 5, second: 9 };
    assert_eq!(format_timestamp(&ts, TimeFormat::Protocol), "0987-06-03T04:05:09Z");
    assert_eq!(format_timestamp(&ts, TimeFormat::FileName), "0987-06-03_04-05-09");
}

#[test]
fn retry_exhausts_exactly_the_budget() {
    let outcomes = vec![false, false, false];
    let (attempts, succeeded) = drive_task(3, &outcomes);
    assert_eq!(attempts, 3);
    assert!(!succeeded);
}

#[test]
fn retry_stops_at_the_first_success() {
    let (attempts, succeeded) = drive_task(3, &vec![false, true, false]);
    assert_eq!(attempts, 2);
    assert!(succeeded);
    let (attempts, succeeded) = drive_task(2, &vec![true, true]);
    assert_eq!(attempts, 1);
    assert!(succeeded);
}

#[test]
fn zero_budget_never_attempts() {
    let (attempts, succeeded) = drive_task(0, &Vec::new());
    assert_eq!(attempts, 0);
    assert!(!succeeded);
}

#[test]
fn a_missing_window_bound_is_a_configuration_error() {
    let mut loki = loki_config();
    assert!(ensure_window(&loki).is_ok());
    loki.log_to = None;
    assert_eq!(ensure_window(&loki).unwrap_err(), HarvestError::Configuration);
    loki.log_to = loki.log_from;
    loki.log_from = None;
    assert_eq!(ensure_window(&loki).unwrap_err(), HarvestError::Configuration);
}

#[test]
fn retry_policy_defaults() {
    assert_eq!(DEFAULT_RETRY_BUDGET, 3);
    assert_eq!(BACKOFF_SECS, 1);
    assert_eq!(QUERY_BATCH, 5000);
}

#[test]
fn transient_errors_are_retried_and_others_not() {
    assert!(HarvestError::RemoteExecution.is_retryable());
    assert!(HarvestError::Transport.is_retryable());
    assert!(HarvestError::PoolExhausted.is_retryable());
    assert!(!HarvestError::Authentication.is_retryable());
    assert!(!HarvestError::Decode.is_retryable());
    assert!(!HarvestError::Tls.is_retryable());
    assert!(!HarvestError::Api.is_retryable());
    assert!(!HarvestError::Configuration.is_retryable());
}

fn labels(app: &[&str], unit: Option<&[&str]>) -> Labels {
    Labels {
        app: app.iter().map(|s| s.to_string()).collect(),
        unit: unit.map(|u| u.iter().map(|s| s.to_string()).collect()),
    }
}

#[test]
fn label_groups_follow_the_flags() {
    let artifacts = Artifacts {
        cores: true,
        backend: true,
        core_labels: labels(&["core-a"], None),
        infra_labels: labels(&["infra-a"], Some(&["infra-u"])),
        backend_labels: labels(&["back-a"], None),
    };
    let groups = artifacts.get_labels();
    assert_eq!(groups.len(), 3);
    assert!(matches!(&groups[0], LabelType::BackendLabel(_)));
    assert!(matches!(&groups[1], LabelType::InfraLabel(_)));
    assert!(matches!(&groups[2], LabelType::CoreLabel(_)));
    assert!(groups[0].pod_aware());
    assert!(!groups[1].pod_aware());
    assert!(groups[2].pod_aware());

    let names: Vec<String> = artifacts.get_svc_names().into_iter().cloned().collect();
    assert_eq!(names, vec!["back-a", "infra-a", "infra-u", "core-a"]);
}

#[test]
fn disabled_groups_yield_nothing() {
    let artifacts = Artifacts {
        cores: false,
        backend: false,
        core_labels: labels(&["core-a"], None),
        infra_labels: labels(&["infra-a"], None),
        backend_labels: labels(&["back-a"], None),
    };
    assert!(artifacts.get_labels().is_empty());
    assert!(artifacts.get_svc_names().is_empty());
}

#[test]
fn svc_names_append_units_after_apps() {
    let l = labels(&["a", "b"], Some(&["u"]));
    let names: Vec<String> = l.get_svc_names().into_iter().cloned().collect();
    assert_eq!(names, vec!["a", "b", "u"]);
}

#[test]
fn fixed_configuration_values() {
    let ssh = SshConfig { addr: "host".to_string(), login: "pt".to_string(), password: None };
    assert_eq!(ssh.key_path(), "/home/pt/.ssh/id_rsa.ptaf");
    let loki = loki_config();
    assert_eq!(loki.full_address(), "http://loki.ptaf-infra.svc.cluster.local:3100");
    assert_eq!(loki.org_id(), "3jqM2DLOMbbQzdodO3cO");
    let config = Config {
        artifacts: Artifacts {
            cores: false,
            backend: false,
            core_labels: labels(&[], None),
            infra_labels: labels(&[], None),
            backend_labels: labels(&[], None),
        },
        param: Param { ssh, loki },
    };
    assert_eq!(config.get_envs(), "");
}
