use loki_harvester::remote::{compose_command, split_output};
use loki_harvester::session::{probe_command, session_has_broken, session_is_valid, AuthMethod,
    SessionManager};

#[test]
fn environment_is_inlined_before_the_command() {
    let composed = compose_command("echo $TEST", "TEST=1", None);
    assert_eq!(composed, "TEST=1; echo $TEST");
}

#[test]
fn working_directory_prefixes_the_command() {
    let composed = compose_command("ls", "", Some("/var/log"));
    assert_eq!(composed, "cd /var/log; ls");
}

#[test]
fn environment_wraps_the_directory_prefix() {
    let composed = compose_command("ls", "A=1", Some("/var/log"));
    assert_eq!(composed, "A=1; cd /var/log; ls");
}

#[test]
fn bare_command_is_unchanged() {
    let composed = compose_command("echo 1337", "", None);
    assert_eq!(composed, "echo 1337");
}

#[test]
fn output_splits_into_lines() {
    let lines = split_output(b"1337\n");
    assert_eq!(lines, vec!["1337".to_string()]);
    let lines = split_output(b"Hello World\n1\n");
    assert_eq!(lines, vec!["Hello World".to_string(), "1".to_string()]);
}

#[test]
fn empty_lines_are_dropped() {
    let lines = split_output(b"\n\na\n\nb");
    assert_eq!(lines, vec!["a".to_string(), "b".to_string()]);
    assert!(split_output(b"").is_empty());
    assert!(split_output(b"\n\n\n").is_empty());
}

#[test]
fn invalid_utf8_is_replaced_not_fatal() {
    let lines = split_output(&[0xff, b'o', b'k', b'\n']);
    assert_eq!(lines, vec!["\u{fffd}ok".to_string()]);
}

#[test]
fn session_validity_needs_probe_output() {
    assert!(session_is_valid(Some(&"TEST".to_string())));
    assert!(!session_is_valid(Some(&String::new())));
    assert!(!session_is_valid(None));
}

#[test]
fn broken_is_the_negation_of_valid() {
    assert!(!session_has_broken(Some(&"TEST".to_string())));
    assert!(session_has_broken(Some(&String::new())));
    assert!(session_has_broken(None));
}

#[test]
fn probe_command_text() {
    assert_eq!(probe_command(), "echo TEST");
}

#[test]
fn password_wins_over_key_file() {
    let manager = SessionManager {
        host: "localhost".to_string(),
        port: "2222".to_string(),
        login: "admin".to_string(),
        password: Some("admin".to_string()),
        key_file: Some("/home/pt/.ssh/id_rsa.ptaf".to_string()),
    };
    assert_eq!(manager.auth_method(), AuthMethod::Password);
    assert_eq!(manager.endpoint(), "localhost:2222");

    let keyed = SessionManager { password: None, ..manager };
    assert_eq!(keyed.auth_method(), AuthMethod::KeyFile);

    let bare = SessionManager { key_file: None, ..keyed };
    assert_eq!(bare.auth_method(), AuthMethod::Unauthenticated);
}
