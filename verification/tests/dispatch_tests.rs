use mq_agent::dispatch::{
    git_credential_step, route_envelope, shell_step, test_ack, Envelope, GitStep, Method, Route,
    ShellStep,
};

fn envelope(sender: &str, method: &str, payload: Option<&str>) -> Envelope {
    Envelope {
        sender: sender.to_string(),
        method: method.to_string(),
        payload: payload.map(|p| p.to_string()),
    }
}

#[test]
fn self_echo_suppressed_for_every_method() {
    for method in ["git-credential", "shell", "test", "unknown-xyz"] {
        let r = route_envelope(envelope("bob.worker", method, Some("{}")), "bob.worker");
        assert!(matches!(r, Route::Suppressed));
    }
}

#[test]
fn unknown_method_dropped() {
    let r = route_envelope(envelope("carol", "unknown-xyz", Some("{}")), "bob.worker");
    assert!(matches!(r, Route::DropUnknown));
}

#[test]
fn shell_method_routes_to_shell_handler() {
    let r = route_envelope(envelope("carol", "shell", Some("{\"command\":[]}")), "bob.worker");
    match r {
        Route::Invoke { method, payload } => {
            assert_eq!(method, Method::Shell);
            assert_eq!(payload.as_deref(), Some("{\"command\":[]}"));
        }
        _ => panic!("expected Invoke"),
    }
}

#[test]
fn git_method_routes_to_git_handler() {
    let r = route_envelope(envelope("carol", "git-credential", None), "bob.worker");
    match r {
        Route::Invoke { method, payload } => {
            assert_eq!(method, Method::GitCredential);
            assert!(payload.is_none());
        }
        _ => panic!("expected Invoke"),
    }
}

#[test]
fn test_method_acks_regardless_of_payload() {
    for payload in [None, Some("{}"), Some("anything at all")] {
        let r = route_envelope(envelope("carol", "test", payload), "bob.worker");
        match r {
            Route::Invoke { method, .. } => assert_eq!(method, Method::Test),
            _ => panic!("expected Invoke"),
        }
    }
    assert_eq!(test_ack(), "Test message received");
}

#[test]
fn missing_git_payload_reports_error() {
    match git_credential_step(None) {
        GitStep::ReportInvalid(t) => {
            assert_eq!(t, "[git-credential] Invalid git credential JSON")
        }
        _ => panic!("expected ReportInvalid"),
    }
}

#[test]
fn missing_shell_payload_reports_error() {
    match shell_step(None) {
        ShellStep::ReportInvalid(t) => assert_eq!(t, "[shell] Invalid shell JSON"),
        _ => panic!("expected ReportInvalid"),
    }
}

#[test]
fn parsed_shell_payload_runs() {
    let p = mq_agent::shell::ShellParam { command: vec!["ls".to_string()], env: None };
    match shell_step(Some(p)) {
        ShellStep::Run(p) => assert_eq!(p.command, vec!["ls".to_string()]),
        _ => panic!("expected Run"),
    }
}
