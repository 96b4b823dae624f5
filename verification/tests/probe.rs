use deepgram_probe::greet;
use deepgram_probe::probe::{classify, listen_url, HandshakeOutcome};

#[test]
fn greet_echoes_name() {
    assert_eq!(greet("World"), "Hello, World! You've been greeted from Rust!");
}

#[test]
fn listen_url_embeds_credential_verbatim() {
    assert_eq!(
        listen_url("good-key"),
        "wss://api.deepgram.com/v1/listen?token=good-key\
         &model=nova-2&language=en-US&encoding=linear16&sample_rate=16000"
    );
}

#[test]
fn listen_url_of_empty_credential_keeps_structure() {
    assert_eq!(
        listen_url(""),
        "wss://api.deepgram.com/v1/listen?token=\
         &model=nova-2&language=en-US&encoding=linear16&sample_rate=16000"
    );
}

#[test]
fn completed_handshake_reports_success() {
    let result = classify(HandshakeOutcome::Completed, 5000);
    assert!(result.success);
    assert_eq!(result.message, "WebSocket connection established successfully");
    assert_eq!(result.code, None);
    assert_eq!(result.reason, None);
}

#[test]
fn numeric_unauthorized_marker_reports_auth_failure() {
    let error = "HTTP error: 401".to_string();
    let result = classify(HandshakeOutcome::Failed(error), 5000);
    assert!(!result.success);
    assert_eq!(result.message, "Authentication failed — check your Deepgram API key");
    assert_eq!(result.code, None);
    assert_eq!(result.reason, None);
}

#[test]
fn textual_unauthorized_marker_reports_auth_failure() {
    let error = "handshake rejected: Unauthorized".to_string();
    let result = classify(HandshakeOutcome::Failed(error), 5000);
    assert!(!result.success);
    assert_eq!(result.message, "Authentication failed — check your Deepgram API key");
}

#[test]
fn numeric_forbidden_marker_reports_permission_failure() {
    let error = "HTTP error: 403".to_string();
    let result = classify(HandshakeOutcome::Failed(error), 5000);
    assert!(!result.success);
    assert_eq!(result.message, "Permission denied — check your Deepgram account and plan");
    assert_eq!(result.code, None);
    assert_eq!(result.reason, None);
}

#[test]
fn textual_forbidden_marker_reports_permission_failure() {
    let error = "handshake rejected: Forbidden".to_string();
    let result = classify(HandshakeOutcome::Failed(error), 5000);
    assert!(!result.success);
    assert_eq!(result.message, "Permission denied — check your Deepgram account and plan");
}

#[test]
fn auth_marker_takes_precedence_over_permission_marker() {
    let error = "401 Forbidden".to_string();
    let result = classify(HandshakeOutcome::Failed(error), 5000);
    assert_eq!(result.message, "Authentication failed — check your Deepgram API key");
}

#[test]
fn unclassified_error_is_embedded_in_message() {
    let error = "connection refused".to_string();
    let result = classify(HandshakeOutcome::Failed(error), 5000);
    assert!(!result.success);
    assert_eq!(result.message, "WebSocket connection failed: connection refused");
    assert_eq!(result.code, None);
    assert_eq!(result.reason, None);
}

#[test]
fn empty_error_text_still_yields_nonempty_message() {
    let result = classify(HandshakeOutcome::Failed(String::new()), 5000);
    assert!(!result.success);
    assert_eq!(result.message, "WebSocket connection failed: ");
}

#[test]
fn timeout_reports_code_and_reason() {
    let result = classify(HandshakeOutcome::TimedOut, 1);
    assert!(!result.success);
    assert_eq!(result.message, "WebSocket probe timed out (1ms)");
    assert_eq!(result.code, Some(1006));
    assert_eq!(result.reason, Some("Timeout".to_string()));
}

#[test]
fn zero_timeout_is_reported_verbatim() {
    let result = classify(HandshakeOutcome::TimedOut, 0);
    assert!(!result.success);
    assert_eq!(result.message, "WebSocket probe timed out (0ms)");
    assert_eq!(result.code, Some(1006));
    assert_eq!(result.reason, Some("Timeout".to_string()));
}

#[test]
fn large_timeout_is_reported_verbatim() {
    let result = classify(HandshakeOutcome::TimedOut, u64::MAX);
    assert_eq!(
        result.message,
        "WebSocket probe timed out (18446744073709551615ms)"
    );
}

#[test]
fn probes_do_not_interfere() {
    let first = classify(HandshakeOutcome::TimedOut, 1);
    let second = classify(HandshakeOutcome::Completed, 9999);
    let third = classify(HandshakeOutcome::TimedOut, 1);
    assert_eq!(first.success, third.success);
    assert_eq!(first.message, third.message);
    assert_eq!(first.code, third.code);
    assert_eq!(first.reason, third.reason);
    assert!(second.success);
    assert_eq!(second.message, "WebSocket connection established successfully");
}
