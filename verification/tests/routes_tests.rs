use metalcraft_agent_gateway::json::JsonValue;
use metalcraft_agent_gateway::platform::PlatformError;
use metalcraft_agent_gateway::routes::{api_key_accepted, listen_port, message_limit, platform_err};

#[test]
fn message_limit_defaults_to_ten_and_caps_at_fifty() {
    assert_eq!(message_limit(None), 10);
    assert_eq!(message_limit(Some(5)), 5);
    assert_eq!(message_limit(Some(50)), 50);
    assert_eq!(message_limit(Some(51)), 50);
    assert_eq!(message_limit(Some(u64::MAX)), 50);
    assert_eq!(message_limit(Some(0)), 0);
}

fn error_body(msg: &str) -> JsonValue {
    JsonValue::Object(vec![("error".to_string(), JsonValue::Str(msg.to_string()))])
}

#[test]
fn platform_err_keeps_valid_statuses() {
    let reply = platform_err(&PlatformError { status: 404, message: "Unknown Channel".to_string() });
    assert_eq!(reply.status, 404);
    assert_eq!(reply.body, error_body("Unknown Channel"));
    assert_eq!(platform_err(&PlatformError { status: 100, message: String::new() }).status, 100);
    assert_eq!(platform_err(&PlatformError { status: 999, message: String::new() }).status, 999);
}

#[test]
fn platform_err_replaces_invalid_statuses_with_bad_gateway() {
    assert_eq!(platform_err(&PlatformError { status: 42, message: "x".to_string() }).status, 502);
    assert_eq!(platform_err(&PlatformError { status: 1000, message: "x".to_string() }).status, 502);
    assert_eq!(platform_err(&PlatformError { status: 0, message: "x".to_string() }).status, 502);
}

#[test]
fn api_key_check() {
    assert!(api_key_accepted(Some("Bearer secret"), Some("secret")));
    assert!(!api_key_accepted(Some("Bearer other"), Some("secret")));
    assert!(!api_key_accepted(Some("secret"), Some("secret")));
    assert!(!api_key_accepted(None, Some("secret")));
    assert!(!api_key_accepted(Some("Bearer "), None));
}

#[test]
fn listen_port_reads_port_setting() {
    assert_eq!(listen_port(None), 3000);
    assert_eq!(listen_port(Some("8080")), 8080);
    assert_eq!(listen_port(Some("not a port")), 3000);
    assert_eq!(listen_port(Some("70000")), 3000);
}
