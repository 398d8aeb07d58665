use hmac::{Hmac, Mac};
use metalcraft_agent_gateway::json::{JsonNumber, JsonValue};
use metalcraft_agent_gateway::webhooks::{
    github_accepted, github_author, github_event_type, github_gateway_event, github_webhook,
    slack_event_type, slack_gateway_event, slack_webhook, verify_github_signature,
};
use sha2::Sha256;

fn s(v: &str) -> JsonValue {
    JsonValue::Str(v.to_string())
}

fn obj(members: Vec<(&str, JsonValue)>) -> JsonValue {
    JsonValue::Object(members.into_iter().map(|(k, v)| (k.to_string(), v)).collect())
}

fn sign(secret: &str, body: &[u8]) -> String {
    let mut mac = Hmac::<Sha256>::new_from_slice(secret.as_bytes()).unwrap();
    mac.update(body);
    format!("sha256={}", hex::encode(mac.finalize().into_bytes()))
}

fn is_rfc3339_utc(t: &str) -> bool {
    let b = t.as_bytes();
    t.ends_with("+00:00")
        && b.len() >= 25
        && [4, 7].iter().all(|&i| b[i] == b'-')
        && b[10] == b'T'
        && [13, 16].iter().all(|&i| b[i] == b':')
        && chrono::DateTime::parse_from_rfc3339(t).is_ok()
}

fn is_uuid_v4(id: &str) -> bool {
    id.len() == 36
        && id.chars().enumerate().all(|(i, c)| {
            if [8, 13, 18, 23].contains(&i) { c == '-' } else { c.is_ascii_hexdigit() && !c.is_ascii_uppercase() }
        })
        && id.as_bytes()[14] == b'4'
}

#[test]
fn slack_event_types() {
    assert_eq!(slack_event_type("message"), "message_create");
    assert_eq!(slack_event_type("reaction_added"), "reaction_add");
    assert_eq!(slack_event_type("reaction_removed"), "reaction_remove");
    assert_eq!(slack_event_type("app_mention"), "app_mention");
    assert_eq!(slack_event_type("channel_created"), "channel_created");
}

#[test]
fn slack_url_verification_echoes_challenge() {
    let body = obj(vec![("type", s("url_verification")), ("challenge", s("3eZbrw1aBm2"))]);
    let reply = slack_webhook(body);
    assert_eq!(reply.status, 200);
    assert_eq!(reply.body, obj(vec![("challenge", s("3eZbrw1aBm2"))]));
    assert_eq!(reply.event, None);

    let reply = slack_webhook(obj(vec![("type", s("url_verification"))]));
    assert_eq!(reply.body, obj(vec![("challenge", s(""))]));
}

#[test]
fn slack_message_callback_becomes_event() {
    let event = obj(vec![
        ("type", s("message")),
        ("channel", s("C024BE91L")),
        ("user", s("U2147483697")),
        ("text", s("Live long and prospect.")),
        ("ts", s("1355517523.000005")),
    ]);
    let body = obj(vec![("type", s("event_callback")), ("event", event)]);
    let reply = slack_webhook(body);
    assert_eq!(reply.status, 200);
    assert_eq!(reply.body, obj(vec![("ok", JsonValue::Bool(true))]));
    let ev = reply.event.expect("event published");
    assert!(is_uuid_v4(&ev.id), "{}", ev.id);
    assert_eq!(ev.platform, "slack");
    assert_eq!(ev.event_type, "message_create");
    assert_eq!(ev.channel_id.as_deref(), Some("C024BE91L"));
    assert_eq!(ev.content.as_deref(), Some("Live long and prospect."));
    assert_eq!(ev.timestamp, "1355517523.000005");
    let author = ev.author.expect("author");
    assert_eq!(author.id, "U2147483697");
    assert_eq!(author.username, "");
    assert_eq!(author.display_name, None);
    assert!(!author.is_bot);
    assert_eq!(ev.raw.get("type"), Some(&s("event_callback")));
}

#[test]
fn slack_event_without_ts_is_stamped_now() {
    let body = obj(vec![("event", obj(vec![("type", s("reaction_added")), ("user", s("U1")), ("bot_id", s("B1"))]))]);
    let ev = slack_webhook(body).event.unwrap();
    assert!(ev.timestamp.ends_with("+00:00"), "{}", ev.timestamp);
    assert_eq!(ev.event_type, "reaction_add");
    assert!(ev.author.unwrap().is_bot);
}

#[test]
fn slack_body_without_event_is_acknowledged_only() {
    let reply = slack_webhook(obj(vec![("type", s("app_rate_limited"))]));
    assert_eq!(reply.body, obj(vec![("ok", JsonValue::Bool(true))]));
    assert_eq!(reply.event, None);
}

#[test]
fn slack_gateway_event_with_unknown_type() {
    let body = obj(vec![("event", obj(vec![]))]);
    let ev = slack_gateway_event(body, "id-1".to_string(), "t".to_string()).unwrap();
    assert_eq!(ev.event_type, "unknown");
    assert_eq!(ev.author, None);
    assert_eq!(ev.channel_id, None);
    assert_eq!(ev.id, "id-1");
    assert!(slack_gateway_event(obj(vec![]), "x".to_string(), "t".to_string()).is_none());
}

#[test]
fn github_event_types() {
    assert_eq!(github_event_type("pull_request", "opened", false), "pr_opened");
    assert_eq!(github_event_type("pull_request", "closed", true), "pr_merged");
    assert_eq!(github_event_type("pull_request", "closed", false), "pr_closed");
    assert_eq!(github_event_type("pull_request", "synchronize", false), "synchronize");
    assert_eq!(github_event_type("issue_comment", "created", false), "issue_comment");
    assert_eq!(github_event_type("push", "", false), "push");
    assert_eq!(github_event_type("issues", "opened", false), "issue_opened");
    assert_eq!(github_event_type("issues", "closed", false), "issue_closed");
    assert_eq!(github_event_type("issues", "labeled", false), "issues");
    assert_eq!(github_event_type("star", "created", false), "star");
}

#[test]
fn github_signatures() {
    let body = br#"{"action":"opened"}"#;
    let sig = sign("It's a Secret to Everybody", body);
    assert!(verify_github_signature("It's a Secret to Everybody", body, &sig));
    assert!(verify_github_signature("It's a Secret to Everybody", body, &sig.to_uppercase().replacen("SHA256=", "sha256=", 1)));
    assert!(!verify_github_signature("other secret", body, &sig));
    assert!(!verify_github_signature("It's a Secret to Everybody", b"tampered", &sig));
    assert!(!verify_github_signature("It's a Secret to Everybody", body, &sig[7..]));
    assert!(!verify_github_signature("It's a Secret to Everybody", body, "sha256=zz"));
    assert!(!verify_github_signature("It's a Secret to Everybody", body, "sha256=abc"));
    assert!(!verify_github_signature("It's a Secret to Everybody", body, &sig[..sig.len() - 2]));
}

#[test]
fn github_known_hmac_vector() {
    // GitHub's documented example: secret "It's a Secret to Everybody", payload "Hello, World!".
    let sig = "sha256=757107ea0eb2509fc211221cce984b8a37570b6d7586c22c46f4379c8b043e17";
    assert!(verify_github_signature("It's a Secret to Everybody", b"Hello, World!", sig));
}

#[test]
fn github_signature_check_only_with_secret() {
    let body = b"{}";
    assert!(github_accepted(None, body, None));
    assert!(github_accepted(Some(""), body, Some("garbage")));
    assert!(!github_accepted(Some("s"), body, None));
    assert!(github_accepted(Some("s"), body, Some(&sign("s", body))));
}

#[test]
fn github_author_from_sender() {
    let payload = obj(vec![(
        "sender",
        obj(vec![
            ("id", JsonValue::Number(JsonNumber::PosInt(583231))),
            ("login", s("octocat")),
            ("type", s("User")),
        ]),
    )]);
    let a = github_author(&payload).unwrap();
    assert_eq!(a.id, "583231");
    assert_eq!(a.username, "octocat");
    assert!(!a.is_bot);
    let bot = obj(vec![("sender", obj(vec![("type", s("Bot"))]))]);
    let a = github_author(&bot).unwrap();
    assert_eq!(a.id, "");
    assert_eq!(a.username, "");
    assert!(a.is_bot);
    assert_eq!(github_author(&obj(vec![])), None);
}

#[test]
fn github_merged_pull_request_event() {
    let payload = obj(vec![
        ("action", s("closed")),
        ("pull_request", obj(vec![("merged", JsonValue::Bool(true))])),
        ("repository", obj(vec![("full_name", s("rust4ai/metalcraft-agent"))])),
    ]);
    let ev = github_gateway_event("pull_request", payload, "id".to_string(), "now".to_string());
    assert_eq!(ev.platform, "github");
    assert_eq!(ev.event_type, "pr_merged");
    assert_eq!(ev.channel_id.as_deref(), Some("rust4ai/metalcraft-agent"));
    assert_eq!(ev.content, None);
    assert_eq!(ev.author, None);
}

#[test]
fn github_webhook_refuses_bad_signature() {
    let body = br#"{"action":"opened"}"#;
    let reply = github_webhook(Some("s"), Some("sha256=00"), Some("issues"), body);
    assert_eq!(reply.status, 401);
    assert_eq!(reply.body, obj(vec![("error", s("Invalid signature"))]));
    assert_eq!(reply.event, None);
}

#[test]
fn github_webhook_publishes_signed_delivery() {
    let body = br#"{"action":"opened"}"#;
    let sig = sign("s", body);
    let reply = github_webhook(Some("s"), Some(&sig), Some("issues"), body);
    assert_eq!(reply.status, 200);
    assert_eq!(reply.body, obj(vec![("ok", JsonValue::Bool(true))]));
    let ev = reply.event.unwrap();
    assert_eq!(ev.event_type, "issue_opened");
    assert_eq!(ev.raw, obj(vec![("action", s("opened"))]));
    assert!(is_uuid_v4(&ev.id));
    assert!(is_rfc3339_utc(&ev.timestamp), "{}", ev.timestamp);
}

#[test]
fn github_webhook_without_event_header_is_unknown() {
    let reply = github_webhook(None, None, None, b"not json");
    let ev = reply.event.unwrap();
    assert_eq!(ev.event_type, "unknown");
    assert_eq!(ev.raw, JsonValue::Null);
}

#[test]
fn github_webhook_reads_payload_from_signed_body() {
    let body = br#"{"action":"closed","pull_request":{"merged":true},"sender":{"id":7,"login":"o","type":"Bot"},"repository":{"full_name":"a/b"}}"#;
    let sig = sign("k", body);
    let ev = github_webhook(Some("k"), Some(&sig), Some("pull_request"), body).event.unwrap();
    assert_eq!(ev.event_type, "pr_merged");
    assert_eq!(ev.channel_id.as_deref(), Some("a/b"));
    let a = ev.author.unwrap();
    assert_eq!((a.id.as_str(), a.username.as_str(), a.is_bot), ("7", "o", true));
}
