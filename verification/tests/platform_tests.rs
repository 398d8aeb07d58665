use metalcraft_agent_gateway::discord;
use metalcraft_agent_gateway::json::{is_writable, JsonNumber, JsonValue};
use metalcraft_agent_gateway::platform::{select_platform, HttpMethod, PlatformError, PlatformKind};
use metalcraft_agent_gateway::slack::{self, SlackBody};

fn s(v: &str) -> JsonValue {
    JsonValue::Str(v.to_string())
}

fn obj(members: Vec<(&str, JsonValue)>) -> JsonValue {
    JsonValue::Object(members.into_iter().map(|(k, v)| (k.to_string(), v)).collect())
}

#[test]
fn platform_selection() {
    assert_eq!(select_platform(None), Some(PlatformKind::Discord));
    assert_eq!(select_platform(Some("discord")), Some(PlatformKind::Discord));
    assert_eq!(select_platform(Some("slack")), Some(PlatformKind::Slack));
    assert_eq!(select_platform(Some("teams")), None);
    assert_eq!(select_platform(Some("Slack")), None);
}

#[test]
fn discord_send_message_plain_and_reply() {
    let req = discord::send_message("42", "hi", None);
    assert_eq!(req.method, HttpMethod::Post);
    assert_eq!(req.url, "https://discord.com/api/v10/channels/42/messages");
    assert_eq!(req.body, Some(obj(vec![("content", s("hi"))])));

    let req = discord::send_message("42", "hi", Some("7"));
    assert_eq!(
        req.body,
        Some(obj(vec![
            ("content", s("hi")),
            ("message_reference", obj(vec![("message_id", s("7"))])),
        ]))
    );
}

#[test]
fn discord_other_calls() {
    let req = discord::edit_message("1", "2", "new");
    assert_eq!(req.method, HttpMethod::Patch);
    assert_eq!(req.url, "https://discord.com/api/v10/channels/1/messages/2");
    assert_eq!(req.body, Some(obj(vec![("content", s("new"))])));

    let req = discord::add_reaction("1", "2", "👍");
    assert_eq!(req.method, HttpMethod::Put);
    assert_eq!(req.url, "https://discord.com/api/v10/channels/1/messages/2/reactions/👍/@me");
    assert_eq!(req.body, None);

    let req = discord::get_messages("1", 25);
    assert_eq!(req.method, HttpMethod::Get);
    assert_eq!(req.url, "https://discord.com/api/v10/channels/1/messages?limit=25");
    assert_eq!(req.body, None);

    let req = discord::get_channel_info("99");
    assert_eq!(req.method, HttpMethod::Get);
    assert_eq!(req.url, "https://discord.com/api/v10/channels/99");
}

#[test]
fn discord_responses() {
    assert_eq!(
        discord::read_response(404, "nope".to_string()),
        Err(PlatformError { status: 404, message: "nope".to_string() })
    );
    assert_eq!(
        discord::read_response(204, String::new()),
        Ok(obj(vec![("ok", JsonValue::Bool(true))]))
    );
    assert_eq!(
        discord::read_response(200, "{\"id\":\"1\",\"n\":[1,-2,1.5,null]}".to_string()),
        Ok(obj(vec![
            ("id", s("1")),
            ("n", JsonValue::Array(vec![
                JsonValue::Number(JsonNumber::PosInt(1)),
                JsonValue::Number(JsonNumber::NegInt(-2)),
                JsonValue::Number(JsonNumber::Float("1.5".to_string())),
                JsonValue::Null,
            ])),
        ]))
    );
    assert_eq!(
        discord::read_response(200, "<html>".to_string()),
        Err(PlatformError { status: 502, message: "Invalid JSON from Discord: <html>".to_string() })
    );
    assert_eq!(
        discord::interpret_response(200, "x".to_string(), Some(s("y"))),
        Ok(s("y"))
    );
    assert_eq!(
        discord::request_failed("timeout"),
        PlatformError { status: 502, message: "Discord request failed: timeout".to_string() }
    );
}

#[test]
fn slack_calls() {
    let req = slack::send_message("C1", "hello", None);
    assert_eq!(req.method, HttpMethod::Post);
    assert_eq!(req.url, "https://slack.com/api/chat.postMessage");
    assert_eq!(req.body, Some(obj(vec![("channel", s("C1")), ("text", s("hello"))])));

    let req = slack::send_message("C1", "hello", Some("123.4"));
    assert_eq!(
        req.body,
        Some(obj(vec![("channel", s("C1")), ("text", s("hello")), ("thread_ts", s("123.4"))]))
    );

    let req = slack::edit_message("C1", "123.4", "edited");
    assert_eq!(req.url, "https://slack.com/api/chat.update");
    assert_eq!(
        req.body,
        Some(obj(vec![("channel", s("C1")), ("ts", s("123.4")), ("text", s("edited"))]))
    );

    let req = slack::add_reaction("C1", "123.4", ":thumbsup:");
    assert_eq!(req.url, "https://slack.com/api/reactions.add");
    assert_eq!(
        req.body,
        Some(obj(vec![("channel", s("C1")), ("timestamp", s("123.4")), ("name", s("thumbsup"))]))
    );

    let req = slack::get_messages("C1", 10);
    assert_eq!(req.url, "https://slack.com/api/conversations.history");
    assert_eq!(
        req.body,
        Some(obj(vec![("channel", s("C1")), ("limit", JsonValue::Number(JsonNumber::PosInt(10)))]))
    );

    let req = slack::get_channel_info("C1");
    assert_eq!(req.url, "https://slack.com/api/conversations.info");
    assert_eq!(req.body, Some(obj(vec![("channel", s("C1"))])));
}

#[test]
fn slack_emoji_name_drops_colons() {
    assert_eq!(slack::emoji_name(":tada:"), "tada");
    assert_eq!(slack::emoji_name("tada"), "tada");
}

#[test]
fn slack_responses() {
    let ok = obj(vec![("ok", JsonValue::Bool(true)), ("ts", s("1.2"))]);
    assert_eq!(
        slack::read_response(200, Ok(obj(vec![("ok", JsonValue::Bool(true)), ("ts", s("1.2"))]))),
        Ok(ok)
    );
    let failed = obj(vec![("ok", JsonValue::Bool(false)), ("error", s("channel_not_found"))]);
    assert_eq!(
        slack::read_response(200, Ok(failed)),
        Err(PlatformError { status: 400, message: "channel_not_found".to_string() })
    );
    let no_error = obj(vec![("ok", JsonValue::Bool(false))]);
    assert_eq!(
        slack::read_response(200, Ok(no_error)),
        Err(PlatformError { status: 400, message: "unknown_error".to_string() })
    );
    let body = obj(vec![("ok", JsonValue::Bool(false)), ("error", s("fatal")), ("n", JsonValue::Number(JsonNumber::PosInt(3)))]);
    assert_eq!(
        slack::read_response(500, Ok(body)),
        Err(PlatformError { status: 500, message: r#"{"error":"fatal","n":3,"ok":false}"#.to_string() })
    );
    assert_eq!(
        slack::read_response(200, Err("expected value".to_string())),
        Err(PlatformError { status: 502, message: "Invalid JSON from Slack: expected value".to_string() })
    );
    assert_eq!(
        slack::interpret_response(503, Ok(SlackBody { data: obj(vec![]), text: "{}".to_string() })),
        Err(PlatformError { status: 503, message: "{}".to_string() })
    );
    assert_eq!(
        slack::request_failed("dns"),
        PlatformError { status: 502, message: "Slack request failed: dns".to_string() }
    );
}

#[test]
fn json_lookup_returns_first_member() {
    let v = obj(vec![("a", s("1")), ("b", JsonValue::Bool(true)), ("a", s("2"))]);
    assert_eq!(v.get("a"), Some(&s("1")));
    assert_eq!(v.get("b").and_then(|b| b.as_bool()), Some(true));
    assert_eq!(v.get("c"), None);
    assert_eq!(s("x").get("a"), None);
    assert_eq!(JsonValue::Number(JsonNumber::PosInt(5)).as_u64(), Some(5));
    assert_eq!(JsonValue::Number(JsonNumber::NegInt(-5)).as_u64(), None);
    assert_eq!(v.string_at("a"), Some("1".to_string()));
}

#[test]
fn authorization_headers() {
    assert_eq!(discord::authorization("abc"), "Bot abc");
    assert_eq!(slack::authorization("xoxb-1"), "Bearer xoxb-1");
}

#[test]
fn slack_unwritable_error_answer_is_invalid_json() {
    let dup = obj(vec![("a", s("1")), ("a", s("2"))]);
    assert_eq!(
        slack::read_response(500, Ok(dup)),
        Err(PlatformError { status: 502, message: "Invalid JSON from Slack: the answer cannot be written as JSON".to_string() })
    );
    let bad = JsonValue::Array(vec![JsonValue::Number(JsonNumber::Float("1.2.3".to_string()))]);
    assert_eq!(
        slack::read_response(500, Ok(bad)),
        Err(PlatformError { status: 502, message: "Invalid JSON from Slack: the answer cannot be written as JSON".to_string() })
    );
    let float = obj(vec![("x", JsonValue::Number(JsonNumber::Float("1.5".to_string())))]);
    assert_eq!(
        slack::read_response(500, Ok(float)),
        Err(PlatformError { status: 500, message: r#"{"x":1.5}"#.to_string() })
    );
}

#[test]
fn writable_values() {
    assert!(is_writable(&obj(vec![("a", s("1")), ("b", JsonValue::Array(vec![obj(vec![("c", JsonValue::Null)])]))])));
    assert!(!is_writable(&JsonValue::Array(vec![obj(vec![("c", JsonValue::Null), ("c", JsonValue::Null)])])));
    assert!(!is_writable(&JsonValue::Number(JsonNumber::Float("nan".to_string()))));
    assert!(is_writable(&JsonValue::Number(JsonNumber::Float("-1e300".to_string()))));
}
