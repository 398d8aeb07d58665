use metalcraft_agent_gateway::events::GatewayEvent;
use metalcraft_agent_gateway::json::JsonValue;
use metalcraft_agent_gateway::subscribers::{
    dispatch_plan, dispatcher_step, get_matching, DispatcherAction, Received, Subscriber, SubscriberRow,
};

fn sub(id: &str, events: &[&str], platforms: Option<&[&str]>, secret: Option<&str>) -> Subscriber {
    Subscriber {
        id: id.to_string(),
        url: format!("https://example.com/{id}"),
        events: events.iter().map(|e| e.to_string()).collect(),
        platforms: platforms.map(|p| p.iter().map(|e| e.to_string()).collect()),
        secret: secret.map(|s| s.to_string()),
        created_at: "2024-01-01T00:00:00+00:00".to_string(),
    }
}

fn event(platform: &str, event_type: &str) -> GatewayEvent {
    GatewayEvent {
        id: "e".to_string(),
        platform: platform.to_string(),
        event_type: event_type.to_string(),
        channel_id: None,
        author: None,
        content: None,
        timestamp: "t".to_string(),
        raw: JsonValue::Null,
    }
}

#[test]
fn subscriber_filters() {
    assert!(sub("a", &["*"], None, None).wants("anything", "slack"));
    assert!(sub("a", &["message_create"], None, None).wants("message_create", "discord"));
    assert!(!sub("a", &["message_create"], None, None).wants("reaction_add", "discord"));
    assert!(sub("a", &["*"], Some(&["discord"]), None).wants("x", "discord"));
    assert!(!sub("a", &["*"], Some(&["discord"]), None).wants("x", "slack"));
    assert!(!sub("a", &[], None, None).wants("x", "slack"));
}

#[test]
fn get_matching_keeps_wanting_subscribers_in_order() {
    let subs = vec![
        sub("1", &["*"], None, None),
        sub("2", &["push"], None, None),
        sub("3", &["message_create"], Some(&["slack"]), None),
        sub("4", &["message_create", "push"], Some(&["github"]), None),
    ];
    let ids: Vec<String> = get_matching(subs, &event("github", "push")).into_iter().map(|s| s.id).collect();
    assert_eq!(ids, vec!["1", "2", "4"]);
}

#[test]
fn dispatch_plan_posts_with_bearer_secret() {
    let subs = vec![sub("1", &["*"], None, Some("tok")), sub("2", &["push"], None, None)];
    let plan = dispatch_plan(subs, &event("slack", "message_create"));
    assert_eq!(plan.len(), 1);
    assert_eq!(plan[0].subscriber_id, "1");
    assert_eq!(plan[0].url, "https://example.com/1");
    assert_eq!(plan[0].bearer_token.as_deref(), Some("tok"));
    assert_eq!(plan[0].timeout_secs, 10);
}

#[test]
fn rows_store_lists_as_json_and_read_back() {
    let s = sub("1", &["push", "issue_opened"], Some(&["github"]), Some("tok"));
    let row = s.to_row();
    assert_eq!(row.events, r#"["push","issue_opened"]"#);
    assert_eq!(row.platforms.as_deref(), Some(r#"["github"]"#));
    assert_eq!(row.secret.as_deref(), Some("tok"));
    assert_eq!(Subscriber::from_row(row), s);

    let s = sub("2", &["quote\"d"], None, None);
    assert_eq!(Subscriber::from_row(s.to_row()), s);
}

#[test]
fn unreadable_rows_read_as_empty_filters() {
    let row = SubscriberRow {
        id: "1".to_string(),
        url: "u".to_string(),
        events: "not json".to_string(),
        platforms: Some("{}".to_string()),
        secret: None,
        created_at: "c".to_string(),
    };
    let s = Subscriber::from_row(row);
    assert!(s.events.is_empty());
    assert_eq!(s.platforms, None);
}

#[test]
fn new_subscriber_gets_fresh_id_and_time() {
    let s = Subscriber::new("https://x".to_string(), vec!["*".to_string()], None, None);
    assert_eq!(s.id.len(), 36);
    assert!(s.created_at.ends_with("+00:00"));
    let t = Subscriber::new("https://x".to_string(), vec![], None, None);
    assert_ne!(s.id, t.id);
}

#[test]
fn create_keeps_given_id_and_time() {
    let s = Subscriber::create("id".to_string(), "2024-01-01T00:00:00+00:00".to_string(), "u".to_string(), vec![], None, None);
    assert_eq!(s.id, "id");
    assert_eq!(s.created_at, "2024-01-01T00:00:00+00:00");
}

#[test]
fn dispatcher_steps() {
    assert_eq!(dispatcher_step(Received::Event), DispatcherAction::Deliver);
    assert_eq!(dispatcher_step(Received::Lagged(3)), DispatcherAction::ReportLag(3));
    assert_eq!(dispatcher_step(Received::Closed), DispatcherAction::Stop);
}
