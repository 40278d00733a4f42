use greentic_demo::json::JsonValue;
use greentic_demo::runner_bridge::{
    activity_from_json, activity_to_flow_input, activity_to_json, channel_string, coerce_activity,
    default_activity, ensure_allowed_secrets, flow_value_to_activities, normalize_outgoing_with_id,
    resolve_flow_hint, resolve_node_hint, select_flow, session_string, Activity, ActivityType,
    ChannelAccount, ConversationAccount,
};

fn text(s: &str) -> JsonValue {
    JsonValue::Str(s.to_string())
}

fn object(pairs: Vec<(&str, JsonValue)>) -> JsonValue {
    JsonValue::Object(pairs.into_iter().map(|(k, v)| (k.to_string(), v)).collect())
}

fn empty_activity() -> Activity {
    Activity {
        activity_type: ActivityType::Message,
        id: None,
        text: None,
        value: None,
        attachments: None,
        channel_data: None,
        conversation: None,
        from: None,
        recipient: None,
        entities: None,
        reply_to_id: None,
    }
}

fn base_activity() -> Activity {
    Activity {
        id: Some("abc".into()),
        conversation: Some(ConversationAccount { id: Some("conversation".into()), name: None }),
        from: Some(ChannelAccount { id: Some("user".into()), name: None }),
        recipient: Some(ChannelAccount { id: Some("bot".into()), name: None }),
        channel_data: Some(object(vec![("traceId", text("trace-123")), ("tenant", text("customera"))])),
        ..empty_activity()
    }
}

#[test]
fn default_text_activity_mapping() {
    let incoming = base_activity();
    let result = coerce_activity(&incoming, "customera", text("hi"));
    assert_eq!(result.text.as_deref(), Some("hi"));
    assert_eq!(result.activity_type, ActivityType::Message);
    assert_eq!(result.conversation.unwrap().id.as_deref(), Some("conversation"));
}

#[test]
fn preserves_custom_activity_fields() {
    let incoming = base_activity();
    let outgoing = object(vec![
        ("type", text("message")),
        ("text", text("pong")),
        ("channelData", object(vec![("tenant", text("customera")), ("foo", text("bar"))])),
    ]);
    let mapped = coerce_activity(&incoming, "customera", outgoing);
    assert_eq!(mapped.text.as_deref(), Some("pong"));
    assert_eq!(
        mapped.channel_data.unwrap().get_str("traceId").map(|s| s.as_str()),
        Some("trace-123")
    );
}

#[test]
fn array_payload_maps_to_multiple_activities() {
    let incoming = base_activity();
    let responses = flow_value_to_activities(
        &incoming,
        "customera",
        JsonValue::Array(vec![text("one"), object(vec![("text", text("two"))])]),
    );
    assert_eq!(responses.len(), 2);
    assert_eq!(responses[0].text.as_deref(), Some("one"));
    assert_eq!(responses[1].text.as_deref(), Some("two"));
}

#[test]
fn flow_hint_detected_from_channel_data() {
    let mut activity = base_activity();
    activity.channel_data = Some(object(vec![("flowId", text("weather_bot"))]));
    assert_eq!(resolve_flow_hint(&activity).as_deref(), Some("weather_bot"));
}

#[test]
fn node_hint_detected_from_session() {
    let mut activity = base_activity();
    activity.channel_data = Some(object(vec![("session", object(vec![("node", text("qa_node"))]))]));
    assert_eq!(resolve_node_hint(&activity).as_deref(), Some("qa_node"));
}

#[test]
fn channel_hints_take_the_first_key_that_is_a_string() {
    let mut activity = base_activity();
    activity.channel_data = Some(object(vec![
        ("flow", text("third")),
        ("flow_id", JsonValue::Number("5".to_string())),
        ("session", object(vec![("flowId", text("from-session"))])),
    ]));
    assert_eq!(channel_string(&activity, &["flowId", "flow_id", "flow"]).as_deref(), Some("third"));
    assert_eq!(session_string(&activity, &["flow", "flowId"]).as_deref(), Some("from-session"));
    assert_eq!(channel_string(&empty_activity(), &["flow"]), None);
}

#[test]
fn known_flow_hint_overrides_the_messaging_flow() {
    let mut activity = base_activity();
    activity.channel_data = Some(object(vec![("flowId", text("weather_bot")), ("nodeId", text("start"))]));
    let chosen = select_flow("messaging", &activity, true);
    assert_eq!(chosen.flow_id, "weather_bot");
    assert_eq!(chosen.node.as_deref(), Some("start"));
    let fallback = select_flow("messaging", &activity, false);
    assert_eq!(fallback.flow_id, "messaging");
    assert_eq!(fallback.node.as_deref(), Some("start"));
}

#[test]
fn secrets_must_all_be_bound() {
    let allowed = vec!["token".to_string()];
    let bound = vec!["token".to_string(), "other".to_string()];
    assert!(ensure_allowed_secrets("customera", Some(&bound), &allowed).is_ok());
    assert!(ensure_allowed_secrets("customera", None, &Vec::new()).is_ok());
    assert!(ensure_allowed_secrets("customera", None, &allowed).is_err());
    let err = ensure_allowed_secrets("customera", Some(&vec!["other".to_string()]), &allowed).unwrap_err();
    assert!(err.contains("token"));
    assert!(err.contains("customera"));
}

#[test]
fn replies_swap_parties_and_carry_the_trace() {
    let incoming = base_activity();
    let reply = default_activity(&incoming, "customera", Some("hello".to_string()));
    assert_eq!(reply.from.as_ref().and_then(|a| a.id.as_deref()), Some("bot"));
    assert_eq!(reply.recipient.as_ref().and_then(|a| a.id.as_deref()), Some("user"));
    assert_eq!(reply.reply_to_id.as_deref(), Some("abc"));
    assert_eq!(reply.id.as_ref().map(|id| id.len()), Some(36));
    let cd = reply.channel_data.expect("channel data");
    assert_eq!(cd.get_str("traceId").map(|s| s.as_str()), Some("trace-123"));
    assert_eq!(cd.get_str("tenant").map(|s| s.as_str()), Some("customera"));
    assert_eq!(cd.render(), "{\"tenant\":\"customera\",\"traceId\":\"trace-123\"}");
}

#[test]
fn conversation_id_is_the_trace_without_a_trace_id() {
    let mut incoming = base_activity();
    incoming.channel_data = None;
    let mut outgoing = empty_activity();
    outgoing.activity_type = ActivityType::Unknown("event".to_string());
    normalize_outgoing_with_id(&incoming, "customera", &mut outgoing, "123e4567-e89b-12d3-a456-426614174000".to_string());
    assert_eq!(outgoing.activity_type, ActivityType::Message);
    assert_eq!(outgoing.id.as_deref(), Some("123e4567-e89b-12d3-a456-426614174000"));
    let cd = outgoing.channel_data.expect("channel data");
    assert_eq!(cd.get_str("traceId").map(|s| s.as_str()), Some("conversation"));
}

#[test]
fn non_text_values_become_their_json_text() {
    let incoming = base_activity();
    let from_bool = coerce_activity(&incoming, "customera", JsonValue::Bool(true));
    assert_eq!(from_bool.text.as_deref(), Some("true"));
    let from_array = coerce_activity(&incoming, "customera", JsonValue::Array(vec![text("a"), JsonValue::Null]));
    assert_eq!(from_array.text.as_deref(), Some("[\"a\",null]"));
    let invalid = coerce_activity(&incoming, "customera", object(vec![("text", JsonValue::Number("3".to_string()))]));
    assert_eq!(invalid.text.as_deref(), Some("{\"text\":3,\"type\":\"message\"}"));
}

#[test]
fn activity_json_reads_back() {
    let mut activity = base_activity();
    activity.text = Some("ping".to_string());
    activity.value = Some(object(vec![("k", JsonValue::Bool(false))]));
    let written = activity_to_json(&activity);
    let read = activity_from_json(&written).expect("an activity");
    assert_eq!(read, activity);
    let rendered = written.render();
    let parsed: serde_json::Value = serde_json::from_str(&rendered).expect("valid json");
    assert_eq!(parsed["conversation"]["id"], "conversation");
    assert!(parsed.get("entities").is_none());
}

#[test]
fn flow_input_puts_members_beside_the_activity() {
    let activity = base_activity();
    let input = activity_to_flow_input(&activity);
    assert_eq!(input.get_str("type").map(|s| s.as_str()), Some("message"));
    assert_eq!(input.get("text"), Some(&JsonValue::Null));
    assert_eq!(input.get("activity"), Some(&activity_to_json(&activity)));
}

#[test]
fn fresh_replies_get_a_random_uuid() {
    let incoming = base_activity();
    let first = default_activity(&incoming, "customera", Some("hi".to_string()));
    let second = default_activity(&incoming, "customera", Some("hi".to_string()));
    let id = first.id.clone().expect("an id");
    assert_eq!(id.len(), 36);
    for (i, c) in id.chars().enumerate() {
        if [8, 13, 18, 23].contains(&i) {
            assert_eq!(c, '-');
        } else {
            assert!(c.is_ascii_hexdigit() && !c.is_ascii_uppercase());
        }
    }
    assert_eq!(id.chars().nth(14), Some('4'));
    assert!(matches!(id.chars().nth(19), Some('8' | '9' | 'a' | 'b')));
    assert_ne!(first.id, second.id);
}
