//! How the runner bridge picks a flow for an incoming activity and turns a
//! flow's output back into outgoing activities.
use vstd::prelude::*;

use crate::json_order::{lemma_insert_entry_sorted, sorted_entries};
use crate::json::{deep_clone, entries_get, entries_insert, entries_map, insert_entry, json_get, json_get_str, json_str, jv,
    jv_entries, lemma_jv_entries, render, Json, JsonValue};
use crate::text::push_str;

verus! {

broadcast use vstd::string::group_string_axioms;

/// The kind of an activity.
#[derive(Debug, Clone, PartialEq, Eq)]
pub enum ActivityType {
    Message,
    Unknown(String),
}

/// The conversation an activity belongs to.
#[derive(Debug, Clone, PartialEq, Eq)]
pub struct ConversationAccount {
    pub id: Option<String>,
    pub name: Option<String>,
}

/// A party of a conversation.
#[derive(Debug, Clone, PartialEq, Eq)]
pub struct ChannelAccount {
    pub id: Option<String>,
    pub name: Option<String>,
}

/// A messaging activity as the channels exchange it.
#[derive(Debug, PartialEq)]
pub struct Activity {
    pub activity_type: ActivityType,
    pub id: Option<String>,
    pub text: Option<String>,
    pub value: Option<JsonValue>,
    pub attachments: Option<JsonValue>,
    pub channel_data: Option<JsonValue>,
    pub conversation: Option<ConversationAccount>,
    pub from: Option<ChannelAccount>,
    pub recipient: Option<ChannelAccount>,
    pub entities: Option<JsonValue>,
    pub reply_to_id: Option<String>,
}

/// The flow that an activity is dispatched to, and the node to start at.
#[derive(Debug, Clone, PartialEq, Eq)]
pub struct FlowSelection {
    pub flow_id: String,
    pub node: Option<String>,
}

pub open spec fn opt_view(o: Option<String>) -> Option<Seq<char>> {
    match o {
        Some(s) => Some(s@),
        None => None,
    }
}

pub open spec fn opt_json(o: Option<JsonValue>) -> Option<Json> {
    match o {
        Some(v) => Some(v@),
        None => None,
    }
}

pub open spec fn activity_kind(t: ActivityType) -> Seq<char> {
    match t {
        ActivityType::Message => "message"@,
        ActivityType::Unknown(s) => s@,
    }
}

pub open spec fn is_unknown_type(t: ActivityType) -> bool {
    t is Unknown
}

// ---------------------------------------------------------------------------
// Flow and node hints
// ---------------------------------------------------------------------------

/// The first of `keys` under which `obj` holds a string, and that string.
pub open spec fn first_string_member(obj: Json, keys: Seq<Seq<char>>) -> Option<Seq<char>>
    decreases keys.len(),
{
    if keys.len() == 0 {
        None
    } else {
        match json_get_str(obj, keys[0]) {
            Some(s) => Some(s),
            None => first_string_member(obj, keys.drop_first()),
        }
    }
}

pub open spec fn key_views(keys: Seq<&str>) -> Seq<Seq<char>> {
    keys.map_values(|k: &str| k@)
}

/// The string that the channel data holds under the first of `keys` that has one.
pub open spec fn channel_hint(activity: Activity, keys: Seq<Seq<char>>) -> Option<Seq<char>> {
    match activity.channel_data {
        Some(cd) => first_string_member(cd@, keys),
        None => None,
    }
}

/// The string that the channel data's `session` object holds under the first of
/// `keys` that has one.
pub open spec fn session_hint(activity: Activity, keys: Seq<Seq<char>>) -> Option<Seq<char>> {
    match activity.channel_data {
        Some(cd) => match json_get(cd@, "session"@) {
            Some(session) => first_string_member(session, keys),
            None => None,
        },
        None => None,
    }
}

fn first_string_in(obj: &JsonValue, keys: &[&str]) -> (r: Option<String>)
    ensures
        opt_view(r) == first_string_member(obj@, key_views(keys@)),
{
    let ghost all = key_views(keys@);
    let mut i: usize = 0;
    proof {
        assert(all.subrange(0, all.len() as int) == all);
    }
    while i < keys.len()
        invariant
            all == key_views(keys@),
            i <= keys@.len(),
            first_string_member(obj@, all) == first_string_member(
                obj@,
                all.subrange(i as int, all.len() as int),
            ),
        decreases keys@.len() - i,
    {
        let key: &str = keys[i];
        let ghost rest = all.subrange(i as int, all.len() as int);
        proof {
            assert(rest[0] == key@);
            assert(rest.drop_first() == all.subrange(i + 1, all.len() as int));
        }
        match obj.get_str(key) {
            Some(s) => {
                return Some(s.clone());
            },
            None => {},
        }
        i = i + 1;
    }
    proof {
        assert(all.subrange(i as int, all.len() as int).len() == 0);
    }
    None
}

/// The string under the first of `keys` in the channel data.
pub fn channel_string(activity: &Activity, keys: &[&str]) -> (r: Option<String>)
    ensures
        opt_view(r) == channel_hint(*activity, key_views(keys@)),
{
    match &activity.channel_data {
        Some(cd) => first_string_in(cd, keys),
        None => None,
    }
}

/// The string under the first of `keys` in the channel data's `session` object.
pub fn session_string(activity: &Activity, keys: &[&str]) -> (r: Option<String>)
    ensures
        opt_view(r) == session_hint(*activity, key_views(keys@)),
{
    match &activity.channel_data {
        Some(cd) => match cd.get("session") {
            Some(session) => first_string_in(session, keys),
            None => None,
        },
        None => None,
    }
}

pub open spec fn flow_keys() -> Seq<Seq<char>> {
    seq!["flowId"@, "flow_id"@, "flow"@]
}

pub open spec fn session_flow_keys() -> Seq<Seq<char>> {
    seq!["flow"@, "flowId"@, "flow_id"@]
}

pub open spec fn node_keys() -> Seq<Seq<char>> {
    seq!["nodeId"@, "node_id"@, "node"@]
}

pub open spec fn session_node_keys() -> Seq<Seq<char>> {
    seq!["node"@, "nodeId"@, "node_id"@]
}

/// The flow that an activity asks for: from its channel data, else from its session.
pub open spec fn flow_hint(activity: Activity) -> Option<Seq<char>> {
    match channel_hint(activity, flow_keys()) {
        Some(f) => Some(f),
        None => session_hint(activity, session_flow_keys()),
    }
}

/// The node that an activity asks for: from its channel data, else from its session.
pub open spec fn node_hint(activity: Activity) -> Option<Seq<char>> {
    match channel_hint(activity, node_keys()) {
        Some(n) => Some(n),
        None => session_hint(activity, session_node_keys()),
    }
}

/// The string that `obj` holds under `key`.
pub open spec fn string_at(obj: Json, key: Seq<char>) -> Option<Seq<char>> {
    json_get_str(obj, key)
}

/// The flow that an activity asks for is the string its channel data holds
/// under `flowId`, else `flow_id`, else `flow`; without one, the string that the
/// channel data's `session` object holds under `flow`, else `flowId`, else
/// `flow_id`; and none without any of these. The node it asks for is found the
/// same way under `nodeId`, `node_id`, `node` and the session's `node`,
/// `nodeId`, `node_id`.
pub proof fn lemma_hints_fall_back_to_the_session(activity: Activity)
    ensures
        ({
            match activity.channel_data {
                None => flow_hint(activity) is None && node_hint(activity) is None,
                Some(cd) => {
                    let c = cd@;
                    let s = json_get(c, "session"@);
                    let session_flow = match s {
                        Some(sv) => if string_at(sv, "flow"@) is Some {
                            string_at(sv, "flow"@)
                        } else if string_at(sv, "flowId"@) is Some {
                            string_at(sv, "flowId"@)
                        } else {
                            string_at(sv, "flow_id"@)
                        },
                        None => None,
                    };
                    let session_node = match s {
                        Some(sv) => if string_at(sv, "node"@) is Some {
                            string_at(sv, "node"@)
                        } else if string_at(sv, "nodeId"@) is Some {
                            string_at(sv, "nodeId"@)
                        } else {
                            string_at(sv, "node_id"@)
                        },
                        None => None,
                    };
                    &&& flow_hint(activity) == if string_at(c, "flowId"@) is Some {
                        string_at(c, "flowId"@)
                    } else if string_at(c, "flow_id"@) is Some {
                        string_at(c, "flow_id"@)
                    } else if string_at(c, "flow"@) is Some {
                        string_at(c, "flow"@)
                    } else {
                        session_flow
                    }
                    &&& node_hint(activity) == if string_at(c, "nodeId"@) is Some {
                        string_at(c, "nodeId"@)
                    } else if string_at(c, "node_id"@) is Some {
                        string_at(c, "node_id"@)
                    } else if string_at(c, "node"@) is Some {
                        string_at(c, "node"@)
                    } else {
                        session_node
                    }
                },
            }
        }),
{
    reveal_with_fuel(first_string_member, 4);
}

/// An activity whose channel data holds no string under `flowId`, `flow_id` or
/// `flow`, but whose `session` object holds the string `f` under `flow`, asks
/// for flow `f`: where that flow is known, it is the flow selected.
pub proof fn lemma_session_flow_is_the_hint(activity: Activity, f: Seq<char>)
    requires
        activity.channel_data is Some,
        string_at(activity.channel_data->0@, "flowId"@) is None,
        string_at(activity.channel_data->0@, "flow_id"@) is None,
        string_at(activity.channel_data->0@, "flow"@) is None,
        json_get(activity.channel_data->0@, "session"@) matches Some(s) && string_at(s, "flow"@) == Some(f),
    ensures
        flow_hint(activity) == Some(f),
{
    lemma_hints_fall_back_to_the_session(activity);
}

/// The flow that an activity asks for.
pub fn resolve_flow_hint(activity: &Activity) -> (r: Option<String>)
    ensures
        opt_view(r) == flow_hint(*activity),
{
    let keys: [&str; 3] = ["flowId", "flow_id", "flow"];
    let session_keys: [&str; 3] = ["flow", "flowId", "flow_id"];
    proof {
        assert(key_views(keys@) =~= flow_keys());
        assert(key_views(session_keys@) =~= session_flow_keys());
    }
    match channel_string(activity, &keys) {
        Some(f) => Some(f),
        None => session_string(activity, &session_keys),
    }
}

/// The node that an activity asks for.
pub fn resolve_node_hint(activity: &Activity) -> (r: Option<String>)
    ensures
        opt_view(r) == node_hint(*activity),
{
    let keys: [&str; 3] = ["nodeId", "node_id", "node"];
    let session_keys: [&str; 3] = ["node", "nodeId", "node_id"];
    proof {
        assert(key_views(keys@) =~= node_keys());
        assert(key_views(session_keys@) =~= session_node_keys());
    }
    match channel_string(activity, &keys) {
        Some(n) => Some(n),
        None => session_string(activity, &session_keys),
    }
}

/// Picks the flow of an activity: the flow it asks for when the engine knows that
/// flow (`hinted_flow_known`), else the tenant's messaging flow; with the node it asks for.
pub fn select_flow(messaging_flow_id: &str, activity: &Activity, hinted_flow_known: bool) -> (r:
    FlowSelection)
    ensures
        opt_view(r.node) == node_hint(*activity),
        match flow_hint(*activity) {
            Some(f) => r.flow_id@ == if hinted_flow_known {
                f
            } else {
                messaging_flow_id@
            },
            None => r.flow_id@ == messaging_flow_id@,
        },
{
    let node = resolve_node_hint(activity);
    match resolve_flow_hint(activity) {
        Some(flow) => {
            if hinted_flow_known {
                return FlowSelection { flow_id: flow, node };
            }
        },
        None => {},
    }
    FlowSelection { flow_id: messaging_flow_id.to_string(), node }
}

// ---------------------------------------------------------------------------
// Allowed secrets
// ---------------------------------------------------------------------------

pub open spec fn string_views(v: Seq<String>) -> Seq<Seq<char>> {
    v.map_values(|s: String| s@)
}

/// The first allowed secret that the binding does not list.
pub open spec fn first_missing_secret(allowed: Seq<Seq<char>>, listed: Seq<Seq<char>>) -> Option<
    Seq<char>,
>
    decreases allowed.len(),
{
    if allowed.len() == 0 {
        None
    } else if listed.contains(allowed[0]) {
        first_missing_secret(allowed.drop_first(), listed)
    } else {
        Some(allowed[0])
    }
}

/// Checks that a tenant's messaging binding lists every secret the server allows.
/// `binding_secrets` is `None` when the tenant has no messaging binding.
pub fn ensure_allowed_secrets(
    tenant: &str,
    binding_secrets: Option<&Vec<String>>,
    allowed: &Vec<String>,
) -> (r: Result<(), String>)
    ensures
        allowed@.len() == 0 ==> r is Ok,
        allowed@.len() > 0 ==> match binding_secrets {
            None => (r matches Err(e) && e@ == "bindings missing flow_type_bindings.messaging"@),
            Some(listed) => match first_missing_secret(string_views(allowed@), string_views(listed@)) {
                None => r is Ok,
                Some(s) => (r matches Err(e) && e@ == "tenant "@ + tenant@
                    + " binding must include secret `"@ + s
                    + "` under flow_type_bindings.messaging.secrets"@),
            },
        },
{
    if allowed.len() == 0 {
        return Ok(());
    }
    let listed = match binding_secrets {
        Some(l) => l,
        None => {
            return Err("bindings missing flow_type_bindings.messaging".to_string());
        },
    };
    let ghost all = string_views(allowed@);
    let ghost names = string_views(listed@);
    let mut i: usize = 0;
    proof {
        assert(all.subrange(0, all.len() as int) == all);
    }
    while i < allowed.len()
        invariant
            all == string_views(allowed@),
            names == string_views(listed@),
            binding_secrets == Some(listed),
            i <= allowed@.len(),
            first_missing_secret(all, names) == first_missing_secret(
                all.subrange(i as int, all.len() as int),
                names,
            ),
        decreases allowed@.len() - i,
    {
        let secret = &allowed[i];
        let ghost rest = all.subrange(i as int, all.len() as int);
        proof {
            assert(rest[0] == secret@);
            assert(rest.drop_first() == all.subrange(i + 1, all.len() as int));
        }
        if !list_contains(listed, secret.as_str()) {
            proof {
                assert(!names.contains(rest[0]));
                assert(first_missing_secret(rest, names) == Some(secret@));
            }
            let mut msg = "tenant ".to_string();
            push_str(&mut msg, tenant);
            push_str(&mut msg, " binding must include secret `");
            push_str(&mut msg, secret.as_str());
            push_str(&mut msg, "` under flow_type_bindings.messaging.secrets");
            return Err(msg);
        }
        i = i + 1;
    }
    proof {
        assert(all.subrange(i as int, all.len() as int).len() == 0);
    }
    Ok(())
}

/// Whether `list` holds `s`.
fn list_contains(list: &Vec<String>, s: &str) -> (r: bool)
    ensures
        r == string_views(list@).contains(s@),
{
    let mut i: usize = 0;
    while i < list.len()
        invariant
            i <= list@.len(),
            forall|j: int| 0 <= j < i ==> list@[j]@ != s@,
        decreases list@.len() - i,
    {
        if crate::json::str_eq(list[i].as_str(), s) {
            proof {
                assert(string_views(list@)[i as int] == s@);
            }
            return true;
        }
        i = i + 1;
    }
    proof {
        if string_views(list@).contains(s@) {
            let k = choose|k: int| 0 <= k < string_views(list@).len() && string_views(list@)[k] == s@;
            assert(list@[k]@ == s@);
        }
    }
    false
}

// ---------------------------------------------------------------------------
// Activities as JSON
// ---------------------------------------------------------------------------

/// The mathematical model of an account: its id and its name.
pub type AccountModel = (Option<Seq<char>>, Option<Seq<char>>);

/// The mathematical model of an activity.
pub struct ActivityModel {
    pub kind: Seq<char>,
    pub unknown: bool,
    pub id: Option<Seq<char>>,
    pub text: Option<Seq<char>>,
    pub value: Option<Json>,
    pub attachments: Option<Json>,
    pub channel_data: Option<Json>,
    pub conversation: Option<AccountModel>,
    pub from: Option<AccountModel>,
    pub recipient: Option<AccountModel>,
    pub entities: Option<Json>,
    pub reply_to_id: Option<Seq<char>>,
}

pub open spec fn conversation_model(c: Option<ConversationAccount>) -> Option<AccountModel> {
    match c {
        Some(a) => Some((opt_view(a.id), opt_view(a.name))),
        None => None,
    }
}

pub open spec fn account_model(c: Option<ChannelAccount>) -> Option<AccountModel> {
    match c {
        Some(a) => Some((opt_view(a.id), opt_view(a.name))),
        None => None,
    }
}

pub open spec fn activity_model(a: Activity) -> ActivityModel {
    ActivityModel {
        kind: activity_kind(a.activity_type),
        unknown: is_unknown_type(a.activity_type),
        id: opt_view(a.id),
        text: opt_view(a.text),
        value: opt_json(a.value),
        attachments: opt_json(a.attachments),
        channel_data: opt_json(a.channel_data),
        conversation: conversation_model(a.conversation),
        from: account_model(a.from),
        recipient: account_model(a.recipient),
        entities: opt_json(a.entities),
        reply_to_id: opt_view(a.reply_to_id),
    }
}

/// A member that may be left out: absent and `null` count as missing.
pub open spec fn present_member(obj: Json, key: Seq<char>) -> Option<Json> {
    match json_get(obj, key) {
        Some(Json::Null) => None,
        other => other,
    }
}

/// A text member: `Some(None)` when missing, `Some(Some(s))` for a string, `None`
/// (no parse) for any other value.
pub open spec fn text_member(obj: Json, key: Seq<char>) -> Option<Option<Seq<char>>> {
    match present_member(obj, key) {
        None => Some(None),
        Some(Json::Str(s)) => Some(Some(s)),
        Some(_) => None,
    }
}

/// An account member: `Some(None)` when missing, an object with text `id` and
/// `name` members when given, `None` (no parse) otherwise.
pub open spec fn account_member(obj: Json, key: Seq<char>) -> Option<Option<AccountModel>> {
    match present_member(obj, key) {
        None => Some(None),
        Some(acc) => if acc is Object && text_member(acc, "id"@) is Some && text_member(
            acc,
            "name"@,
        ) is Some {
            Some(Some((text_member(acc, "id"@)->0, text_member(acc, "name"@)->0)))
        } else {
            None
        },
    }
}

/// The activity that a JSON object describes: `type` must be a string, the text
/// members strings, the account members objects; `null` counts as missing.
pub open spec fn parse_activity(v: Json) -> Option<ActivityModel> {
    if v is Object && json_str(json_get(v, "type"@).unwrap_or(Json::Null)) is Some && text_member(
        v,
        "id"@,
    ) is Some && text_member(v, "text"@) is Some && text_member(v, "replyToId"@) is Some
        && account_member(v, "conversation"@) is Some && account_member(v, "from"@) is Some
        && account_member(v, "recipient"@) is Some {
        let kind = json_str(json_get(v, "type"@).unwrap_or(Json::Null))->0;
        Some(
            ActivityModel {
                kind,
                unknown: kind != "message"@,
                id: text_member(v, "id"@)->0,
                text: text_member(v, "text"@)->0,
                value: present_member(v, "value"@),
                attachments: present_member(v, "attachments"@),
                channel_data: present_member(v, "channelData"@),
                conversation: account_member(v, "conversation"@)->0,
                from: account_member(v, "from"@)->0,
                recipient: account_member(v, "recipient"@)->0,
                entities: present_member(v, "entities"@),
                reply_to_id: text_member(v, "replyToId"@)->0,
            },
        )
    } else {
        None
    }
}

fn present_member_exec<'a>(obj: &'a JsonValue, key: &str) -> (r: Option<&'a JsonValue>)
    ensures
        match r {
            Some(m) => present_member(obj@, key@) == Some(m@),
            None => present_member(obj@, key@) is None,
        },
{
    match obj.get(key) {
        Some(JsonValue::Null) => None,
        other => other,
    }
}

fn text_member_exec(obj: &JsonValue, key: &str) -> (r: Option<Option<String>>)
    ensures
        match r {
            Some(t) => text_member(obj@, key@) == Some(opt_view(t)),
            None => text_member(obj@, key@) is None,
        },
{
    match present_member_exec(obj, key) {
        None => Some(None),
        Some(JsonValue::Str(s)) => Some(Some(s.clone())),
        Some(_) => None,
    }
}

fn json_member_exec(obj: &JsonValue, key: &str) -> (r: Option<JsonValue>)
    ensures
        opt_json(r) == present_member(obj@, key@),
{
    match present_member_exec(obj, key) {
        Some(m) => Some(deep_clone(m)),
        None => None,
    }
}

fn account_member_exec(obj: &JsonValue, key: &str) -> (r: Option<Option<(Option<String>, Option<String>)>>)
    ensures
        match r {
            Some(Some(acc)) => account_member(obj@, key@) == Some(Some((opt_view(acc.0), opt_view(acc.1)))),
            Some(None) => account_member(obj@, key@) == Some(None::<AccountModel>),
            None => account_member(obj@, key@) is None,
        },
{
    match present_member_exec(obj, key) {
        None => Some(None),
        Some(acc) => {
            if !acc.is_object() {
                return None;
            }
            let id = match text_member_exec(acc, "id") {
                Some(t) => t,
                None => {
                    return None;
                },
            };
            let name = match text_member_exec(acc, "name") {
                Some(t) => t,
                None => {
                    return None;
                },
            };
            Some(Some((id, name)))
        },
    }
}

/// The activity that a JSON object describes, or `None` when it describes none.
pub fn activity_from_json(v: &JsonValue) -> (r: Option<Activity>)
    ensures
        match r {
            Some(a) => parse_activity(v@) == Some(activity_model(a)),
            None => parse_activity(v@) is None,
        },
{
    if !v.is_object() {
        return None;
    }
    let kind = match v.get_str("type") {
        Some(k) => k.clone(),
        None => {
            return None;
        },
    };
    let id = match text_member_exec(v, "id") {
        Some(t) => t,
        None => {
            return None;
        },
    };
    let text = match text_member_exec(v, "text") {
        Some(t) => t,
        None => {
            return None;
        },
    };
    let reply_to_id = match text_member_exec(v, "replyToId") {
        Some(t) => t,
        None => {
            return None;
        },
    };
    let conversation = match account_member_exec(v, "conversation") {
        Some(Some((id, name))) => Some(ConversationAccount { id, name }),
        Some(None) => None,
        None => {
            return None;
        },
    };
    let from = match account_member_exec(v, "from") {
        Some(Some((id, name))) => Some(ChannelAccount { id, name }),
        Some(None) => None,
        None => {
            return None;
        },
    };
    let recipient = match account_member_exec(v, "recipient") {
        Some(Some((id, name))) => Some(ChannelAccount { id, name }),
        Some(None) => None,
        None => {
            return None;
        },
    };
    let activity_type = if crate::json::str_eq(kind.as_str(), "message") {
        ActivityType::Message
    } else {
        ActivityType::Unknown(kind)
    };
    let a = Activity {
        activity_type,
        id,
        text,
        value: json_member_exec(v, "value"),
        attachments: json_member_exec(v, "attachments"),
        channel_data: json_member_exec(v, "channelData"),
        conversation,
        from,
        recipient,
        entities: json_member_exec(v, "entities"),
        reply_to_id,
    };
    Some(a)
}

// ---------------------------------------------------------------------------
// Outgoing activities
// ---------------------------------------------------------------------------

/// Whether `c` is a lower-case hexadecimal digit.
pub open spec fn is_lower_hex(c: char) -> bool {
    ('0' <= c && c <= '9') || ('a' <= c && c <= 'f')
}

/// Whether `t` is a random (version 4) UUID in its hyphenated lower-case form:
/// 32 hex digits in groups of 8, 4, 4, 4 and 12 joined by hyphens, the version
/// digit `4` opening the third group and one of `8`, `9`, `a`, `b` the fourth.
pub open spec fn is_v4_uuid_text(t: Seq<char>) -> bool {
    &&& t.len() == 36
    &&& forall|i: int|
        0 <= i < 36 ==> if i == 8 || i == 13 || i == 18 || i == 23 {
            #[trigger] t[i] == '-'
        } else {
            is_lower_hex(t[i])
        }
    &&& t[14] == '4'
    &&& (t[19] == '8' || t[19] == '9' || t[19] == 'a' || t[19] == 'b')
}

/// A fresh activity id. Calls `uuid::Uuid::new_v4`, which masks random bits
/// to set the version (4) and the RFC variant, and writes it with `to_string`,
/// whose `Display` is the hyphenated lower-case form; the digits are random.
#[verifier::external_body]
fn new_activity_id() -> (r: String)
    ensures
        is_v4_uuid_text(r@),
{
    uuid::Uuid::new_v4().to_string()
}

/// The trace id that an activity carries in its channel data.
pub open spec fn trace_id_of(a: Activity) -> Option<Seq<char>> {
    match a.channel_data {
        Some(cd) => json_get_str(cd@, "traceId"@),
        None => None,
    }
}

impl Activity {
    /// The trace id that the activity carries in its channel data (`traceId`).
    pub fn tenant_trace_id(&self) -> (r: Option<String>)
        ensures
            opt_view(r) == trace_id_of(*self),
    {
        match &self.channel_data {
            Some(cd) => match cd.get_str("traceId") {
                Some(t) => Some(t.clone()),
                None => None,
            },
            None => None,
        }
    }
}

/// The trace id that replies to `reference` carry: its own trace id, else its conversation's id.
pub open spec fn reply_trace(reference: Activity) -> Option<Seq<char>> {
    match trace_id_of(reference) {
        Some(t) => Some(t),
        None => match reference.conversation {
            Some(c) => opt_view(c.id),
            None => None,
        },
    }
}

/// Whether a reply's channel data can take a trace id: it is missing, `null` or an object.
pub open spec fn takes_trace(cd: Option<JsonValue>) -> bool {
    match cd {
        None => true,
        Some(v) => v@ is Null || v@ is Object,
    }
}

/// The channel data that a reply ends up with, given the one it had (`base`, after
/// defaulting to `{"tenant": tenant}`) and the trace id it gets.
/// With a trace id, `traceId` is set in the members of `base` (a `null` base
/// counting as no members); members in ascending key order stay so.
pub open spec fn traced_channel_data(base: Json, trace: Option<Seq<char>>, r: Json) -> bool {
    &&& match trace {
        None => r == base,
        Some(t) => r == Json::Object(
            crate::json::insert_entry(crate::json::object_entries(base), "traceId"@, Json::Str(t)),
        ),
    }
    &&& base is Object && sorted_entries(base->Object_0) ==> r is Object && sorted_entries(r->Object_0)
}

pub open spec fn tenant_object(tenant: Seq<char>) -> Json {
    Json::Object(seq![("tenant"@, Json::Str(tenant))])
}

/// Whether `out` is `a` made into a reply to `reference` for `tenant`: unknown types
/// become messages, missing id, conversation, parties and reply target are filled
/// from the reference (sender and recipient swapped), and the channel data gets
/// the reference's trace id. A missing id becomes some fresh id.
pub open spec fn reply_to(reference: Activity, tenant: Seq<char>, a: ActivityModel, out: ActivityModel) -> bool {
    &&& out.kind == if a.unknown { "message"@ } else { a.kind }
    &&& !out.unknown
    &&& match a.id {
        Some(id) => out.id == Some(id),
        None => out.id is Some,
    }
    &&& out.text == a.text
    &&& out.value == a.value
    &&& out.attachments == a.attachments
    &&& out.entities == a.entities
    &&& out.conversation == match a.conversation {
        Some(c) => Some(c),
        None => conversation_model(reference.conversation),
    }
    &&& out.from == match a.from {
        Some(f) => Some(f),
        None => account_model(reference.recipient),
    }
    &&& out.recipient == match a.recipient {
        Some(r) => Some(r),
        None => account_model(reference.from),
    }
    &&& out.reply_to_id == match a.reply_to_id {
        Some(r) => Some(r),
        None => opt_view(reference.id),
    }
    &&& out.channel_data is Some
    &&& traced_channel_data(
        match a.channel_data {
            Some(cd) => cd,
            None => tenant_object(tenant),
        },
        reply_trace(reference),
        out.channel_data->0,
    )
}

fn clone_opt_string(o: &Option<String>) -> (r: Option<String>)
    ensures
        r == *o,
{
    match o {
        Some(s) => Some(s.clone()),
        None => None,
    }
}

fn clone_conversation(o: &Option<ConversationAccount>) -> (r: Option<ConversationAccount>)
    ensures
        conversation_model(r) == conversation_model(*o),
{
    match o {
        Some(c) => Some(ConversationAccount { id: clone_opt_string(&c.id), name: clone_opt_string(&c.name) }),
        None => None,
    }
}

fn clone_account(o: &Option<ChannelAccount>) -> (r: Option<ChannelAccount>)
    ensures
        account_model(r) == account_model(*o),
{
    match o {
        Some(c) => Some(ChannelAccount { id: clone_opt_string(&c.id), name: clone_opt_string(&c.name) }),
        None => None,
    }
}

fn tenant_channel_data(tenant: &str) -> (r: JsonValue)
    ensures
        r@ == tenant_object(tenant@),
{
    let entries = vec![("tenant".to_string(), JsonValue::from_str(tenant))];
    proof {
        lemma_jv_entries(entries@);
        assert(jv_entries(entries@) =~= tenant_object(tenant@)->Object_0);
    }
    JsonValue::Object(entries)
}

/// Sets `traceId` in channel data that is `null` or an object.
fn set_trace(cd: JsonValue, trace: String) -> (r: JsonValue)
    requires
        cd@ is Null || cd@ is Object,
    ensures
        r@ == Json::Object(
            crate::json::insert_entry(crate::json::object_entries(cd@), "traceId"@, Json::Str(trace@)),
        ),
        cd@ is Object && sorted_entries(cd@->Object_0) ==> sorted_entries(r@->Object_0),
{
    proof {
        if cd@ is Object && sorted_entries(cd@->Object_0) {
            lemma_insert_entry_sorted(cd@->Object_0, "traceId"@, Json::Str(trace@));
        }
    }
    let mut entries: Vec<(String, JsonValue)> = match cd {
        JsonValue::Object(e) => e,
        _ => Vec::new(),
    };
    proof {
        if !(cd@ is Object) {
            assert(jv_entries(entries@) =~= Seq::<(Seq<char>, Json)>::empty());
        }
    }
    entries_insert(&mut entries, "traceId".to_string(), JsonValue::Str(trace));
    JsonValue::Object(entries)
}

/// Makes `activity` a reply to `reference` for `tenant`, with `fresh_id` as its id when it has none.
pub fn normalize_outgoing_with_id(
    reference: &Activity,
    tenant: &str,
    activity: &mut Activity,
    fresh_id: String,
)
    requires
        reply_trace(*reference) is Some ==> takes_trace(old(activity).channel_data),
    ensures
        reply_to(*reference, tenant@, activity_model(*old(activity)), activity_model(*final(activity))),
        final(activity).id == match old(activity).id {
            Some(id) => Some(id),
            None => Some(fresh_id),
        },
{
    if let ActivityType::Unknown(_) = activity.activity_type {
        activity.activity_type = ActivityType::Message;
    }
    if activity.id.is_none() {
        activity.id = Some(fresh_id);
    }
    if activity.conversation.is_none() {
        activity.conversation = clone_conversation(&reference.conversation);
    }
    if activity.from.is_none() {
        activity.from = clone_account(&reference.recipient);
    }
    if activity.recipient.is_none() {
        activity.recipient = clone_account(&reference.from);
    }
    if activity.reply_to_id.is_none() {
        activity.reply_to_id = clone_opt_string(&reference.id);
    }
    let base = match &activity.channel_data {
        Some(cd) => deep_clone(cd),
        None => tenant_channel_data(tenant),
    };
    let traced = match reference.tenant_trace_id() {
        Some(trace_id) => set_trace(base, trace_id),
        None => match &reference.conversation {
            Some(conversation) => match &conversation.id {
                Some(conv_id) => set_trace(base, conv_id.clone()),
                None => base,
            },
            None => base,
        },
    };
    activity.channel_data = Some(traced);
}

/// Makes `activity` a reply to `reference` for `tenant`, giving it a fresh
/// random UUID as its id when it has none.
pub fn normalize_outgoing(reference: &Activity, tenant: &str, activity: &mut Activity)
    requires
        reply_trace(*reference) is Some ==> takes_trace(old(activity).channel_data),
    ensures
        reply_to(*reference, tenant@, activity_model(*old(activity)), activity_model(*final(activity))),
        old(activity).id is None ==> (final(activity).id matches Some(id) && is_v4_uuid_text(id@)),
{
    let fresh = new_activity_id();
    normalize_outgoing_with_id(reference, tenant, activity, fresh);
}

/// The model of a plain message with `text` and nothing else.
pub open spec fn plain_message(text: Option<Seq<char>>) -> ActivityModel {
    ActivityModel {
        kind: "message"@,
        unknown: false,
        id: None,
        text,
        value: None,
        attachments: None,
        channel_data: None,
        conversation: None,
        from: None,
        recipient: None,
        entities: None,
        reply_to_id: None,
    }
}

/// A message reply to `reference` for `tenant` that carries `text`.
pub fn default_activity(reference: &Activity, tenant: &str, text: Option<String>) -> (r: Activity)
    ensures
        reply_to(*reference, tenant@, plain_message(opt_view(text)), activity_model(r)),
        r.id matches Some(id) && is_v4_uuid_text(id@),
{
    let mut activity = Activity {
        activity_type: ActivityType::Message,
        id: None,
        text,
        value: None,
        attachments: None,
        channel_data: None,
        conversation: None,
        from: None,
        recipient: None,
        entities: None,
        reply_to_id: None,
    };
    normalize_outgoing(reference, tenant, &mut activity);
    activity
}

// ---------------------------------------------------------------------------
// Flow output
// ---------------------------------------------------------------------------

/// The members of an object with `type` set to "message" when it has no `type`.
pub open spec fn with_default_type(e: Seq<(Seq<char>, Json)>) -> Seq<(Seq<char>, Json)> {
    if entries_get(e, "type"@) is Some {
        e
    } else {
        insert_entry(e, "type"@, Json::Str("message"@))
    }
}

/// Whether mapping `v` would meet channel data that cannot take the reference's
/// trace id: an object describing an activity whose channel data is neither an
/// object nor `null`, in reply to a reference that has a trace id.
pub open spec fn trace_target_refused(reference: Activity, v: Json) -> bool {
    &&& reply_trace(reference) is Some
    &&& v is Object
    &&& parse_activity(Json::Object(with_default_type(v->Object_0))) matches Some(m)
    &&& m.channel_data matches Some(cd)
    &&& !(cd is Object)
}

/// Whether `out` is what one value of a flow's output becomes: a message reply with
/// the value as text for `null`, strings, booleans, numbers and arrays; for an
/// object, the activity it describes (with a default `type` of "message") made a
/// reply, or a message whose text is the object's JSON when it describes none.
pub open spec fn coerced(reference: Activity, tenant: Seq<char>, v: Json, out: ActivityModel) -> bool {
    match v {
        Json::Null => reply_to(reference, tenant, plain_message(None), out),
        Json::Str(s) => reply_to(reference, tenant, plain_message(Some(s)), out),
        Json::Bool(b) => reply_to(
            reference,
            tenant,
            plain_message(Some(if b { "true"@ } else { "false"@ })),
            out,
        ),
        Json::Number(t) => reply_to(reference, tenant, plain_message(Some(t)), out),
        Json::Array(_) => reply_to(reference, tenant, plain_message(Some(render(v))), out),
        Json::Object(e) => {
            let patched = Json::Object(with_default_type(e));
            match parse_activity(patched) {
                Some(m) => reply_to(reference, tenant, m, out),
                None => reply_to(reference, tenant, plain_message(Some(render(patched))), out),
            }
        },
    }
}

/// Turns one value of a flow's output into an outgoing activity.
pub fn coerce_activity(reference: &Activity, tenant: &str, value: JsonValue) -> (r: Activity)
    requires
        !trace_target_refused(*reference, value@),
    ensures
        coerced(*reference, tenant@, value@, activity_model(r)),
{
    match value {
        JsonValue::Null => default_activity(reference, tenant, None),
        JsonValue::Str(text) => default_activity(reference, tenant, Some(text)),
        JsonValue::Bool(flag) => {
            let text = if flag {
                "true".to_string()
            } else {
                "false".to_string()
            };
            default_activity(reference, tenant, Some(text))
        },
        JsonValue::Number(num) => default_activity(reference, tenant, Some(num)),
        JsonValue::Array(items) => {
            let whole = JsonValue::Array(items);
            let text = whole.render();
            default_activity(reference, tenant, Some(text))
        },
        JsonValue::Object(entries) => {
            let mut map = entries;
            let has_type = crate::json::entries_lookup(&map, "type").is_some();
            if !has_type {
                entries_insert(&mut map, "type".to_string(), JsonValue::from_str("message"));
            }
            let patched = JsonValue::Object(map);
            match activity_from_json(&patched) {
                Some(activity) => {
                    let mut activity = activity;
                    normalize_outgoing(reference, tenant, &mut activity);
                    activity
                },
                None => {
                    let text = patched.render();
                    default_activity(reference, tenant, Some(text))
                },
            }
        },
    }
}

/// Turns a flow's output into outgoing activities: one per item of an array, or one for any other value.
pub fn flow_value_to_activities(reference: &Activity, tenant: &str, value: JsonValue) -> (r: Vec<
    Activity,
>)
    requires
        value@ is Array ==> forall|i: int|
            0 <= i < value@->Array_0.len() ==> !trace_target_refused(
                *reference,
                #[trigger] value@->Array_0[i],
            ),
        !(value@ is Array) ==> !trace_target_refused(*reference, value@),
    ensures
        match value@ {
            Json::Array(items) => r@.len() == items.len() && forall|i: int|
                0 <= i < items.len() ==> coerced(*reference, tenant@, items[i], activity_model(
                    #[trigger] r@[i],
                )),
            _ => r@.len() == 1 && coerced(*reference, tenant@, value@, activity_model(r@[0])),
        },
{
    match value {
        JsonValue::Array(items) => {
            proof {
                crate::json::lemma_jv_items(items@);
            }
            let ghost item_views = crate::json::jv_items(items@);
            proof {
                assert(value@->Array_0 == item_views);
                assert forall|j: int| 0 <= j < item_views.len() implies !trace_target_refused(
                    *reference,
                    #[trigger] item_views[j],
                ) by {
                    assert(value@->Array_0[j] == item_views[j]);
                }
            }
            let mut results: Vec<Activity> = Vec::new();
            let mut rest = items;
            let n = rest.len();
            let mut i: usize = 0;
            while i < n
                invariant
                    n == item_views.len(),
                    i <= n,
                    rest@.len() == n - i,
                    forall|j: int| 0 <= j < rest@.len() ==> jv(#[trigger] rest@[j]) == item_views[i + j],
                    forall|j: int| 0 <= j < n ==> !trace_target_refused(*reference, #[trigger] item_views[j]),
                    results@.len() == i,
                    forall|j: int| 0 <= j < i ==> coerced(*reference, tenant@, item_views[j], activity_model(
                        #[trigger] results@[j],
                    )),
                decreases n - i,
            {
                let ghost before = rest@;
                let item = rest.remove(0);
                proof {
                    assert(jv(before[0]) == item_views[i as int]);
                    assert forall|j: int| 0 <= j < rest@.len() implies jv(#[trigger] rest@[j]) == item_views[i + 1 + j] by {
                        assert(rest@[j] == before[j + 1]);
                    }
                }
                let activity = coerce_activity(reference, tenant, item);
                results.push(activity);
                i = i + 1;
            }
            results
        },
        other => {
            let activity = coerce_activity(reference, tenant, other);
            let mut results: Vec<Activity> = Vec::new();
            results.push(activity);
            results
        },
    }
}

// ---------------------------------------------------------------------------
// Activities written as JSON
// ---------------------------------------------------------------------------

/// An entry for a member that is left out when it has no value.
pub open spec fn opt_entry(key: Seq<char>, v: Option<Json>) -> Seq<(Seq<char>, Json)> {
    match v {
        Some(x) => seq![(key, x)],
        None => Seq::empty(),
    }
}

pub open spec fn opt_text(t: Option<Seq<char>>) -> Option<Json> {
    match t {
        Some(s) => Some(Json::Str(s)),
        None => None,
    }
}

/// An account as JSON: its `id` and `name`, each left out when missing.
pub open spec fn account_json(acc: AccountModel) -> Json {
    Json::Object(opt_entry("id"@, opt_text(acc.0)) + opt_entry("name"@, opt_text(acc.1)))
}

pub open spec fn opt_account(acc: Option<AccountModel>) -> Option<Json> {
    match acc {
        Some(a) => Some(account_json(a)),
        None => None,
    }
}

/// An activity as JSON: its members in ascending key order, each left out
/// when missing, and `type` always there.
pub open spec fn activity_json(m: ActivityModel) -> Json {
    Json::Object(
        opt_entry("attachments"@, m.attachments) + (opt_entry("channelData"@, m.channel_data) + (
        opt_entry("conversation"@, opt_account(m.conversation)) + (opt_entry("entities"@, m.entities)
            + (opt_entry("from"@, opt_account(m.from)) + (opt_entry("id"@, opt_text(m.id)) + (
        opt_entry("recipient"@, opt_account(m.recipient)) + (opt_entry(
            "replyToId"@,
            opt_text(m.reply_to_id),
        ) + (opt_entry("text"@, opt_text(m.text)) + (opt_entry("type"@, Some(Json::Str(m.kind)))
            + (opt_entry("value"@, m.value) + Seq::empty())))))))))),
    )
}

pub open spec fn opt_json_or_null(v: Option<Json>) -> Json {
    match v {
        Some(x) => x,
        None => Json::Null,
    }
}

/// What a flow is started with for an activity: the whole activity, and its
/// main members beside it (`null` where missing), in ascending key order.
pub open spec fn flow_input_json(m: ActivityModel) -> Json {
    Json::Object(
        seq![
            ("activity"@, activity_json(m)),
            ("attachments"@, opt_json_or_null(m.attachments)),
            ("channelData"@, opt_json_or_null(m.channel_data)),
            ("conversation"@, opt_json_or_null(opt_account(m.conversation))),
            ("entities"@, opt_json_or_null(m.entities)),
            ("from"@, opt_json_or_null(opt_account(m.from))),
            ("recipient"@, opt_json_or_null(opt_account(m.recipient))),
            ("text"@, opt_json_or_null(opt_text(m.text))),
            ("type"@, Json::Str(m.kind)),
            ("value"@, opt_json_or_null(m.value)),
        ],
    )
}

fn prepend_opt_json(entries: &mut Vec<(String, JsonValue)>, key: &str, v: &Option<JsonValue>)
    ensures
        jv_entries(final(entries)@) == opt_entry(key@, opt_json(*v)) + jv_entries(old(entries)@),
{
    proof {
        lemma_jv_entries(entries@);
    }
    match v {
        Some(x) => {
            entries.insert(0, (key.to_string(), deep_clone(x)));
            proof {
                lemma_jv_entries(entries@);
                assert(jv_entries(entries@) =~= opt_entry(key@, opt_json(*v)) + jv_entries(old(entries)@));
            }
        },
        None => {
            proof {
                assert(jv_entries(entries@) =~= opt_entry(key@, opt_json(*v)) + jv_entries(old(entries)@));
            }
        },
    }
}

fn prepend_opt_text(entries: &mut Vec<(String, JsonValue)>, key: &str, t: &Option<String>)
    ensures
        jv_entries(final(entries)@) == opt_entry(key@, opt_text(opt_view(*t))) + jv_entries(old(entries)@),
{
    let v: Option<JsonValue> = match t {
        Some(s) => Some(JsonValue::Str(s.clone())),
        None => None,
    };
    prepend_opt_json(entries, key, &v);
}

fn account_value(id: &Option<String>, name: &Option<String>) -> (r: JsonValue)
    ensures
        r@ == account_json((opt_view(*id), opt_view(*name))),
{
    let mut entries: Vec<(String, JsonValue)> = Vec::new();
    proof {
        assert(jv_entries(entries@) =~= Seq::<(Seq<char>, Json)>::empty());
    }
    prepend_opt_text(&mut entries, "name", name);
    prepend_opt_text(&mut entries, "id", id);
    proof {
        assert(jv_entries(entries@) =~= opt_entry("id"@, opt_text(opt_view(*id))) + opt_entry(
            "name"@,
            opt_text(opt_view(*name)),
        ));
    }
    JsonValue::Object(entries)
}

fn prepend_opt_conversation(entries: &mut Vec<(String, JsonValue)>, key: &str, c: &Option<ConversationAccount>)
    ensures
        jv_entries(final(entries)@) == opt_entry(key@, opt_account(conversation_model(*c))) + jv_entries(old(entries)@),
{
    let v: Option<JsonValue> = match c {
        Some(acc) => Some(account_value(&acc.id, &acc.name)),
        None => None,
    };
    prepend_opt_json(entries, key, &v);
}

fn prepend_opt_account(entries: &mut Vec<(String, JsonValue)>, key: &str, c: &Option<ChannelAccount>)
    ensures
        jv_entries(final(entries)@) == opt_entry(key@, opt_account(account_model(*c))) + jv_entries(old(entries)@),
{
    let v: Option<JsonValue> = match c {
        Some(acc) => Some(account_value(&acc.id, &acc.name)),
        None => None,
    };
    prepend_opt_json(entries, key, &v);
}

fn kind_text(t: &ActivityType) -> (r: String)
    ensures
        r@ == activity_kind(*t),
{
    match t {
        ActivityType::Message => "message".to_string(),
        ActivityType::Unknown(s) => s.clone(),
    }
}

/// An activity as JSON.
pub fn activity_to_json(a: &Activity) -> (r: JsonValue)
    ensures
        r@ == activity_json(activity_model(*a)),
{
    let mut e: Vec<(String, JsonValue)> = Vec::new();
    proof {
        assert(jv_entries(e@) =~= Seq::<(Seq<char>, Json)>::empty());
    }
    prepend_opt_json(&mut e, "value", &a.value);
    let kind: Option<String> = Some(kind_text(&a.activity_type));
    prepend_opt_text(&mut e, "type", &kind);
    prepend_opt_text(&mut e, "text", &a.text);
    prepend_opt_text(&mut e, "replyToId", &a.reply_to_id);
    prepend_opt_account(&mut e, "recipient", &a.recipient);
    prepend_opt_text(&mut e, "id", &a.id);
    prepend_opt_account(&mut e, "from", &a.from);
    prepend_opt_json(&mut e, "entities", &a.entities);
    prepend_opt_conversation(&mut e, "conversation", &a.conversation);
    prepend_opt_json(&mut e, "channelData", &a.channel_data);
    prepend_opt_json(&mut e, "attachments", &a.attachments);
    JsonValue::Object(e)
}

fn json_or_null(v: Option<JsonValue>) -> (r: JsonValue)
    ensures
        r@ == opt_json_or_null(opt_json(v)),
{
    match v {
        Some(x) => x,
        None => JsonValue::Null,
    }
}

fn opt_clone_json(v: &Option<JsonValue>) -> (r: Option<JsonValue>)
    ensures
        opt_json(r) == opt_json(*v),
{
    match v {
        Some(x) => Some(deep_clone(x)),
        None => None,
    }
}

/// What a flow is started with for an activity.
pub fn activity_to_flow_input(activity: &Activity) -> (r: JsonValue)
    ensures
        r@ == flow_input_json(activity_model(*activity)),
{
    let conversation = match &activity.conversation {
        Some(c) => account_value(&c.id, &c.name),
        None => JsonValue::Null,
    };
    let from = match &activity.from {
        Some(c) => account_value(&c.id, &c.name),
        None => JsonValue::Null,
    };
    let recipient = match &activity.recipient {
        Some(c) => account_value(&c.id, &c.name),
        None => JsonValue::Null,
    };
    let text = match &activity.text {
        Some(t) => JsonValue::Str(t.clone()),
        None => JsonValue::Null,
    };
    let entries: Vec<(String, JsonValue)> = vec![
        ("activity".to_string(), activity_to_json(activity)),
        ("attachments".to_string(), json_or_null(opt_clone_json(&activity.attachments))),
        ("channelData".to_string(), json_or_null(opt_clone_json(&activity.channel_data))),
        ("conversation".to_string(), conversation),
        ("entities".to_string(), json_or_null(opt_clone_json(&activity.entities))),
        ("from".to_string(), from),
        ("recipient".to_string(), recipient),
        ("text".to_string(), text),
        ("type".to_string(), JsonValue::Str(kind_text(&activity.activity_type))),
        ("value".to_string(), json_or_null(opt_clone_json(&activity.value))),
    ];
    proof {
        lemma_jv_entries(entries@);
        assert(jv_entries(entries@) =~= flow_input_json(activity_model(*activity))->Object_0);
    }
    JsonValue::Object(entries)
}

// ---------------------------------------------------------------------------
// Reading back what was written
// ---------------------------------------------------------------------------

/// Whether an activity reads back unchanged from its JSON: an unknown kind is
/// not `message` (which reads as a message), and no JSON member is `null`
/// (which reads as missing).
pub open spec fn reads_back(m: ActivityModel) -> bool {
    &&& m.unknown == (m.kind != "message"@)
    &&& m.value != Some(Json::Null)
    &&& m.attachments != Some(Json::Null)
    &&& m.channel_data != Some(Json::Null)
    &&& m.entities != Some(Json::Null)
}

proof fn lemma_opt_entry_get(k2: Seq<char>, v: Option<Json>, k: Seq<char>)
    ensures
        entries_get(opt_entry(k2, v), k) == if k2 == k {
            v
        } else {
            None
        },
{
    reveal_with_fuel(entries_get, 2);
    match v {
        Some(x) => {
            assert(opt_entry(k2, v).drop_first() =~= Seq::<(Seq<char>, Json)>::empty());
        },
        None => {},
    }
}

proof fn lemma_account_reads_back(acc: AccountModel)
    ensures
        account_json(acc) is Object,
        text_member(account_json(acc), "id"@) == Some(acc.0),
        text_member(account_json(acc), "name"@) == Some(acc.1),
{
    reveal_strlit("id");
    reveal_strlit("name");
    assert("name"@ != "id"@) by {
        assert("name"@.len() != "id"@.len());
    }
    crate::json::lemma_entries_get_concat(opt_entry("id"@, opt_text(acc.0)), opt_entry("name"@, opt_text(acc.1)), "id"@);
    crate::json::lemma_entries_get_concat(opt_entry("id"@, opt_text(acc.0)), opt_entry("name"@, opt_text(acc.1)), "name"@);
    lemma_opt_entry_get("id"@, opt_text(acc.0), "id"@);
    lemma_opt_entry_get("name"@, opt_text(acc.1), "id"@);
    lemma_opt_entry_get("id"@, opt_text(acc.0), "name"@);
    lemma_opt_entry_get("name"@, opt_text(acc.1), "name"@);
}

proof fn lemma_entry_step(k2: Seq<char>, v: Option<Json>, rest: Seq<(Seq<char>, Json)>, k: Seq<char>)
    ensures
        entries_get(opt_entry(k2, v) + rest, k) == if k2 == k && v is Some {
            v
        } else {
            entries_get(rest, k)
        },
{
    lemma_opt_entry_get(k2, v, k);
    crate::json::lemma_entries_get_concat(opt_entry(k2, v), rest, k);
}

/// What looking a key up in an activity's JSON finds.
pub open spec fn activity_member(m: ActivityModel, k: Seq<char>) -> Option<Json> {
    if k == "attachments"@ && m.attachments is Some {
        m.attachments
    } else if k == "channelData"@ && m.channel_data is Some {
        m.channel_data
    } else if k == "conversation"@ && m.conversation is Some {
        opt_account(m.conversation)
    } else if k == "entities"@ && m.entities is Some {
        m.entities
    } else if k == "from"@ && m.from is Some {
        opt_account(m.from)
    } else if k == "id"@ && m.id is Some {
        opt_text(m.id)
    } else if k == "recipient"@ && m.recipient is Some {
        opt_account(m.recipient)
    } else if k == "replyToId"@ && m.reply_to_id is Some {
        opt_text(m.reply_to_id)
    } else if k == "text"@ && m.text is Some {
        opt_text(m.text)
    } else if k == "type"@ {
        Some(Json::Str(m.kind))
    } else if k == "value"@ && m.value is Some {
        m.value
    } else {
        None
    }
}

proof fn lemma_activity_member(m: ActivityModel, k: Seq<char>)
    ensures
        json_get(activity_json(m), k) == activity_member(m, k),
{
    let t11 = opt_entry("value"@, m.value) + Seq::empty();
    let t10 = opt_entry("type"@, Some(Json::Str(m.kind))) + t11;
    let t9 = opt_entry("text"@, opt_text(m.text)) + t10;
    let t8 = opt_entry("replyToId"@, opt_text(m.reply_to_id)) + t9;
    let t7 = opt_entry("recipient"@, opt_account(m.recipient)) + t8;
    let t6 = opt_entry("id"@, opt_text(m.id)) + t7;
    let t5 = opt_entry("from"@, opt_account(m.from)) + t6;
    let t4 = opt_entry("entities"@, m.entities) + t5;
    let t3 = opt_entry("conversation"@, opt_account(m.conversation)) + t4;
    let t2 = opt_entry("channelData"@, m.channel_data) + t3;
    lemma_entry_step("value"@, m.value, Seq::empty(), k);
    lemma_entry_step("type"@, Some(Json::Str(m.kind)), t11, k);
    lemma_entry_step("text"@, opt_text(m.text), t10, k);
    lemma_entry_step("replyToId"@, opt_text(m.reply_to_id), t9, k);
    lemma_entry_step("recipient"@, opt_account(m.recipient), t8, k);
    lemma_entry_step("id"@, opt_text(m.id), t7, k);
    lemma_entry_step("from"@, opt_account(m.from), t6, k);
    lemma_entry_step("entities"@, m.entities, t5, k);
    lemma_entry_step("conversation"@, opt_account(m.conversation), t4, k);
    lemma_entry_step("channelData"@, m.channel_data, t3, k);
    lemma_entry_step("attachments"@, m.attachments, t2, k);
}

/// The member names of an activity's JSON are all different.
proof fn lemma_activity_keys_distinct()
    ensures
        "attachments"@ != "channelData"@,
        "attachments"@ != "conversation"@,
        "attachments"@ != "entities"@,
        "attachments"@ != "from"@,
        "attachments"@ != "id"@,
        "attachments"@ != "recipient"@,
        "attachments"@ != "replyToId"@,
        "attachments"@ != "text"@,
        "attachments"@ != "type"@,
        "attachments"@ != "value"@,
        "channelData"@ != "conversation"@,
        "channelData"@ != "entities"@,
        "channelData"@ != "from"@,
        "channelData"@ != "id"@,
        "channelData"@ != "recipient"@,
        "channelData"@ != "replyToId"@,
        "channelData"@ != "text"@,
        "channelData"@ != "type"@,
        "channelData"@ != "value"@,
        "conversation"@ != "entities"@,
        "conversation"@ != "from"@,
        "conversation"@ != "id"@,
        "conversation"@ != "recipient"@,
        "conversation"@ != "replyToId"@,
        "conversation"@ != "text"@,
        "conversation"@ != "type"@,
        "conversation"@ != "value"@,
        "entities"@ != "from"@,
        "entities"@ != "id"@,
        "entities"@ != "recipient"@,
        "entities"@ != "replyToId"@,
        "entities"@ != "text"@,
        "entities"@ != "type"@,
        "entities"@ != "value"@,
        "from"@ != "id"@,
        "from"@ != "recipient"@,
        "from"@ != "replyToId"@,
        "from"@ != "text"@,
        "from"@ != "type"@,
        "from"@ != "value"@,
        "id"@ != "recipient"@,
        "id"@ != "replyToId"@,
        "id"@ != "text"@,
        "id"@ != "type"@,
        "id"@ != "value"@,
        "recipient"@ != "replyToId"@,
        "recipient"@ != "text"@,
        "recipient"@ != "type"@,
        "recipient"@ != "value"@,
        "replyToId"@ != "text"@,
        "replyToId"@ != "type"@,
        "replyToId"@ != "value"@,
        "text"@ != "type"@,
        "text"@ != "value"@,
        "type"@ != "value"@,
{
    reveal_strlit("attachments");
    reveal_strlit("channelData");
    reveal_strlit("conversation");
    reveal_strlit("entities");
    reveal_strlit("from");
    reveal_strlit("id");
    reveal_strlit("recipient");
    reveal_strlit("replyToId");
    reveal_strlit("text");
    reveal_strlit("type");
    reveal_strlit("value");
    assert("attachments"@[0] != "channelData"@[0]);
    assert("attachments"@.len() != "conversation"@.len());
    assert("attachments"@.len() != "entities"@.len());
    assert("attachments"@.len() != "from"@.len());
    assert("attachments"@.len() != "id"@.len());
    assert("attachments"@.len() != "recipient"@.len());
    assert("attachments"@.len() != "replyToId"@.len());
    assert("attachments"@.len() != "text"@.len());
    assert("attachments"@.len() != "type"@.len());
    assert("attachments"@.len() != "value"@.len());
    assert("channelData"@.len() != "conversation"@.len());
    assert("channelData"@.len() != "entities"@.len());
    assert("channelData"@.len() != "from"@.len());
    assert("channelData"@.len() != "id"@.len());
    assert("channelData"@.len() != "recipient"@.len());
    assert("channelData"@.len() != "replyToId"@.len());
    assert("channelData"@.len() != "text"@.len());
    assert("channelData"@.len() != "type"@.len());
    assert("channelData"@.len() != "value"@.len());
    assert("conversation"@.len() != "entities"@.len());
    assert("conversation"@.len() != "from"@.len());
    assert("conversation"@.len() != "id"@.len());
    assert("conversation"@.len() != "recipient"@.len());
    assert("conversation"@.len() != "replyToId"@.len());
    assert("conversation"@.len() != "text"@.len());
    assert("conversation"@.len() != "type"@.len());
    assert("conversation"@.len() != "value"@.len());
    assert("entities"@.len() != "from"@.len());
    assert("entities"@.len() != "id"@.len());
    assert("entities"@.len() != "recipient"@.len());
    assert("entities"@.len() != "replyToId"@.len());
    assert("entities"@.len() != "text"@.len());
    assert("entities"@.len() != "type"@.len());
    assert("entities"@.len() != "value"@.len());
    assert("from"@.len() != "id"@.len());
    assert("from"@.len() != "recipient"@.len());
    assert("from"@.len() != "replyToId"@.len());
    assert("from"@[0] != "text"@[0]);
    assert("from"@[0] != "type"@[0]);
    assert("from"@.len() != "value"@.len());
    assert("id"@.len() != "recipient"@.len());
    assert("id"@.len() != "replyToId"@.len());
    assert("id"@.len() != "text"@.len());
    assert("id"@.len() != "type"@.len());
    assert("id"@.len() != "value"@.len());
    assert("recipient"@[2] != "replyToId"@[2]);
    assert("recipient"@.len() != "text"@.len());
    assert("recipient"@.len() != "type"@.len());
    assert("recipient"@.len() != "value"@.len());
    assert("replyToId"@.len() != "text"@.len());
    assert("replyToId"@.len() != "type"@.len());
    assert("replyToId"@.len() != "value"@.len());
    assert("text"@[1] != "type"@[1]);
    assert("text"@.len() != "value"@.len());
    assert("type"@.len() != "value"@.len());
}

/// An activity written as JSON reads back as the same activity, wherever its
/// kind and members allow it (see `reads_back`).
pub proof fn lemma_activity_json_round_trip(m: ActivityModel)
    requires
        reads_back(m),
    ensures
        parse_activity(activity_json(m)) == Some(m),
{
    lemma_activity_keys_distinct();
    let v = activity_json(m);
    lemma_activity_member(m, "channelData"@);
    lemma_activity_member(m, "attachments"@);
    lemma_activity_member(m, "conversation"@);
    lemma_activity_member(m, "entities"@);
    lemma_activity_member(m, "from"@);
    lemma_activity_member(m, "id"@);
    lemma_activity_member(m, "recipient"@);
    lemma_activity_member(m, "replyToId"@);
    lemma_activity_member(m, "text"@);
    lemma_activity_member(m, "type"@);
    lemma_activity_member(m, "value"@);
    match m.conversation {
        Some(acc) => lemma_account_reads_back(acc),
        None => {},
    }
    match m.from {
        Some(acc) => lemma_account_reads_back(acc),
        None => {},
    }
    match m.recipient {
        Some(acc) => lemma_account_reads_back(acc),
        None => {},
    }
    assert(json_get(v, "type"@) == Some(Json::Str(m.kind)));
    assert(text_member(v, "id"@) == Some(m.id));
    assert(text_member(v, "text"@) == Some(m.text));
    assert(text_member(v, "replyToId"@) == Some(m.reply_to_id));
    assert(present_member(v, "value"@) == m.value);
    assert(present_member(v, "attachments"@) == m.attachments);
    assert(present_member(v, "channelData"@) == m.channel_data);
    assert(present_member(v, "entities"@) == m.entities);
    assert(account_member(v, "conversation"@) == Some(m.conversation));
    assert(account_member(v, "from"@) == Some(m.from));
    assert(account_member(v, "recipient"@) == Some(m.recipient));
}

} // verus!
