//! The body of a Better Stack incident raised by a webhook event.
use vstd::prelude::*;

use crate::component::{describe_payload_for, descriptor_json, handle_message_for, handled_message};
use crate::json::{
    deep_clone, entries_map, insert_all, insert_entries, insert_members, jv_entries, lemma_jv_entries, pretty,
    render, Json, JsonValue,
};
use crate::json::json_get;
use crate::json_order::{last_value, lemma_insert_entries_get, lemma_last_value_concat};
use crate::text::{decimal, push_char, push_str, u64_to_decimal};

verus! {

broadcast use vstd::string::group_string_axioms;

pub const COMPONENT_NAME: &'static str = "component-betterstack-incident";

pub const BETTERSTACK_INCIDENTS_URL: &'static str =
    "https://uptime.betterstack.com/api/v3/incidents";

pub const BETTERSTACK_TOKEN_SECRET: &'static str = "betterstack_token";

/// What an incident is raised with; every field may be left out.
#[derive(Debug, PartialEq)]
pub struct IncidentRequest {
    pub team_name: Option<String>,
    pub requester_email: Option<String>,
    pub name: Option<String>,
    pub summary: Option<String>,
    pub description: Option<String>,
    pub call: Option<bool>,
    pub sms: Option<bool>,
    pub email: Option<bool>,
    pub critical_alert: Option<bool>,
    pub team_wait: Option<i64>,
    pub policy_id: Option<String>,
    pub metadata: Option<JsonValue>,
    pub event: Option<JsonValue>,
}

pub open spec fn default_name() -> Seq<char> {
    "redbutton-demo webhook incident"@
}

pub open spec fn default_summary() -> Seq<char> {
    "A webhook event triggered redbutton-demo."@
}

pub open spec fn event_preamble() -> Seq<char> {
    "A global webhook event triggered this incident.\n\n"@
}

/// The decimal text of a signed integer, as `serde_json` writes it.
pub open spec fn signed_decimal(n: int) -> Seq<char> {
    if n < 0 {
        seq!['-'] + decimal((-n) as nat)
    } else {
        decimal(n as nat)
    }
}

pub open spec fn opt_str_field(key: Seq<char>, v: Option<String>) -> Seq<(Seq<char>, Json)> {
    match v {
        Some(s) => seq![(key, Json::Str(s@))],
        None => Seq::empty(),
    }
}

pub open spec fn opt_bool_field(key: Seq<char>, v: Option<bool>) -> Seq<(Seq<char>, Json)> {
    match v {
        Some(b) => seq![(key, Json::Bool(b))],
        None => Seq::empty(),
    }
}

/// The incident's description: the given one, or one made from the event.
pub open spec fn description_text(request: IncidentRequest) -> Option<Seq<char>> {
    match request.description {
        Some(d) => Some(d@),
        None => match request.event {
            Some(e) => Some(event_preamble() + pretty(e@, Seq::empty())),
            None => None,
        },
    }
}

/// The first members of the incident body: requester, name, summary and description.
pub open spec fn head_fields(request: IncidentRequest) -> Seq<(Seq<char>, Json)> {
    opt_str_field("team_name"@, request.team_name) + opt_str_field(
        "requester_email"@,
        request.requester_email,
    ) + seq![
        ("name"@, Json::Str(
            match request.name {
                Some(n) => n@,
                None => default_name(),
            },
        )),
        ("summary"@, Json::Str(
            match request.summary {
                Some(n) => n@,
                None => default_summary(),
            },
        )),
    ] + match description_text(request) {
        Some(d) => seq![("description"@, Json::Str(d))],
        None => Seq::empty(),
    }
}

/// The alerting members of the incident body.
pub open spec fn alert_fields(request: IncidentRequest) -> Seq<(Seq<char>, Json)> {
    opt_bool_field("call"@, request.call) + opt_bool_field("sms"@, request.sms) + opt_bool_field(
        "email"@,
        request.email,
    ) + opt_bool_field("critical_alert"@, request.critical_alert)
}

/// The policy members of the incident body.
pub open spec fn policy_fields(request: IncidentRequest) -> Seq<(Seq<char>, Json)> {
    (match request.team_wait {
        Some(w) => seq![("team_wait"@, Json::Number(signed_decimal(w as int)))],
        None => Seq::empty(),
    }) + opt_str_field("policy_id"@, request.policy_id) + match request.metadata {
        Some(m) => seq![("metadata"@, m@)],
        None => Seq::empty(),
    }
}

/// The members of the incident body, in the order they are set.
pub open spec fn incident_fields(request: IncidentRequest) -> Seq<(Seq<char>, Json)> {
    head_fields(request) + alert_fields(request) + policy_fields(request)
}

/// The decimal text of a signed integer.
pub fn i64_to_decimal(n: i64) -> (r: String)
    ensures
        r@ == signed_decimal(n as int),
{
    if n < 0 {
        let magnitude: u64 = if n == i64::MIN {
            9223372036854775808u64
        } else {
            (-n) as u64
        };
        let mut r = String::new();
        push_char(&mut r, '-');
        let digits = u64_to_decimal(magnitude);
        push_str(&mut r, digits.as_str());
        r
    } else {
        u64_to_decimal(n as u64)
    }
}

fn push_opt_str(fields: &mut Vec<(String, JsonValue)>, key: &str, v: &Option<String>)
    ensures
        jv_entries(final(fields)@) == jv_entries(old(fields)@) + opt_str_field(key@, *v),
{
    proof {
        lemma_jv_entries(fields@);
    }
    let ghost before = jv_entries(fields@);
    if let Some(s) = v {
        fields.push((key.to_string(), JsonValue::Str(s.clone())));
        proof {
            lemma_jv_entries(fields@);
            assert(jv_entries(fields@) =~= before + opt_str_field(key@, *v));
        }
    } else {
        assert(jv_entries(fields@) =~= before + opt_str_field(key@, *v));
    }
}

fn push_opt_bool(fields: &mut Vec<(String, JsonValue)>, key: &str, v: Option<bool>)
    ensures
        jv_entries(final(fields)@) == jv_entries(old(fields)@) + opt_bool_field(key@, v),
{
    proof {
        lemma_jv_entries(fields@);
    }
    let ghost before = jv_entries(fields@);
    if let Some(b) = v {
        fields.push((key.to_string(), JsonValue::Bool(b)));
        proof {
            lemma_jv_entries(fields@);
            assert(jv_entries(fields@) =~= before + opt_bool_field(key@, v));
        }
    } else {
        assert(jv_entries(fields@) =~= before + opt_bool_field(key@, v));
    }
}

fn push_field(fields: &mut Vec<(String, JsonValue)>, key: &str, value: JsonValue)
    ensures
        jv_entries(final(fields)@) == jv_entries(old(fields)@).push((key@, value@)),
{
    proof {
        lemma_jv_entries(fields@);
    }
    let ghost before = jv_entries(fields@);
    fields.push((key.to_string(), value));
    proof {
        lemma_jv_entries(fields@);
        assert(jv_entries(fields@) =~= before.push((key@, value@)));
    }
}

/// The incident's description, when it has one.
fn description(request: &IncidentRequest) -> (r: Option<String>)
    ensures
        match r {
            Some(d) => description_text(*request) == Some(d@),
            None => description_text(*request) is None,
        },
{
    match &request.description {
        Some(d) => Some(d.clone()),
        None => match &request.event {
            Some(event) => {
                let mut text = "A global webhook event triggered this incident.\n\n".to_string();
                let rendered = event.render_pretty();
                push_str(&mut text, rendered.as_str());
                Some(text)
            },
            None => None,
        },
    }
}

fn push_head(fields: &mut Vec<(String, JsonValue)>, request: &IncidentRequest)
    ensures
        jv_entries(final(fields)@) == jv_entries(old(fields)@) + head_fields(*request),
{
    let ghost start = jv_entries(fields@);
    push_opt_str(fields, "team_name", &request.team_name);
    push_opt_str(fields, "requester_email", &request.requester_email);
    let name = match &request.name {
        Some(n) => n.clone(),
        None => "redbutton-demo webhook incident".to_string(),
    };
    push_field(fields, "name", JsonValue::Str(name));
    let summary = match &request.summary {
        Some(s) => s.clone(),
        None => "A webhook event triggered redbutton-demo.".to_string(),
    };
    push_field(fields, "summary", JsonValue::Str(summary));
    let desc = description(request);
    push_opt_str(fields, "description", &desc);
    proof {
        assert(jv_entries(fields@) =~= start + head_fields(*request));
    }
}

fn push_alerts(fields: &mut Vec<(String, JsonValue)>, request: &IncidentRequest)
    ensures
        jv_entries(final(fields)@) == jv_entries(old(fields)@) + alert_fields(*request),
{
    let ghost start = jv_entries(fields@);
    push_opt_bool(fields, "call", request.call);
    push_opt_bool(fields, "sms", request.sms);
    push_opt_bool(fields, "email", request.email);
    push_opt_bool(fields, "critical_alert", request.critical_alert);
    proof {
        assert(jv_entries(fields@) =~= start + alert_fields(*request));
    }
}

fn push_policy(fields: &mut Vec<(String, JsonValue)>, request: &IncidentRequest)
    ensures
        jv_entries(final(fields)@) == jv_entries(old(fields)@) + policy_fields(*request),
{
    let ghost start = jv_entries(fields@);
    if let Some(w) = request.team_wait {
        push_field(fields, "team_wait", JsonValue::Number(i64_to_decimal(w)));
    }
    let ghost mid = jv_entries(fields@);
    push_opt_str(fields, "policy_id", &request.policy_id);
    let ghost mid2 = jv_entries(fields@);
    if let Some(m) = &request.metadata {
        push_field(fields, "metadata", deep_clone(m));
    }
    proof {
        assert(jv_entries(fields@) =~= start + policy_fields(*request));
    }
}

/// The JSON body of the incident: the given fields, with a default name and
/// summary, and a description made from the event when none is given.
pub fn build_incident_body(request: &IncidentRequest) -> (r: JsonValue)
    ensures
        r@ == Json::Object(insert_entries(Seq::empty(), incident_fields(*request))),
        entries_map(r@->Object_0) == insert_all(Map::empty(), incident_fields(*request)),
        json_get(r@, "call"@) == bool_member(request.call),
        json_get(r@, "sms"@) == bool_member(request.sms),
        json_get(r@, "email"@) == bool_member(request.email),
        json_get(r@, "critical_alert"@) == bool_member(request.critical_alert),
        json_get(r@, "name"@) == Some(
            Json::Str(
                match request.name {
                    Some(n) => n@,
                    None => "redbutton-demo webhook incident"@,
                },
            ),
        ),
        json_get(r@, "summary"@) == Some(
            Json::Str(
                match request.summary {
                    Some(n) => n@,
                    None => "A webhook event triggered redbutton-demo."@,
                },
            ),
        ),
{
    proof {
        lemma_alert_flags_keep_their_names(*request);
        lemma_name_and_summary_defaults(*request);
    }
    let mut fields: Vec<(String, JsonValue)> = Vec::new();
    proof {
        assert(jv_entries(fields@) =~= Seq::<(Seq<char>, Json)>::empty());
    }
    push_head(&mut fields, request);
    push_alerts(&mut fields, request);
    push_policy(&mut fields, request);
    proof {
        assert(jv_entries(fields@) =~= incident_fields(*request));
    }
    let source = JsonValue::Object(fields);
    let mut body: Vec<(String, JsonValue)> = Vec::new();
    proof {
        assert(jv_entries(body@) =~= Seq::<(Seq<char>, Json)>::empty());
        assert(entries_map(Seq::<(Seq<char>, Json)>::empty()) =~= Map::empty());
    }
    insert_members(&mut body, &source);
    JsonValue::Object(body)
}

/// The request that raises an incident: method, URL, headers and body bytes.
#[derive(Debug, Clone, PartialEq, Eq)]
pub struct IncidentCall {
    pub method: String,
    pub url: String,
    pub headers: Vec<(String, String)>,
    pub body: Vec<u8>,
}

/// What the component reports of a raised incident.
#[derive(Debug, PartialEq)]
pub struct IncidentOutput {
    pub ok: bool,
    pub status: u16,
    pub incident_id: Option<String>,
    pub response: JsonValue,
}

/// The call that raises the incident of `request`, authorized with `token`.
pub fn incident_call(token: &str, request: &IncidentRequest) -> (r: IncidentCall)
    ensures
        r.method@ == "POST"@,
        r.url@ == BETTERSTACK_INCIDENTS_URL@,
        r.headers@.len() == 2,
        r.headers@[0].0@ == "authorization"@,
        r.headers@[0].1@ == "Bearer "@ + token@,
        r.headers@[1].0@ == "content-type"@,
        r.headers@[1].1@ == "application/json"@,
        r.body@ == vstd::utf8::encode_utf8(
            render(Json::Object(insert_entries(Seq::empty(), incident_fields(*request)))),
        ),
{
    let body = build_incident_body(request);
    let text = body.render();
    let mut bearer = "Bearer ".to_string();
    push_str(&mut bearer, token);
    IncidentCall {
        method: "POST".to_string(),
        url: BETTERSTACK_INCIDENTS_URL.to_string(),
        headers: vec![
            ("authorization".to_string(), bearer),
            ("content-type".to_string(), "application/json".to_string()),
        ],
        body: vstd::slice::slice_to_vec(text.as_str().as_bytes()),
    }
}

/// The `data.id` string of a response, the id of the incident raised.
pub open spec fn response_incident_id(response: Json) -> Option<Seq<char>> {
    match crate::json::json_get(response, "data"@) {
        Some(data) => crate::json::json_get_str(data, "id"@),
        None => None,
    }
}

/// What the component reports of a response with `status` and parsed `response`.
pub fn incident_output(status: u16, response: JsonValue) -> (r: IncidentOutput)
    ensures
        r.ok == (200 <= status < 300),
        r.status == status,
        match r.incident_id {
            Some(id) => response_incident_id(response@) == Some(id@),
            None => response_incident_id(response@) is None,
        },
        r.response == response,
{
    let incident_id = match response.get("data") {
        Some(data) => match data.get_str("id") {
            Some(id) => Some(id.clone()),
            None => None,
        },
        None => None,
    };
    IncidentOutput { ok: 200 <= status && status < 300, status, incident_id, response }
}

/// The descriptor that the component reports as JSON text.
pub fn describe_payload() -> (r: String)
    ensures
        r@ == render(descriptor_json(COMPONENT_NAME@)),
{
    describe_payload_for(COMPONENT_NAME)
}

/// Echoes an operation and its trimmed input, prefixed with the component's name.
pub fn handle_message(operation: &str, input: &str) -> (r: String)
    ensures
        r@ == handled_message(COMPONENT_NAME@, operation@, input@),
{
    handle_message_for(COMPONENT_NAME, operation, input)
}

/// A flag as the body holds it: the boolean, or no member.
pub open spec fn bool_member(v: Option<bool>) -> Option<Json> {
    match v {
        Some(b) => Some(Json::Bool(b)),
        None => None,
    }
}

proof fn lemma_single_last(key: Seq<char>, val: Json, k: Seq<char>)
    ensures
        last_value(seq![(key, val)], k) == if key == k {
            Some(val)
        } else {
            None::<Json>
        },
{
    assert(seq![(key, val)].drop_last() =~= Seq::<(Seq<char>, Json)>::empty());
    assert(seq![(key, val)].last() == (key, val));
    assert(last_value(Seq::<(Seq<char>, Json)>::empty(), k) is None);
}

proof fn lemma_opt_str_last(key: Seq<char>, v: Option<String>, k: Seq<char>)
    requires
        key != k,
    ensures
        last_value(opt_str_field(key, v), k) is None,
{
    if let Some(t) = v {
        lemma_single_last(key, Json::Str(t@), k);
    }
}

proof fn lemma_opt_bool_last(key: Seq<char>, v: Option<bool>, k: Seq<char>)
    ensures
        last_value(opt_bool_field(key, v), k) == if key == k {
            bool_member(v)
        } else {
            None::<Json>
        },
{
    if let Some(b) = v {
        lemma_single_last(key, Json::Bool(b), k);
    }
}

/// No member of the head or the policy part of the body has the key `k`.
proof fn lemma_head_and_policy_lack(request: IncidentRequest, k: Seq<char>)
    requires
        k != "team_name"@,
        k != "requester_email"@,
        k != "name"@,
        k != "summary"@,
        k != "description"@,
        k != "team_wait"@,
        k != "policy_id"@,
        k != "metadata"@,
    ensures
        last_value(head_fields(request), k) is None,
        last_value(policy_fields(request), k) is None,
{
    let a = opt_str_field("team_name"@, request.team_name);
    let b = opt_str_field("requester_email"@, request.requester_email);
    let n = seq![
        ("name"@, Json::Str(
            match request.name {
                Some(x) => x@,
                None => default_name(),
            },
        )),
        ("summary"@, Json::Str(
            match request.summary {
                Some(x) => x@,
                None => default_summary(),
            },
        )),
    ];
    let d: Seq<(Seq<char>, Json)> = match description_text(request) {
        Some(t) => seq![("description"@, Json::Str(t))],
        None => Seq::empty(),
    };
    lemma_opt_str_last("team_name"@, request.team_name, k);
    lemma_opt_str_last("requester_email"@, request.requester_email, k);
    lemma_last_value_concat(a, b, k);
    assert(n.drop_last() =~= seq![n[0]]);
    lemma_single_last(n[0].0, n[0].1, k);
    lemma_last_value_concat(a + b, n, k);
    if let Some(t) = description_text(request) {
        lemma_single_last("description"@, Json::Str(t), k);
    }
    lemma_last_value_concat(a + b + n, d, k);
    assert(head_fields(request) == a + b + n + d);
    let w: Seq<(Seq<char>, Json)> = match request.team_wait {
        Some(x) => seq![("team_wait"@, Json::Number(signed_decimal(x as int)))],
        None => Seq::empty(),
    };
    let pi = opt_str_field("policy_id"@, request.policy_id);
    let m: Seq<(Seq<char>, Json)> = match request.metadata {
        Some(x) => seq![("metadata"@, x@)],
        None => Seq::empty(),
    };
    if let Some(x) = request.team_wait {
        lemma_single_last("team_wait"@, Json::Number(signed_decimal(x as int)), k);
    }
    lemma_opt_str_last("policy_id"@, request.policy_id, k);
    if let Some(x) = request.metadata {
        lemma_single_last("metadata"@, x@, k);
    }
    lemma_last_value_concat(w, pi, k);
    lemma_last_value_concat(w + pi, m, k);
    assert(policy_fields(request) == w + pi + m);
}

/// What the body holds under `k` is the last alert member for `k`.
proof fn lemma_body_member_from_alerts(request: IncidentRequest, k: Seq<char>)
    requires
        k != "team_name"@,
        k != "requester_email"@,
        k != "name"@,
        k != "summary"@,
        k != "description"@,
        k != "team_wait"@,
        k != "policy_id"@,
        k != "metadata"@,
    ensures
        json_get(Json::Object(insert_entries(Seq::empty(), incident_fields(request))), k) == last_value(
            alert_fields(request),
            k,
        ),
{
    lemma_head_and_policy_lack(request, k);
    lemma_last_value_concat(head_fields(request), alert_fields(request), k);
    lemma_last_value_concat(head_fields(request) + alert_fields(request), policy_fields(request), k);
    lemma_insert_entries_get(Seq::empty(), incident_fields(request), k);
}

/// The incident body carries each alert flag of the request under that flag's
/// own name, `call`, `sms`, `email` and `critical_alert`, and no member of that
/// name where the request leaves the flag out.
pub proof fn lemma_alert_flags_keep_their_names(request: IncidentRequest)
    ensures
        ({
            let body = Json::Object(insert_entries(Seq::empty(), incident_fields(request)));
            &&& json_get(body, "call"@) == bool_member(request.call)
            &&& json_get(body, "sms"@) == bool_member(request.sms)
            &&& json_get(body, "email"@) == bool_member(request.email)
            &&& json_get(body, "critical_alert"@) == bool_member(request.critical_alert)
        }),
{
    reveal_strlit("call");
    reveal_strlit("sms");
    reveal_strlit("email");
    reveal_strlit("critical_alert");
    reveal_strlit("team_name");
    reveal_strlit("requester_email");
    reveal_strlit("name");
    reveal_strlit("summary");
    reveal_strlit("description");
    reveal_strlit("team_wait");
    reveal_strlit("policy_id");
    reveal_strlit("metadata");
    assert("call"@.len() == 4 && "sms"@.len() == 3 && "email"@.len() == 5 && "critical_alert"@.len() == 14);
    assert("team_name"@.len() == 9 && "requester_email"@.len() == 15 && "name"@.len() == 4);
    assert("summary"@.len() == 7 && "description"@.len() == 11 && "team_wait"@.len() == 9);
    assert("policy_id"@.len() == 9 && "metadata"@.len() == 8);
    assert("call"@[0] != "name"@[0]);
    let c = opt_bool_field("call"@, request.call);
    let sm = opt_bool_field("sms"@, request.sms);
    let em = opt_bool_field("email"@, request.email);
    let cr = opt_bool_field("critical_alert"@, request.critical_alert);
    assert(alert_fields(request) == c + sm + em + cr);
    lemma_body_member_from_alerts(request, "call"@);
    lemma_body_member_from_alerts(request, "sms"@);
    lemma_body_member_from_alerts(request, "email"@);
    lemma_body_member_from_alerts(request, "critical_alert"@);
    lemma_alert_last(request, "call"@);
    lemma_alert_last(request, "sms"@);
    lemma_alert_last(request, "email"@);
    lemma_alert_last(request, "critical_alert"@);
}

/// The last alert member for `k`, in terms of each flag.
proof fn lemma_alert_last(request: IncidentRequest, k: Seq<char>)
    ensures
        last_value(alert_fields(request), k) == if k == "critical_alert"@ {
            bool_member(request.critical_alert)
        } else if k == "email"@ {
            bool_member(request.email)
        } else if k == "sms"@ {
            bool_member(request.sms)
        } else if k == "call"@ {
            bool_member(request.call)
        } else {
            None::<Json>
        },
{
    reveal_strlit("call");
    reveal_strlit("sms");
    reveal_strlit("email");
    reveal_strlit("critical_alert");
    assert("call"@.len() == 4 && "sms"@.len() == 3 && "email"@.len() == 5 && "critical_alert"@.len() == 14);
    let c = opt_bool_field("call"@, request.call);
    let sm = opt_bool_field("sms"@, request.sms);
    let em = opt_bool_field("email"@, request.email);
    let cr = opt_bool_field("critical_alert"@, request.critical_alert);
    assert(alert_fields(request) == c + sm + em + cr);
    lemma_opt_bool_last("call"@, request.call, k);
    lemma_opt_bool_last("sms"@, request.sms, k);
    lemma_opt_bool_last("email"@, request.email, k);
    lemma_opt_bool_last("critical_alert"@, request.critical_alert, k);
    lemma_last_value_concat(c, sm, k);
    lemma_last_value_concat(c + sm, em, k);
    lemma_last_value_concat(c + sm + em, cr, k);
}

/// The incident body is named and summarised by the request, or by default
/// `redbutton-demo webhook incident` and `A webhook event triggered redbutton-demo.`.
pub proof fn lemma_name_and_summary_defaults(request: IncidentRequest)
    ensures
        ({
            let body = Json::Object(insert_entries(Seq::empty(), incident_fields(request)));
            &&& json_get(body, "name"@) == Some(
                Json::Str(
                    match request.name {
                        Some(n) => n@,
                        None => "redbutton-demo webhook incident"@,
                    },
                ),
            )
            &&& json_get(body, "summary"@) == Some(
                Json::Str(
                    match request.summary {
                        Some(n) => n@,
                        None => "A webhook event triggered redbutton-demo."@,
                    },
                ),
            )
        }),
{
    reveal_strlit("call");
    reveal_strlit("sms");
    reveal_strlit("email");
    reveal_strlit("critical_alert");
    reveal_strlit("team_name");
    reveal_strlit("requester_email");
    reveal_strlit("name");
    reveal_strlit("summary");
    reveal_strlit("description");
    reveal_strlit("team_wait");
    reveal_strlit("policy_id");
    reveal_strlit("metadata");
    assert("call"@.len() == 4 && "sms"@.len() == 3 && "email"@.len() == 5 && "critical_alert"@.len() == 14);
    assert("team_name"@.len() == 9 && "requester_email"@.len() == 15 && "name"@.len() == 4);
    assert("summary"@.len() == 7 && "description"@.len() == 11 && "team_wait"@.len() == 9);
    assert("policy_id"@.len() == 9 && "metadata"@.len() == 8);
    assert("call"@[0] != "name"@[0]);
    let keys = seq!["name"@, "summary"@];
    assert forall|j: int| 0 <= j < 2 implies #[trigger] json_get(
        Json::Object(insert_entries(Seq::empty(), incident_fields(request))),
        keys[j],
    ) == last_value(head_fields(request), keys[j]) by {
        let k = keys[j];
        lemma_alert_last(request, k);
        let w: Seq<(Seq<char>, Json)> = match request.team_wait {
            Some(x) => seq![("team_wait"@, Json::Number(signed_decimal(x as int)))],
            None => Seq::empty(),
        };
        let pi = opt_str_field("policy_id"@, request.policy_id);
        let m: Seq<(Seq<char>, Json)> = match request.metadata {
            Some(x) => seq![("metadata"@, x@)],
            None => Seq::empty(),
        };
        if let Some(x) = request.team_wait {
            lemma_single_last("team_wait"@, Json::Number(signed_decimal(x as int)), k);
        }
        lemma_opt_str_last("policy_id"@, request.policy_id, k);
        if let Some(x) = request.metadata {
            lemma_single_last("metadata"@, x@, k);
        }
        lemma_last_value_concat(w, pi, k);
        lemma_last_value_concat(w + pi, m, k);
        assert(policy_fields(request) == w + pi + m);
        lemma_last_value_concat(head_fields(request), alert_fields(request), k);
        lemma_last_value_concat(head_fields(request) + alert_fields(request), policy_fields(request), k);
        lemma_insert_entries_get(Seq::empty(), incident_fields(request), k);
    }
    let a = opt_str_field("team_name"@, request.team_name);
    let b = opt_str_field("requester_email"@, request.requester_email);
    let nv = Json::Str(
        match request.name {
            Some(x) => x@,
            None => default_name(),
        },
    );
    let sv = Json::Str(
        match request.summary {
            Some(x) => x@,
            None => default_summary(),
        },
    );
    let n = seq![("name"@, nv), ("summary"@, sv)];
    let d: Seq<(Seq<char>, Json)> = match description_text(request) {
        Some(t) => seq![("description"@, Json::Str(t))],
        None => Seq::empty(),
    };
    assert(head_fields(request) == a + b + n + d);
    assert forall|j: int| 0 <= j < 2 implies #[trigger] last_value(head_fields(request), keys[j]) == Some(
        if j == 0 {
            nv
        } else {
            sv
        },
    ) by {
        let k = keys[j];
        if let Some(t) = description_text(request) {
            lemma_single_last("description"@, Json::Str(t), k);
        }
        lemma_last_value_concat(a + b + n, d, k);
        lemma_last_value_concat(a + b, n, k);
        assert(n.drop_last() =~= seq![("name"@, nv)]);
        assert(n.last() == ("summary"@, sv));
        lemma_single_last("name"@, nv, k);
    }
    assert(keys[0] == "name"@ && keys[1] == "summary"@);
}

} // verus!
