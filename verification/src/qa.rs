//! Setup, update and removal questions of a component, and how answers become its config.
use vstd::prelude::*;

use crate::i18n::{all_i18n_keys, all_keys, string_views};
use crate::json_order::{lemma_insert_entries_idempotent, lemma_insert_entries_sorted, sorted_entries};
use crate::json::{insert_entries, 
    entries_map, insert_all, str_eq, insert_members, json_get, json_get_str, jv_entries,
    lemma_jv_entries, object_entries, Json, JsonValue,
};

verus! {

broadcast use vstd::string::group_string_axioms;

/// The lifecycle step that QA questions are asked for.
#[derive(Debug, Clone, Copy, PartialEq, Eq, Structural)]
pub enum NormalizedMode {
    Setup,
    Update,
    Remove,
}

/// The name of a mode.
pub open spec fn mode_name(mode: NormalizedMode) -> Seq<char> {
    match mode {
        NormalizedMode::Setup => "setup"@,
        NormalizedMode::Update => "update"@,
        NormalizedMode::Remove => "remove"@,
    }
}

/// The mode that a raw mode name stands for.
pub open spec fn mode_of(raw: Seq<char>) -> Option<NormalizedMode> {
    if raw == "default"@ || raw == "setup"@ || raw == "install"@ {
        Some(NormalizedMode::Setup)
    } else if raw == "update"@ || raw == "upgrade"@ {
        Some(NormalizedMode::Update)
    } else if raw == "remove"@ {
        Some(NormalizedMode::Remove)
    } else {
        None
    }
}

impl NormalizedMode {
    /// The name of the mode.
    pub fn as_str(self) -> (r: &'static str)
        ensures
            r@ == mode_name(self),
    {
        match self {
            NormalizedMode::Setup => "setup",
            NormalizedMode::Update => "update",
            NormalizedMode::Remove => "remove",
        }
    }
}

/// The mode that a raw mode name stands for; `default` and `install` mean setup,
/// `upgrade` means update.
pub fn normalize_mode(raw: &str) -> (r: Option<NormalizedMode>)
    ensures
        r == mode_of(raw@),
{
    if str_eq(raw, "default") || str_eq(raw, "setup") || str_eq(raw, "install") {
        Some(NormalizedMode::Setup)
    } else if str_eq(raw, "update") || str_eq(raw, "upgrade") {
        Some(NormalizedMode::Update)
    } else if str_eq(raw, "remove") {
        Some(NormalizedMode::Remove)
    } else {
        None
    }
}

/// A mode's name normalizes back to the mode.
pub proof fn lemma_mode_name_round_trip(mode: NormalizedMode)
    ensures
        mode_of(mode_name(mode)) == Some(mode),
{
    reveal_strlit("setup");
    reveal_strlit("update");
    reveal_strlit("remove");
    reveal_strlit("default");
    reveal_strlit("install");
    reveal_strlit("upgrade");
    assert("setup"@.len() == 5 && "default"@.len() == 7 && "install"@.len() == 7);
    assert("update"@.len() == 6 && "upgrade"@.len() == 7 && "remove"@.len() == 6);
    assert("update"@ != "remove"@) by {
        assert("update"@[0] != "remove"@[0]);
    }
}

/// One question that the QA flow asks.
#[derive(Debug, Clone, PartialEq, Eq)]
pub struct QaQuestion {
    pub id: String,
    pub label_key: String,
    pub help_key: String,
    pub required: bool,
}

/// The questions of one mode, with the i18n keys of their texts. Every question is a
/// text question without default, error text or skip condition.
#[derive(Debug, Clone, PartialEq, Eq)]
pub struct QaSpec {
    pub mode: NormalizedMode,
    pub title_key: String,
    pub description_key: Option<String>,
    pub questions: Vec<QaQuestion>,
}

pub open spec fn title_key(mode: NormalizedMode) -> Seq<char> {
    match mode {
        NormalizedMode::Setup => "qa.install.title"@,
        NormalizedMode::Update => "qa.update.title"@,
        NormalizedMode::Remove => "qa.remove.title"@,
    }
}

pub open spec fn description_key(mode: NormalizedMode) -> Seq<char> {
    match mode {
        NormalizedMode::Setup => "qa.install.description"@,
        NormalizedMode::Update => "qa.update.description"@,
        NormalizedMode::Remove => "qa.remove.description"@,
    }
}

/// The id, label key, help key and requiredness of the question asked in a mode.
pub open spec fn question_of(mode: NormalizedMode) -> (Seq<char>, Seq<char>, Seq<char>, bool) {
    match mode {
        NormalizedMode::Remove => (
            "confirm_remove"@,
            "qa.field.confirm_remove.label"@,
            "qa.field.confirm_remove.help"@,
            true,
        ),
        _ => ("query_hint"@, "qa.field.query_hint.label"@, "qa.field.query_hint.help"@, false),
    }
}

pub open spec fn question_view(q: QaQuestion) -> (Seq<char>, Seq<char>, Seq<char>, bool) {
    (q.id@, q.label_key@, q.help_key@, q.required)
}

fn question(id: &str, label_key: &str, help_key: &str, required: bool) -> (q: QaQuestion)
    ensures
        question_view(q) == (id@, label_key@, help_key@, required),
{
    QaQuestion {
        id: id.to_string(),
        label_key: label_key.to_string(),
        help_key: help_key.to_string(),
        required,
    }
}

/// The QA questions of a mode: setup and update ask for a query hint, removal
/// asks for a required confirmation.
pub fn qa_spec(mode: NormalizedMode) -> (r: QaSpec)
    ensures
        r.mode == mode,
        r.title_key@ == title_key(mode),
        r.description_key matches Some(d) && d@ == description_key(mode),
        r.questions@.len() == 1,
        question_view(r.questions@[0]) == question_of(mode),
{
    let (title, description, q) = match mode {
        NormalizedMode::Setup => (
            "qa.install.title",
            "qa.install.description",
            question(
                "query_hint",
                "qa.field.query_hint.label",
                "qa.field.query_hint.help",
                false,
            ),
        ),
        NormalizedMode::Update => (
            "qa.update.title",
            "qa.update.description",
            question(
                "query_hint",
                "qa.field.query_hint.label",
                "qa.field.query_hint.help",
                false,
            ),
        ),
        NormalizedMode::Remove => (
            "qa.remove.title",
            "qa.remove.description",
            question(
                "confirm_remove",
                "qa.field.confirm_remove.label",
                "qa.field.confirm_remove.help",
                true,
            ),
        ),
    };
    QaSpec {
        mode,
        title_key: title.to_string(),
        description_key: Some(description.to_string()),
        questions: vec![q],
    }
}

/// Every i18n key that the QA flow refers to.
pub fn i18n_keys() -> (r: Vec<String>)
    ensures
        string_views(r@) == all_i18n_keys(),
{
    all_keys()
}

/// Every text that the questions of a mode refer to has an i18n key in the list.
pub proof fn lemma_qa_keys_are_listed(mode: NormalizedMode)
    ensures
        all_i18n_keys().contains(title_key(mode)),
        all_i18n_keys().contains(description_key(mode)),
        all_i18n_keys().contains(question_of(mode).1),
        all_i18n_keys().contains(question_of(mode).2),
        all_i18n_keys().contains(remove_confirmation_key()),
{
    let keys = all_i18n_keys();
    match mode {
        NormalizedMode::Setup => {
            assert(keys[0] == title_key(mode));
            assert(keys[1] == description_key(mode));
            assert(keys[6] == question_of(mode).1);
            assert(keys[7] == question_of(mode).2);
        },
        NormalizedMode::Update => {
            assert(keys[2] == title_key(mode));
            assert(keys[3] == description_key(mode));
            assert(keys[6] == question_of(mode).1);
            assert(keys[7] == question_of(mode).2);
        },
        NormalizedMode::Remove => {
            assert(keys[4] == title_key(mode));
            assert(keys[5] == description_key(mode));
            assert(keys[8] == question_of(mode).1);
            assert(keys[9] == question_of(mode).2);
        },
    }
    assert(keys[10] == remove_confirmation_key());
}

pub open spec fn remove_confirmation_key() -> Seq<char> {
    "qa.error.remove_confirmation"@
}

/// The `answers` object of a payload (an empty object when it has none).
pub open spec fn answers_of(payload: Json) -> Json {
    match json_get(payload, "answers"@) {
        Some(a) => a,
        None => Json::Object(Seq::empty()),
    }
}

/// The `current_config` of a payload (an empty object when it has none).
pub open spec fn current_config_of(payload: Json) -> Json {
    match json_get(payload, "current_config"@) {
        Some(c) => c,
        None => Json::Object(Seq::empty()),
    }
}

/// Whether answers refuse a removal: removal needs `confirm_remove` to be the string "true".
pub open spec fn removal_refused(mode: NormalizedMode, payload: Json) -> bool {
    mode == NormalizedMode::Remove && json_get_str(answers_of(payload), "confirm_remove"@)
        != Some("true"@)
}

/// The config that answers give: the current config (when it is an object) with
/// each answer set over it.
pub open spec fn merged_config(payload: Json) -> Map<Seq<char>, Json> {
    insert_all(
        entries_map(object_entries(current_config_of(payload))),
        object_entries(answers_of(payload)),
    )
}

pub open spec fn meta_json(mode: NormalizedMode) -> Json {
    Json::Object(seq![("mode"@, Json::Str(mode_name(mode))), ("version"@, Json::Str("v1"@))])
}

pub open spec fn empty_array() -> Json {
    Json::Array(Seq::empty())
}

pub open spec fn removal_error_json() -> Json {
    Json::Array(
        seq![
            Json::Object(
                seq![
                    ("fields"@, Json::Array(seq![Json::Str("confirm_remove"@)])),
                    ("key"@, Json::Str(remove_confirmation_key())),
                    ("msg_key"@, Json::Str(remove_confirmation_key())),
                ],
            ),
        ],
    )
}

/// The answer to a refused removal.
pub open spec fn refused_json(mode: NormalizedMode) -> Json {
    Json::Object(
        seq![
            ("errors"@, removal_error_json()),
            ("meta"@, meta_json(mode)),
            ("ok"@, Json::Bool(false)),
            ("warnings"@, empty_array()),
        ],
    )
}

/// The members of the config that answers give: the members of the current
/// config (when it is an object) with each answer set over them in turn.
pub open spec fn accepted_config(payload: Json) -> Seq<(Seq<char>, Json)> {
    insert_entries(object_entries(current_config_of(payload)), object_entries(answers_of(payload)))
}

/// The answer that accepts the answers with `config` as the resulting config.
pub open spec fn accepted_json(mode: NormalizedMode, config: Seq<(Seq<char>, Json)>) -> Json {
    Json::Object(
        seq![
            ("config"@, Json::Object(config)),
            ("errors"@, empty_array()),
            ("meta"@, meta_json(mode)),
            ("ok"@, Json::Bool(true)),
            ("warnings"@, empty_array()),
        ],
    )
}

/// The answer to a payload of answers in `mode`.
pub open spec fn answers_json(mode: NormalizedMode, payload: Json) -> Json {
    if removal_refused(mode, payload) {
        refused_json(mode)
    } else {
        accepted_json(mode, accepted_config(payload))
    }
}

/// Re-applying the same answers to the config they produced changes nothing:
/// the answer is the same document. The current config is a valid object, its
/// keys ascending with none twice, as a JSON reader builds it.
pub proof fn lemma_reapplying_answers(mode: NormalizedMode, first: Json, again: Json)
    requires
        !removal_refused(mode, first),
        sorted_entries(object_entries(current_config_of(first))),
        answers_of(again) == answers_of(first),
        current_config_of(again) == Json::Object(accepted_config(first)),
    ensures
        answers_json(mode, again) == answers_json(mode, first),
{
    lemma_insert_entries_idempotent(
        object_entries(current_config_of(first)),
        object_entries(answers_of(first)),
    );
}

fn meta(mode: NormalizedMode) -> (r: JsonValue)
    ensures
        r@ == meta_json(mode),
{
    let entries = vec![
        ("mode".to_string(), JsonValue::from_str(mode.as_str())),
        ("version".to_string(), JsonValue::from_str("v1")),
    ];
    proof {
        lemma_jv_entries(entries@);
        assert(jv_entries(entries@) =~= meta_json(mode)->Object_0);
    }
    JsonValue::Object(entries)
}

fn empty_array_value() -> (r: JsonValue)
    ensures
        r@ == empty_array(),
{
    let v: Vec<JsonValue> = Vec::new();
    proof {
        assert(crate::json::jv_items(v@) =~= Seq::<Json>::empty());
    }
    JsonValue::Array(v)
}

fn removal_error() -> (r: JsonValue)
    ensures
        r@ == removal_error_json(),
{
    let fields_items = vec![JsonValue::from_str("confirm_remove")];
    proof {
        crate::json::lemma_jv_items(fields_items@);
        assert(crate::json::jv_items(fields_items@) =~= seq![Json::Str("confirm_remove"@)]);
    }
    let entries = vec![
        ("fields".to_string(), JsonValue::Array(fields_items)),
        ("key".to_string(), JsonValue::from_str("qa.error.remove_confirmation")),
        ("msg_key".to_string(), JsonValue::from_str("qa.error.remove_confirmation")),
    ];
    proof {
        lemma_jv_entries(entries@);
        assert(jv_entries(entries@) =~= removal_error_json()->Array_0[0]->Object_0);
    }
    let items = vec![JsonValue::Object(entries)];
    proof {
        crate::json::lemma_jv_items(items@);
        assert(crate::json::jv_items(items@) =~= removal_error_json()->Array_0);
    }
    JsonValue::Array(items)
}

/// Applies QA answers: a removal without `confirm_remove` set to "true" is refused
/// with an error; otherwise the answers are set over the current config.
pub fn apply_answers(mode: NormalizedMode, payload: &JsonValue) -> (r: JsonValue)
    ensures
        r@ == answers_json(mode, payload@),
        !removal_refused(mode, payload@) ==> entries_map(accepted_config(payload@)) == merged_config(payload@),
        sorted_entries(object_entries(current_config_of(payload@))) ==> sorted_entries(
            accepted_config(payload@),
        ),
{
    proof {
        if sorted_entries(object_entries(current_config_of(payload@))) {
            lemma_insert_entries_sorted(
                object_entries(current_config_of(payload@)),
                object_entries(answers_of(payload@)),
            );
        }
    }
    let empty = JsonValue::empty_object();
    let answers = match payload.get("answers") {
        Some(a) => a,
        None => &empty,
    };
    let refused = mode == NormalizedMode::Remove && match answers.get_str("confirm_remove") {
        Some(v) => !crate::json::str_eq(v.as_str(), "true"),
        None => true,
    };
    if refused {
        let entries = vec![
            ("errors".to_string(), removal_error()),
            ("meta".to_string(), meta(mode)),
            ("ok".to_string(), JsonValue::Bool(false)),
            ("warnings".to_string(), empty_array_value()),
        ];
        proof {
            lemma_jv_entries(entries@);
            assert(jv_entries(entries@) =~= refused_json(mode)->Object_0);
        }
        return JsonValue::Object(entries);
    }
    let mut config: Vec<(String, JsonValue)> = match payload.get("current_config") {
        Some(c) => match crate::json::deep_clone(c) {
            JsonValue::Object(e) => e,
            _ => Vec::new(),
        },
        None => Vec::new(),
    };
    proof {
        if config@.len() == 0 {
            assert(jv_entries(config@) =~= Seq::<(Seq<char>, Json)>::empty());
        }
        assert(entries_map(jv_entries(config@)) =~= entries_map(
            object_entries(current_config_of(payload@)),
        ));
    }
    let ghost start = jv_entries(config@);
    insert_members(&mut config, answers);
    proof {
        assert(start == object_entries(current_config_of(payload@)));
        assert(answers@ == answers_of(payload@));
    }
    let entries = vec![
        ("config".to_string(), JsonValue::Object(config)),
        ("errors".to_string(), empty_array_value()),
        ("meta".to_string(), meta(mode)),
        ("ok".to_string(), JsonValue::Bool(true)),
        ("warnings".to_string(), empty_array_value()),
    ];
    proof {
        lemma_jv_entries(entries@);
        assert(jv_entries(entries@) =~= accepted_json(mode, accepted_config(payload@))->Object_0);
    }
    JsonValue::Object(entries)
}

} // verus!
