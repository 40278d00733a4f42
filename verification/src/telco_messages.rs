//! How the Telco-X presentation component turns an adaptive card into chat
//! messages: one message for the whole card, or one per body section, each
//! section ending with a button back to the main menu.
use vstd::prelude::*;

use crate::json::{
    deep_clone, entries_insert, insert_entry, json_get, json_get_str, jv, jv_entries, jv_items,
    lemma_jv_entries, lemma_jv_items, Json, JsonValue,
};

verus! {

broadcast use vstd::string::group_string_axioms;

/// The button that leads back to the main menu.
pub open spec fn menu_action_json() -> Json {
    Json::Object(
        seq![
            ("data"@, Json::Object(seq![("step"@, Json::Str(""@)), ("text"@, Json::Str(""@))])),
            ("style"@, Json::Str("destructive"@)),
            ("title"@, Json::Str("← Menu"@)),
            ("type"@, Json::Str("Action.Submit"@)),
        ],
    )
}

/// The action set with the button back to the main menu, members in ascending key order.
pub open spec fn main_menu_json() -> Json {
    Json::Object(
        seq![
            ("actions"@, Json::Array(seq![menu_action_json()])),
            ("spacing"@, Json::Str("Medium"@)),
            ("type"@, Json::Str("ActionSet"@)),
        ],
    )
}

fn menu_action() -> (r: JsonValue)
    ensures
        r@ == menu_action_json(),
{
    let data: Vec<(String, JsonValue)> = vec![
        ("step".to_string(), JsonValue::from_str("")),
        ("text".to_string(), JsonValue::from_str("")),
    ];
    proof {
        lemma_jv_entries(data@);
        assert(jv_entries(data@) =~= seq![("step"@, Json::Str(""@)), ("text"@, Json::Str(""@))]);
    }
    let entries: Vec<(String, JsonValue)> = vec![
        ("data".to_string(), JsonValue::Object(data)),
        ("style".to_string(), JsonValue::from_str("destructive")),
        ("title".to_string(), JsonValue::from_str("← Menu")),
        ("type".to_string(), JsonValue::from_str("Action.Submit")),
    ];
    proof {
        lemma_jv_entries(entries@);
        assert(jv_entries(entries@) =~= menu_action_json()->Object_0);
    }
    JsonValue::Object(entries)
}

/// The action set with the button back to the main menu.
pub fn main_menu_action_set() -> (r: JsonValue)
    ensures
        r@ == main_menu_json(),
{
    let actions: Vec<JsonValue> = vec![menu_action()];
    proof {
        lemma_jv_items(actions@);
        assert(jv_items(actions@) =~= seq![menu_action_json()]);
    }
    let entries: Vec<(String, JsonValue)> = vec![
        ("actions".to_string(), JsonValue::Array(actions)),
        ("spacing".to_string(), JsonValue::from_str("Medium")),
        ("type".to_string(), JsonValue::from_str("ActionSet")),
    ];
    proof {
        lemma_jv_entries(entries@);
        assert(jv_entries(entries@) =~= main_menu_json()->Object_0);
    }
    JsonValue::Object(entries)
}

/// A card with a title and a line of text, shown when nothing else can be.
pub open spec fn fallback_card_json(title: Seq<char>, text: Seq<char>) -> Json {
    Json::Object(
        seq![
            ("$schema"@, Json::Str("http://adaptivecards.io/schemas/adaptive-card.json"@)),
            (
                "body"@,
                Json::Array(
                    seq![
                        Json::Object(
                            seq![
                                ("size"@, Json::Str("Medium"@)),
                                ("text"@, Json::Str(title)),
                                ("type"@, Json::Str("TextBlock"@)),
                                ("weight"@, Json::Str("Bolder"@)),
                            ],
                        ),
                        Json::Object(
                            seq![
                                ("text"@, Json::Str(text)),
                                ("type"@, Json::Str("TextBlock"@)),
                                ("wrap"@, Json::Bool(true)),
                            ],
                        ),
                    ],
                ),
            ),
            ("type"@, Json::Str("AdaptiveCard"@)),
            ("version"@, Json::Str("1.5"@)),
        ],
    )
}

fn title_block(title: &str) -> (r: JsonValue)
    ensures
        r@ == fallback_card_json(title@, Seq::empty())->Object_0[1].1->Array_0[0],
{
    let entries: Vec<(String, JsonValue)> = vec![
        ("size".to_string(), JsonValue::from_str("Medium")),
        ("text".to_string(), JsonValue::from_str(title)),
        ("type".to_string(), JsonValue::from_str("TextBlock")),
        ("weight".to_string(), JsonValue::from_str("Bolder")),
    ];
    proof {
        lemma_jv_entries(entries@);
        assert(jv_entries(entries@) =~= fallback_card_json(title@, Seq::empty())->Object_0[1].1->Array_0[0]->Object_0);
    }
    JsonValue::Object(entries)
}

fn text_block(text: &str) -> (r: JsonValue)
    ensures
        r@ == fallback_card_json(Seq::empty(), text@)->Object_0[1].1->Array_0[1],
{
    let entries: Vec<(String, JsonValue)> = vec![
        ("text".to_string(), JsonValue::from_str(text)),
        ("type".to_string(), JsonValue::from_str("TextBlock")),
        ("wrap".to_string(), JsonValue::Bool(true)),
    ];
    proof {
        lemma_jv_entries(entries@);
        assert(jv_entries(entries@) =~= fallback_card_json(Seq::empty(), text@)->Object_0[1].1->Array_0[1]->Object_0);
    }
    JsonValue::Object(entries)
}

/// A card with a title and a line of text.
pub fn fallback_card(title: &str, text: &str) -> (r: JsonValue)
    ensures
        r@ == fallback_card_json(title@, text@),
{
    let body: Vec<JsonValue> = vec![title_block(title), text_block(text)];
    proof {
        lemma_jv_items(body@);
        assert(jv_items(body@) =~= fallback_card_json(title@, text@)->Object_0[1].1->Array_0);
    }
    let entries: Vec<(String, JsonValue)> = vec![
        ("$schema".to_string(), JsonValue::from_str("http://adaptivecards.io/schemas/adaptive-card.json")),
        ("body".to_string(), JsonValue::Array(body)),
        ("type".to_string(), JsonValue::from_str("AdaptiveCard")),
        ("version".to_string(), JsonValue::from_str("1.5")),
    ];
    proof {
        lemma_jv_entries(entries@);
        assert(jv_entries(entries@) =~= fallback_card_json(title@, text@)->Object_0);
    }
    JsonValue::Object(entries)
}

/// Whether an action is the button back to the main menu.
pub open spec fn is_menu_action(a: Json) -> bool {
    json_get_str(a, "style"@) == Some("destructive"@) && json_get_str(a, "title"@) == Some(
        "← Menu"@,
    )
}

/// Whether one of the actions is the button back to the main menu.
pub open spec fn has_menu_action(actions: Seq<Json>) -> bool {
    exists|i: int| 0 <= i < actions.len() && is_menu_action(#[trigger] actions[i])
}

/// Whether an item of a section is an action set with the button back to the main menu.
pub open spec fn is_main_menu_set(item: Json) -> bool {
    &&& json_get_str(item, "type"@) == Some("ActionSet"@)
    &&& match json_get(item, "actions"@) {
        Some(Json::Array(actions)) => has_menu_action(actions),
        _ => false,
    }
}

/// Whether one of the items is an action set with the button back to the main menu.
pub open spec fn has_main_menu_set(items: Seq<Json>) -> bool {
    exists|i: int| 0 <= i < items.len() && is_main_menu_set(#[trigger] items[i])
}

/// The items of a section, where it has an array of them.
pub open spec fn section_items(section: Json) -> Option<Seq<Json>> {
    match json_get(section, "items"@) {
        Some(Json::Array(items)) => Some(items),
        _ => None,
    }
}

/// A section that is no container, wrapped in one with the main menu after it.
pub open spec fn menu_container(section: Json) -> Json {
    Json::Object(
        seq![
            ("items"@, Json::Array(seq![section, main_menu_json()])),
            ("spacing"@, Json::Str("Medium"@)),
            ("style"@, Json::Str("emphasis"@)),
            ("type"@, Json::Str("Container"@)),
        ],
    )
}

/// A section with the button back to the main menu: unchanged where it is no
/// object or already has that button, its items followed by the main menu
/// where it has items, and otherwise wrapped in a container with the menu.
pub open spec fn with_main_menu(section: Json) -> Json {
    match section {
        Json::Object(e) => match section_items(section) {
            Some(items) => if has_main_menu_set(items) {
                section
            } else {
                Json::Object(insert_entry(e, "items"@, Json::Array(items.push(main_menu_json()))))
            },
            None => menu_container(section),
        },
        _ => section,
    }
}

fn is_menu_action_exec(a: &JsonValue) -> (b: bool)
    ensures
        b == is_menu_action(a@),
{
    let style_ok = match a.get_str("style") {
        Some(s) => crate::json::str_eq(s.as_str(), "destructive"),
        None => false,
    };
    let title_ok = match a.get_str("title") {
        Some(s) => crate::json::str_eq(s.as_str(), "← Menu"),
        None => false,
    };
    style_ok && title_ok
}

fn is_main_menu_set_exec(item: &JsonValue) -> (b: bool)
    ensures
        b == is_main_menu_set(item@),
{
    let type_ok = match item.get_str("type") {
        Some(s) => crate::json::str_eq(s.as_str(), "ActionSet"),
        None => false,
    };
    if !type_ok {
        return false;
    }
    match item.get("actions") {
        Some(JsonValue::Array(actions)) => {
            proof {
                lemma_jv_items(actions@);
            }
            let ghost acts = jv_items(actions@);
            let mut i: usize = 0;
            while i < actions.len()
                invariant
                    json_get(item@, "actions"@) == Some(Json::Array(acts)),
                    json_get_str(item@, "type"@) == Some("ActionSet"@),
                    acts == jv_items(actions@),
                    acts.len() == actions@.len(),
                    forall|j: int| 0 <= j < actions@.len() ==> #[trigger] acts[j] == jv(actions@[j]),
                    i <= actions.len(),
                    forall|j: int| 0 <= j < i ==> !is_menu_action(#[trigger] acts[j]),
                decreases actions.len() - i,
            {
                if is_menu_action_exec(&actions[i]) {
                    proof {
                        assert(is_menu_action(acts[i as int]));
                        assert(0 <= i < acts.len() && is_menu_action(acts[i as int]));
                        assert(has_menu_action(acts));
                        assert(json_get_str(item@, "type"@) == Some("ActionSet"@));
                    }
                    return true;
                }
                i = i + 1;
            }
            false
        },
        _ => false,
    }
}

fn has_main_menu(items: &Vec<JsonValue>) -> (b: bool)
    ensures
        b == has_main_menu_set(jv_items(items@)),
{
    proof {
        lemma_jv_items(items@);
    }
    let ghost its = jv_items(items@);
    let mut i: usize = 0;
    while i < items.len()
        invariant
            its == jv_items(items@),
            its.len() == items@.len(),
            forall|j: int| 0 <= j < items@.len() ==> #[trigger] its[j] == jv(items@[j]),
            i <= items.len(),
            forall|j: int| 0 <= j < i ==> !is_main_menu_set(#[trigger] its[j]),
        decreases items.len() - i,
    {
        if is_main_menu_set_exec(&items[i]) {
            proof {
                assert(is_main_menu_set(its[i as int]));
            }
            return true;
        }
        i = i + 1;
    }
    false
}

fn wrap_in_menu_container(section: &JsonValue) -> (r: JsonValue)
    ensures
        r@ == menu_container(section@),
{
    let items: Vec<JsonValue> = vec![deep_clone(section), main_menu_action_set()];
    proof {
        lemma_jv_items(items@);
        assert(jv_items(items@) =~= seq![section@, main_menu_json()]);
    }
    let entries: Vec<(String, JsonValue)> = vec![
        ("items".to_string(), JsonValue::Array(items)),
        ("spacing".to_string(), JsonValue::from_str("Medium")),
        ("style".to_string(), JsonValue::from_str("emphasis")),
        ("type".to_string(), JsonValue::from_str("Container")),
    ];
    proof {
        lemma_jv_entries(entries@);
        assert(jv_entries(entries@) =~= menu_container(section@)->Object_0);
    }
    JsonValue::Object(entries)
}

/// The items of an array followed by the main menu.
fn items_with_menu(items: &JsonValue) -> (r: Vec<JsonValue>)
    requires
        items@ is Array,
    ensures
        jv_items(r@) == items@->Array_0.push(main_menu_json()),
{
    let copy = deep_clone(items);
    let mut out: Vec<JsonValue> = match copy {
        JsonValue::Array(v) => v,
        _ => Vec::new(),
    };
    let ghost before = out@;
    out.push(main_menu_action_set());
    proof {
        assert(out@.drop_last() =~= before);
    }
    out
}

/// A section with the button back to the main menu.
pub fn attach_main_menu_to_section(section: &JsonValue) -> (r: JsonValue)
    ensures
        r@ == with_main_menu(section@),
{
    match section {
        JsonValue::Object(entries) => {
            match section.get("items") {
                Some(items_value) => match items_value {
                    JsonValue::Array(items) => {
                        let ghost its = jv_items(items@);
                        proof {
                            assert(section_items(section@) == Some(its));
                        }
                        if has_main_menu(items) {
                            return deep_clone(section);
                        }
                        let new_items = items_with_menu(items_value);
                        let copy = deep_clone(section);
                        let mut updated: Vec<(String, JsonValue)> = match copy {
                            JsonValue::Object(e) => e,
                            _ => Vec::new(),
                        };
                        proof {
                            assert(jv_entries(updated@) == section@->Object_0);
                        }
                        entries_insert(&mut updated, "items".to_string(), JsonValue::Array(new_items));
                        proof {
                            assert(jv_items(new_items@) == its.push(main_menu_json()));
                        }
                        JsonValue::Object(updated)
                    },
                    _ => wrap_in_menu_container(section),
                },
                None => wrap_in_menu_container(section),
            }
        },
        _ => deep_clone(section),
    }
}

proof fn lemma_main_menu_is_menu_set()
    ensures
        is_main_menu_set(main_menu_json()),
{
    reveal_strlit("actions");
    reveal_strlit("spacing");
    reveal_strlit("type");
    reveal_strlit("data");
    reveal_strlit("style");
    reveal_strlit("title");
    assert("actions"@.len() == 7 && "spacing"@.len() == 7 && "type"@.len() == 4);
    assert("actions"@ != "type"@);
    assert("spacing"@ != "type"@);
    assert("data"@.len() == 4 && "style"@.len() == 5 && "title"@.len() == 5);
    assert("data"@ != "style"@);
    assert("data"@ != "title"@);
    assert("style"@[0] == 's' && "title"@[0] == 't');
    assert("style"@ != "title"@);
    let a = menu_action_json();
    crate::json::lemma_entries_get_index(a->Object_0, "style"@, 1);
    crate::json::lemma_entries_get_index(a->Object_0, "title"@, 2);
    assert(is_menu_action(a));
    let m = main_menu_json();
    crate::json::lemma_entries_get_index(m->Object_0, "type"@, 2);
    crate::json::lemma_entries_get_index(m->Object_0, "actions"@, 0);
    assert(main_menu_json()->Object_0[0].1 == Json::Array(seq![a]));
    assert(seq![a][0] == a);
    assert(has_menu_action(seq![a]));
}

proof fn lemma_menu_pushed(items: Seq<Json>)
    ensures
        has_main_menu_set(items.push(main_menu_json())),
{
    lemma_main_menu_is_menu_set();
    assert(items.push(main_menu_json())[items.len() as int] == main_menu_json());
}

/// Adding the main menu to a section that already got it changes nothing:
/// adding it twice gives what adding it once gives.
pub proof fn lemma_with_main_menu_idempotent(section: Json)
    ensures
        with_main_menu(with_main_menu(section)) == with_main_menu(section),
{
    match section {
        Json::Object(e) => match section_items(section) {
            Some(items) => if !has_main_menu_set(items) {
                let x = Json::Array(items.push(main_menu_json()));
                crate::json_order::lemma_insert_entry_get(e, "items"@, x);
                lemma_menu_pushed(items);
            },
            None => {
                let c = menu_container(section);
                lemma_menu_pushed(seq![section]);
                assert(seq![section].push(main_menu_json()) =~= seq![section, main_menu_json()]);
                assert(section_items(c) == Some(seq![section, main_menu_json()]));
            },
        },
        _ => {},
    }
}

/// A chat message that carries a card.
pub open spec fn card_message(card: Json) -> Json {
    Json::Object(seq![("card"@, card), ("type"@, Json::Str("adaptive_card"@))])
}

/// A card of one section, with the schema and version of the card it came from.
pub open spec fn section_card(schema: Json, version: Json, section: Json) -> Json {
    Json::Object(
        seq![
            ("$schema"@, schema),
            ("body"@, Json::Array(seq![section])),
            ("type"@, Json::Str("AdaptiveCard"@)),
            ("version"@, version),
        ],
    )
}

/// One message per section that is an object, in order, each section with the
/// main menu where `add_menu` asks for it.
pub open spec fn section_messages(sections: Seq<Json>, schema: Json, version: Json, add_menu: bool) -> Seq<
    Json,
>
    decreases sections.len(),
{
    if sections.len() == 0 {
        Seq::empty()
    } else {
        let head = section_messages(sections.drop_last(), schema, version, add_menu);
        let s = sections.last();
        if s is Object {
            head.push(
                card_message(
                    section_card(
                        schema,
                        version,
                        if add_menu {
                            with_main_menu(s)
                        } else {
                            s
                        },
                    ),
                ),
            )
        } else {
            head
        }
    }
}

pub open spec fn default_card_schema() -> Seq<char> {
    "http://adaptivecards.io/schemas/adaptive-card.json"@
}

/// The chat messages of a card: the whole card in one message, or, where
/// `split` asks for it, one message per body section (the whole card when it
/// has no section that is an object).
pub open spec fn response_messages(card: Json, split: bool, add_menu: bool) -> Json {
    let whole = Json::Array(seq![card_message(card)]);
    if !split {
        whole
    } else {
        let schema = match json_get(card, "$schema"@) {
            Some(v) => v,
            None => Json::Str(default_card_schema()),
        };
        let version = match json_get(card, "version"@) {
            Some(v) => v,
            None => Json::Str("1.6"@),
        };
        let body = match json_get(card, "body"@) {
            Some(Json::Array(items)) => items,
            _ => Seq::empty(),
        };
        let messages = section_messages(body, schema, version, add_menu);
        if messages.len() == 0 {
            whole
        } else {
            Json::Array(messages)
        }
    }
}

fn card_message_value(card: JsonValue) -> (r: JsonValue)
    ensures
        r@ == card_message(card@),
{
    let ghost c = card@;
    let entries: Vec<(String, JsonValue)> = vec![
        ("card".to_string(), card),
        ("type".to_string(), JsonValue::from_str("adaptive_card")),
    ];
    proof {
        lemma_jv_entries(entries@);
        assert(jv_entries(entries@) =~= card_message(c)->Object_0);
    }
    JsonValue::Object(entries)
}

fn section_card_value(schema: &JsonValue, version: &JsonValue, section: JsonValue) -> (r: JsonValue)
    ensures
        r@ == section_card(schema@, version@, section@),
{
    let ghost sec = section@;
    let body: Vec<JsonValue> = vec![section];
    proof {
        lemma_jv_items(body@);
        assert(jv_items(body@) =~= seq![sec]);
    }
    let entries: Vec<(String, JsonValue)> = vec![
        ("$schema".to_string(), deep_clone(schema)),
        ("body".to_string(), JsonValue::Array(body)),
        ("type".to_string(), JsonValue::from_str("AdaptiveCard")),
        ("version".to_string(), deep_clone(version)),
    ];
    proof {
        lemma_jv_entries(entries@);
        assert(jv_entries(entries@) =~= section_card(schema@, version@, sec)->Object_0);
    }
    JsonValue::Object(entries)
}

fn whole_card_messages(card: &JsonValue) -> (r: JsonValue)
    ensures
        r@ == Json::Array(seq![card_message(card@)]),
{
    let items: Vec<JsonValue> = vec![card_message_value(deep_clone(card))];
    proof {
        lemma_jv_items(items@);
        assert(jv_items(items@) =~= seq![card_message(card@)]);
    }
    JsonValue::Array(items)
}

fn member_or(card: &JsonValue, key: &str, default: &str) -> (r: JsonValue)
    ensures
        r@ == match json_get(card@, key@) {
            Some(v) => v,
            None => Json::Str(default@),
        },
{
    match card.get(key) {
        Some(v) => deep_clone(v),
        None => JsonValue::from_str(default),
    }
}

fn section_messages_of(sections: &Vec<JsonValue>, schema: &JsonValue, version: &JsonValue, add_menu: bool) -> (r: Vec<
    JsonValue,
>)
    ensures
        jv_items(r@) == section_messages(jv_items(sections@), schema@, version@, add_menu),
{
    proof {
        lemma_jv_items(sections@);
    }
    let ghost secs = jv_items(sections@);
    let mut messages: Vec<JsonValue> = Vec::new();
    let mut i: usize = 0;
    proof {
        assert(secs.subrange(0, 0) =~= Seq::<Json>::empty());
        assert(jv_items(messages@) =~= Seq::<Json>::empty());
    }
    while i < sections.len()
        invariant
            secs == jv_items(sections@),
            secs.len() == sections@.len(),
            forall|j: int| 0 <= j < sections@.len() ==> #[trigger] secs[j] == jv(sections@[j]),
            i <= sections.len(),
            jv_items(messages@) == section_messages(secs.subrange(0, i as int), schema@, version@, add_menu),
        decreases sections.len() - i,
    {
        let ghost t1 = secs.subrange(0, i + 1);
        let ghost before = messages@;
        proof {
            assert(t1.drop_last() =~= secs.subrange(0, i as int));
            assert(t1.last() == secs[i as int]);
        }
        let section = &sections[i];
        if section.is_object() {
            let prepared = if add_menu {
                attach_main_menu_to_section(section)
            } else {
                deep_clone(section)
            };
            let message = card_message_value(section_card_value(schema, version, prepared));
            messages.push(message);
            proof {
                assert(messages@.drop_last() =~= before);
            }
        }
        i = i + 1;
    }
    proof {
        assert(secs.subrange(0, sections@.len() as int) =~= secs);
    }
    messages
}

/// The chat messages of a card.
pub fn response_messages_from_card(card: &JsonValue, split_sections: bool, add_main_menu_per_section: bool) -> (r:
    JsonValue)
    ensures
        r@ == response_messages(card@, split_sections, add_main_menu_per_section),
{
    if !split_sections {
        return whole_card_messages(card);
    }
    let schema = member_or(card, "$schema", "http://adaptivecards.io/schemas/adaptive-card.json");
    let version = member_or(card, "version", "1.6");
    let messages = match card.get("body") {
        Some(JsonValue::Array(sections)) => section_messages_of(sections, &schema, &version, add_main_menu_per_section),
        _ => {
            let none: Vec<JsonValue> = Vec::new();
            proof {
                assert(jv_items(none@) =~= Seq::<Json>::empty());
            }
            none
        },
    };
    proof {
        lemma_jv_items(messages@);
    }
    if messages.len() == 0 {
        whole_card_messages(card)
    } else {
        JsonValue::Array(messages)
    }
}

} // verus!
