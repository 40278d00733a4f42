//! What the demo components share: their message echo and their self-description.
use vstd::prelude::*;

use crate::json::{jv, jv_entries, lemma_jv_entries, render, Json, JsonValue};
use crate::text::{push_str, trim, trimmed};

verus! {

broadcast use vstd::string::group_string_axioms;

pub const COMPONENT_ORG: &'static str = "ai.greentic";

pub const COMPONENT_VERSION: &'static str = "0.1.0";

pub const COMPONENT_WORLD: &'static str = "greentic:component/component@0.6.0";

/// `<name>::<operation> => <trimmed input>`.
pub open spec fn handled_message(name: Seq<char>, operation: Seq<char>, input: Seq<char>) -> Seq<
    char,
> {
    name + "::"@ + operation + " => "@ + trimmed(input)
}

/// The echo that a component gives for an operation and its input.
pub fn handle_message_for(name: &str, operation: &str, input: &str) -> (r: String)
    ensures
        r@ == handled_message(name@, operation@, input@),
{
    let mut r = name.to_string();
    push_str(&mut r, "::");
    push_str(&mut r, operation);
    push_str(&mut r, " => ");
    push_str(&mut r, trim(input));
    r
}

/// The self-description of a component, its members in ascending key order.
pub open spec fn descriptor_json(name: Seq<char>) -> Json {
    Json::Object(
        seq![
            (
                "component"@,
                Json::Object(
                    seq![
                        ("name"@, Json::Str(name)),
                        ("org"@, Json::Str(COMPONENT_ORG@)),
                        ("self_describing"@, Json::Bool(true)),
                        ("version"@, Json::Str(COMPONENT_VERSION@)),
                        ("world"@, Json::Str(COMPONENT_WORLD@)),
                    ],
                ),
            ),
        ],
    )
}

/// The self-description of a component as a JSON value.
pub fn descriptor(name: &str) -> (r: JsonValue)
    ensures
        r@ == descriptor_json(name@),
{
    let inner: Vec<(String, JsonValue)> = vec![
        ("name".to_string(), JsonValue::from_str(name)),
        ("org".to_string(), JsonValue::from_str(COMPONENT_ORG)),
        ("self_describing".to_string(), JsonValue::Bool(true)),
        ("version".to_string(), JsonValue::from_str(COMPONENT_VERSION)),
        ("world".to_string(), JsonValue::from_str(COMPONENT_WORLD)),
    ];
    proof {
        lemma_jv_entries(inner@);
    }
    let inner_value = JsonValue::Object(inner);
    proof {
        assert(jv_entries(inner@) =~= descriptor_json(name@)->Object_0[0].1->Object_0);
        assert(jv(inner_value) == descriptor_json(name@)->Object_0[0].1);
    }
    let outer: Vec<(String, JsonValue)> = vec![("component".to_string(), inner_value)];
    proof {
        lemma_jv_entries(outer@);
        assert(jv_entries(outer@) =~= descriptor_json(name@)->Object_0);
    }
    JsonValue::Object(outer)
}

/// The self-description of a component as JSON text.
pub fn describe_payload_for(name: &str) -> (r: String)
    ensures
        r@ == render(descriptor_json(name@)),
{
    descriptor(name).render()
}

} // verus!
